use hayagriva::entry::Entry;
use hayagriva::kind::EntryType;
use hayagriva::types::{
    Date, Duration, DurationRange, NumOrStr, NumRange, Person, PersonRole, PersonsWithRoles,
    QualifiedUrl,
};

fn person(name: &str) -> Person {
    Person { name: name.to_string(), given_name: None, prefix: None, suffix: None, alias: None }
}

fn dated(key: &str, year: i32) -> Entry {
    let mut entry = Entry::new(key, EntryType::Misc);
    entry.set_date(Date { year, month: None, day: None });
    entry
}

fn over(key: &str, parents: Vec<Entry>) -> Entry {
    let mut entry = Entry::new(key, EntryType::Misc);
    entry.set_parents(parents);
    entry
}

#[test]
fn new_entries_have_no_fields() {
    let entry = Entry::new("key", EntryType::Thesis);
    assert_eq!(entry.key(), "key");
    assert_eq!(entry.entry_type(), &EntryType::Thesis);
    assert!(entry.parents().is_empty());
    assert!(entry.title().is_none());
    assert!(entry.date().is_none());
    for name in ["title", "author", "date", "url", "note", "page-range", "key", ""] {
        assert!(!entry.has(name));
    }
}

#[test]
fn has_knows_every_field_by_its_name() {
    let mut entry = Entry::new("key", EntryType::Book);
    entry.set_title("T".to_string());
    entry.set_authors(vec![person("A")]);
    entry.set_date(Date { year: 2020, month: Some(0), day: Some(0) });
    entry.set_editors(vec![person("E")]);
    entry.set_affiliated(vec![PersonsWithRoles {
        names: vec![person("D")],
        role: PersonRole::Director,
    }]);
    entry.set_publisher("P".to_string());
    entry.set_location("L".to_string());
    entry.set_organization("O".to_string());
    entry.set_issue(NumOrStr::Number(3));
    entry.set_volume(NumRange { start: 4, end: 4 });
    entry.set_volume_total(12);
    entry.set_edition(NumOrStr::Number(2));
    entry.set_page_range(NumRange { start: 1, end: 9 });
    entry.set_page_total(300);
    let second = Duration { days: 0, hours: 0, minutes: 0, seconds: 1, milliseconds: 0 };
    entry.set_time_range(DurationRange { start: second, end: second });
    entry.set_runtime(second);
    entry.set_url(QualifiedUrl { value: "https://example.org".to_string(), visit_date: None });
    entry.set_doi("10.1000/1".to_string());
    entry.set_serial_number("S".to_string());
    entry.set_isbn("I".to_string());
    entry.set_issn("N".to_string());
    entry.set_language("en".to_string());
    entry.set_archive("A".to_string());
    entry.set_archive_location("AL".to_string());
    entry.set_call_number("C".to_string());
    entry.set_note("N".to_string());
    for name in [
        "title",
        "author",
        "date",
        "editor",
        "affiliated",
        "publisher",
        "location",
        "organization",
        "issue",
        "volume",
        "volume-total",
        "edition",
        "page-range",
        "page-total",
        "time-range",
        "runtime",
        "url",
        "doi",
        "serial-number",
        "isbn",
        "issn",
        "language",
        "archive",
        "archive-location",
        "call-number",
        "note",
    ] {
        assert!(entry.has(name), "{}", name);
    }
    for name in ["authors", "Title", "volume_total", "parent", "type", "key"] {
        assert!(!entry.has(name), "{}", name);
    }
    assert_eq!(entry.title().unwrap(), "T");
    assert_eq!(entry.volume(), Some(&NumRange { start: 4, end: 4 }));
    assert_eq!(entry.issue(), Some(&NumOrStr::Number(3)));
    assert_eq!(entry.page_range(), Some(&NumRange { start: 1, end: 9 }));
}

#[test]
fn empty_values_count_as_absent() {
    let mut entry = Entry::new("key", EntryType::Book);
    entry.set_title(String::new());
    entry.set_authors(Vec::new());
    entry.set_affiliated(Vec::new());
    assert!(entry.title().is_some());
    assert!(!entry.has("title"));
    assert!(!entry.has("author"));
    assert!(!entry.has("affiliated"));
    entry.set_title("ü".to_string());
    assert!(entry.has("title"));
}

#[test]
fn clones_are_equal() {
    let mut entry = over("a", vec![over("b", vec![dated("c", 1999)]), dated("d", 2001)]);
    entry.set_authors(vec![person("A"), person("B")]);
    entry.set_edition(NumOrStr::Str("IV".to_string()));
    let copy = entry.clone();
    assert_eq!(copy, entry);
}

#[test]
fn map_parents_goes_breadth_first() {
    // a has the parents b and e; b has the parents c and d.
    let entry = over(
        "a",
        vec![over("b", vec![dated("c", 1900), dated("d", 1901)]), dated("e", 2000)],
    );
    assert_eq!(entry.date_any(), Some(&Date { year: 2000, month: None, day: None }));

    let mut visited = Vec::new();
    let order = std::cell::RefCell::new(&mut visited);
    let none: Option<()> = entry.map_parents(|e| {
        order.borrow_mut().push(e.key().to_string());
        None
    });
    assert!(none.is_none());
    assert_eq!(visited, ["b", "e", "c", "d"]);

    let mut visited = Vec::new();
    let order = std::cell::RefCell::new(&mut visited);
    let found = entry.map(|e| {
        order.borrow_mut().push(e.key().to_string());
        if e.key() == "c" {
            Some(e.key())
        } else {
            None
        }
    });
    assert_eq!(found, Some("c"));
    assert_eq!(visited, ["a", "b", "e", "c"]);
}

#[test]
fn map_prefers_the_entry_itself() {
    let mut entry = over("a", vec![dated("b", 1900)]);
    assert_eq!(entry.date_any().unwrap().year, 1900);
    assert_eq!(entry.map_parents(|e| e.date()).unwrap().year, 1900);
    entry.set_date(Date { year: 2000, month: None, day: None });
    assert_eq!(entry.date_any().unwrap().year, 2000);
    assert_eq!(entry.map(|e| e.date()).unwrap().year, 2000);
    assert_eq!(entry.map_parents(|e| e.date()).unwrap().year, 1900);
}

#[test]
fn values_come_from_the_nearest_generation() {
    let mut deep = Entry::new("deep", EntryType::Misc);
    deep.set_url(QualifiedUrl { value: "https://example.org/deep".to_string(), visit_date: None });
    let mut near = Entry::new("near", EntryType::Misc);
    near.set_url(QualifiedUrl { value: "https://example.org/near".to_string(), visit_date: None });
    let entry = over("a", vec![over("b", vec![deep]), over("c", vec![]), near]);
    assert_eq!(entry.url_any().unwrap().value, "https://example.org/near");
    assert!(entry.date_any().is_none());
    assert!(Entry::new("alone", EntryType::Misc).url_any().is_none());
}

#[test]
fn affiliated_persons_are_found_by_role() {
    let mut entry = Entry::new("film", EntryType::Video);
    assert!(entry.affiliated_with_role(PersonRole::Director).is_empty());
    entry.add_affiliated_persons((vec![person("A"), person("B")], PersonRole::Director));
    entry.add_affiliated_persons((vec![person("C")], PersonRole::Writer));
    entry.add_affiliated_persons((vec![person("D")], PersonRole::Director));
    entry.add_affiliated_persons((vec![person("E")], PersonRole::Unknown("gaffer".to_string())));
    let names = |role| -> Vec<String> {
        entry.affiliated_with_role(role).into_iter().map(|p| p.name).collect()
    };
    assert_eq!(names(PersonRole::Director), ["A", "B", "D"]);
    assert_eq!(names(PersonRole::Writer), ["C"]);
    assert_eq!(names(PersonRole::Unknown("gaffer".to_string())), ["E"]);
    assert!(names(PersonRole::Unknown("grip".to_string())).is_empty());
    assert!(names(PersonRole::Producer).is_empty());
    assert_eq!(entry.affiliated().unwrap().len(), 4);
}

#[test]
fn parents_can_be_added_and_changed() {
    let mut entry = Entry::new("a", EntryType::Article);
    entry.add_parent(Entry::new("b", EntryType::Periodical));
    entry.add_parent(Entry::new("c", EntryType::Blog));
    assert_eq!(entry.parents().len(), 2);
    assert_eq!(entry.parents()[1].key(), "c");
    entry.parents_mut()[0].set_title("Journal".to_string());
    assert_eq!(entry.parents()[0].title().unwrap(), "Journal");
    assert_eq!(entry.key(), "a");
}

#[test]
fn default_parents_follow_the_kind() {
    assert_eq!(EntryType::Article.default_parent(), EntryType::Periodical);
    assert_eq!(EntryType::Chapter.default_parent(), EntryType::Book);
    assert_eq!(EntryType::Entry.default_parent(), EntryType::Reference);
    assert_eq!(EntryType::InAnthology.default_parent(), EntryType::Anthology);
    assert_eq!(EntryType::WebItem.default_parent(), EntryType::WebItem);
    assert_eq!(EntryType::Scene.default_parent(), EntryType::Video);
    assert_eq!(EntryType::Artwork.default_parent(), EntryType::Exhibition);
    assert_eq!(EntryType::Legislation.default_parent(), EntryType::Anthology);
    assert_eq!(EntryType::Post.default_parent(), EntryType::Post);
    assert_eq!(EntryType::Video.default_parent(), EntryType::Video);
    assert_eq!(EntryType::Audio.default_parent(), EntryType::Audio);
    assert_eq!(EntryType::Book.default_parent(), EntryType::Misc);
    assert_eq!(EntryType::Thesis.default_parent(), EntryType::Misc);
    assert_eq!(EntryType::InAnthology.name(), "anthos");
    assert_eq!(EntryType::WebItem.name(), "web");
    assert_eq!(EntryType::Proceedings.name(), "proceedings");
}

#[test]
fn entries_are_equal_by_kind_fields_and_parents() {
    let a = over("a", vec![dated("b", 1999), dated("c", 2001)]);
    assert_eq!(a, a.clone());
    // The key plays no part.
    assert_eq!(a, over("z", vec![dated("y", 1999), dated("x", 2001)]));
    assert_eq!(dated("a", 5), dated("b", 5));
    assert_ne!(dated("a", 5), dated("a", 6));
    assert_ne!(a, over("a", vec![dated("c", 2001), dated("b", 1999)]));
    assert_ne!(a, over("a", vec![dated("b", 1999)]));
    assert_ne!(a, over("a", vec![dated("b", 1999), dated("c", 2001), dated("d", 1)]));
    assert_ne!(Entry::new("a", EntryType::Book), Entry::new("a", EntryType::Blog));
    let mut titled = Entry::new("a", EntryType::Book);
    titled.set_title("T".to_string());
    assert_ne!(titled, Entry::new("a", EntryType::Book));
    assert!(titled.same(&titled.clone()));
    let mut deep = over("a", vec![over("b", vec![dated("c", 1)])]);
    assert_ne!(deep, over("a", vec![over("b", vec![dated("c", 2)])]));
    deep.set_authors(vec![person("A")]);
    let mut other = over("a", vec![over("b", vec![dated("c", 1)])]);
    other.set_authors(vec![person("B")]);
    assert_ne!(deep, other);
    other.set_authors(vec![person("A")]);
    assert_eq!(deep, other);
}
