use hayagriva::entry::Entry;
use hayagriva::kind::EntryType;
use hayagriva::lang::{SentenceCase, TitleCase};
use hayagriva::output::ieee::{credited, IeeeBibliographyGenerator};
use hayagriva::types::{NumOrStr, NumRange, Person, PersonRole, QualifiedUrl};

fn person(name: &str) -> Person {
    Person { name: name.to_string(), given_name: None, prefix: None, suffix: None, alias: None }
}

fn persons(names: &[&str]) -> Vec<Person> {
    names.iter().map(|name| person(name)).collect()
}

fn list(generator: &IeeeBibliographyGenerator, names: &[&str]) -> String {
    generator.and_list(names.iter().map(|name| name.to_string()).collect())
}

fn author(entry: &Entry) -> String {
    let names = credited(entry).persons.iter().map(|p| p.name.clone()).collect();
    IeeeBibliographyGenerator::new().get_author(entry, &names)
}

#[test]
fn the_generator_starts_with_the_settings_of_the_style() {
    let generator = IeeeBibliographyGenerator::new();
    assert_eq!(generator.et_al_threshold, Some(6));
    assert_eq!(generator.sc_formatter, SentenceCase::default());
    assert_eq!(
        generator.tc_formatter,
        TitleCase { always_capitalize_min_len: Some(4), ..TitleCase::default() }
    );
    assert_eq!(TitleCase::default().always_capitalize_min_len, None);
}

#[test]
fn names_are_listed_with_commas_and_and() {
    let generator = IeeeBibliographyGenerator::new();
    assert_eq!(list(&generator, &[]), "");
    assert_eq!(list(&generator, &["A"]), "A");
    assert_eq!(list(&generator, &["A", "B"]), "A, and B");
    assert_eq!(list(&generator, &["A", "B", "C"]), "A, B, and C");
    assert_eq!(list(&generator, &["A", "B", "C", "D", "E"]), "A, B, C, D, and E");
}

#[test]
fn long_lists_are_cut_short() {
    let mut generator = IeeeBibliographyGenerator::new();
    assert_eq!(list(&generator, &["A", "B", "C", "D", "E", "F"]), "A, B, et al.");
    assert_eq!(list(&generator, &["A", "B", "C", "D", "E", "F", "G"]), "A, B, et al.");
    generator.et_al_threshold = Some(3);
    assert_eq!(list(&generator, &["A", "B"]), "A, and B");
    assert_eq!(list(&generator, &["A", "B", "C"]), "A, B, and et al.");
    generator.et_al_threshold = Some(1);
    assert_eq!(list(&generator, &["A"]), "Aet al.");
    generator.et_al_threshold = Some(0);
    assert_eq!(list(&generator, &["A", "B", "C", "D", "E", "F", "G"]), "A, B, C, D, E, F, and G");
    generator.et_al_threshold = None;
    assert_eq!(list(&generator, &["A", "B", "C", "D", "E", "F", "G"]), "A, B, C, D, E, F, and G");
}

#[test]
fn authors_come_before_editors() {
    let mut entry = Entry::new("e", EntryType::Book);
    assert_eq!(author(&entry), "");
    entry.set_editors(persons(&["E"]));
    assert_eq!(author(&entry), "E, Ed.");
    entry.set_editors(persons(&["E", "F"]));
    assert_eq!(author(&entry), "E, and F, Eds.");
    entry.set_authors(persons(&["A", "B", "C"]));
    assert_eq!(author(&entry), "A, B, and C");
    entry.set_authors(Vec::new());
    assert_eq!(author(&entry), "E, and F, Eds.");
    entry.set_editors(Vec::new());
    assert_eq!(author(&entry), "");
}

#[test]
fn films_credit_directors_or_executive_producers() {
    let mut film = Entry::new("film", EntryType::Video);
    film.set_authors(persons(&["A"]));
    assert_eq!(author(&film), "A");
    film.add_affiliated_persons((persons(&["P"]), PersonRole::ExecutiveProducer));
    assert_eq!(author(&film), "P, Executive Prod.");
    film.add_affiliated_persons((persons(&["Q"]), PersonRole::ExecutiveProducer));
    assert_eq!(author(&film), "P, and Q, Executive Prods.");
    film.add_affiliated_persons((persons(&["D"]), PersonRole::Director));
    assert_eq!(author(&film), "D, Director");
    film.add_affiliated_persons((persons(&["E"]), PersonRole::Director));
    assert_eq!(author(&film), "D, and E, Directors");

    let mut book = Entry::new("book", EntryType::Book);
    book.set_authors(persons(&["A"]));
    book.add_affiliated_persons((persons(&["D"]), PersonRole::Director));
    assert_eq!(author(&book), "A");
}

#[test]
fn episodes_credit_directors_and_writers() {
    let mut episode = Entry::new("episode", EntryType::Video);
    episode.set_issue(NumOrStr::Number(3));
    episode.set_volume(NumRange { start: 1, end: 1 });
    episode.set_parents(vec![Entry::new("series", EntryType::Video)]);
    episode.set_authors(persons(&["A"]));
    episode.add_affiliated_persons((persons(&["W"]), PersonRole::Writer));
    // Without a director the writers are not credited, nor are executive producers.
    episode.add_affiliated_persons((persons(&["P"]), PersonRole::ExecutiveProducer));
    assert_eq!(author(&episode), "A");
    episode.add_affiliated_persons((persons(&["D"]), PersonRole::Director));
    assert_eq!(author(&episode), "D (Director), and W (Writer)");
    episode.add_affiliated_persons((persons(&["V"]), PersonRole::Writer));
    assert_eq!(author(&episode), "D (Director), W (Writer), and V (Writer)");
    let found = credited(&episode);
    assert_eq!(found.persons.len(), 3);
    assert_eq!(found.tags, [" (Director)", " (Writer)", " (Writer)"]);
    assert_eq!(found.ending, "");

    // Without the series above it, the video is a film.
    episode.set_parents(Vec::new());
    assert_eq!(author(&episode), "D, Director");
}

#[test]
fn names_are_those_that_the_caller_gives() {
    let mut entry = Entry::new("e", EntryType::Book);
    entry.set_authors(persons(&["Doe", "Roe"]));
    let generator = IeeeBibliographyGenerator::new();
    let line = |names: &[&str]| {
        generator.get_author(&entry, &names.iter().map(|n| n.to_string()).collect())
    };
    assert_eq!(line(&["J. Doe", "R. Roe"]), "J. Doe, and R. Roe");
    // The line is made of the names that are given, however many.
    assert_eq!(line(&["J. Doe"]), "J. Doe");
    assert_eq!(line(&[]), "");
    assert_eq!(line(&["A", "B", "C"]), "A, B, and C");
    // Where nobody is credited, names make no line.
    let nobody = Entry::new("n", EntryType::Book);
    assert_eq!(generator.get_author(&nobody, &vec!["A".to_string()]), "");

    let mut episode = Entry::new("episode", EntryType::Video);
    episode.set_issue(NumOrStr::Number(3));
    episode.set_volume(NumRange { start: 1, end: 1 });
    episode.set_parents(vec![Entry::new("series", EntryType::Video)]);
    episode.add_affiliated_persons((persons(&["D"]), PersonRole::Director));
    let names = vec!["X".to_string(), "Y".to_string()];
    assert_eq!(generator.get_author(&episode, &names), "X (Director), and Y");
}

#[test]
fn urls_are_shown_where_an_ancestor_has_one() {
    let generator = IeeeBibliographyGenerator::new();
    let mut parent = Entry::new("p", EntryType::Blog);
    let mut entry = Entry::new("e", EntryType::Article);
    entry.set_parents(vec![parent.clone()]);
    assert!(!generator.show_url(&entry));
    parent.set_url(QualifiedUrl { value: "https://example.org".to_string(), visit_date: None });
    entry.set_parents(vec![parent]);
    assert!(generator.show_url(&entry));
}
