use hayagriva::entry::Entry;
use hayagriva::fields::Fields;
use hayagriva::kind::EntryType;
use hayagriva::library::Library;
use hayagriva::load::{load, LoadError, NakedEntry, Record};

fn titled(key: &str, title: &str) -> Entry {
    let mut entry = Entry::new(key, EntryType::Book);
    entry.set_title(title.to_string());
    entry
}

fn keys(library: &Library) -> Vec<String> {
    library.keys().into_iter().map(|key| key.to_string()).collect()
}

#[test]
fn libraries_keep_the_order_of_their_entries() {
    let mut library = Library::new();
    assert!(library.is_empty());
    assert_eq!(library.len(), 0);
    assert!(library.nth(0).is_none());
    for key in ["c", "a", "b"] {
        library.push(&titled(key, key));
    }
    assert!(!library.is_empty());
    assert_eq!(library.len(), 3);
    assert_eq!(keys(&library), ["c", "a", "b"]);
    assert_eq!(library.nth(1).unwrap().key(), "a");
    assert!(library.nth(3).is_none());
    assert_eq!(library.get("b").unwrap().title().unwrap(), "b");
    assert!(library.get("d").is_none());
    let entries: Vec<&str> = library.iter().into_iter().map(|entry| entry.key()).collect();
    assert_eq!(entries, ["c", "a", "b"]);
    let owned: Vec<Entry> = library.into_entries();
    assert_eq!(owned[2], titled("b", "b"));
}

#[test]
fn libraries_can_be_copied() {
    let mut library = Library::default();
    assert!(library.is_empty());
    for key in ["c", "a", "b"] {
        library.push(&titled(key, key));
    }
    let copy = library.clone();
    assert_eq!(keys(&copy), ["c", "a", "b"]);
    assert_eq!(copy.get("a").unwrap().title().unwrap(), "a");
    library.remove("a");
    assert_eq!(copy.len(), 3);
}

#[test]
fn libraries_are_equal_by_their_keys_and_entries() {
    let of = |items: &[(&str, &str)]| {
        let mut library = Library::new();
        for (key, title) in items {
            library.push(&titled(key, title));
        }
        library
    };
    let library = of(&[("a", "1"), ("b", "2"), ("c", "3")]);
    assert!(library == library.clone());
    assert!(library == of(&[("c", "3"), ("a", "1"), ("b", "2")]));
    assert!(library != of(&[("a", "1"), ("b", "2")]));
    assert!(of(&[("a", "1"), ("b", "2")]) != library);
    assert!(library != of(&[("a", "1"), ("b", "2"), ("d", "3")]));
    assert!(library != of(&[("a", "1"), ("b", "2"), ("c", "4")]));
    assert!(Library::new() == Library::default());
    assert!(library.same(&of(&[("b", "2"), ("c", "3"), ("a", "1")])));
}

#[test]
fn pushing_a_known_key_replaces_in_place() {
    let mut library = Library::new();
    for key in ["c", "a", "b"] {
        library.push(&titled(key, "old"));
    }
    let replaced = library.push(&titled("a", "new"));
    assert_eq!(replaced.unwrap().title().unwrap(), "old");
    assert!(library.push(&titled("d", "more")).is_none());
    assert_eq!(library.remove("d").unwrap().key(), "d");
    assert_eq!(library.len(), 3);
    assert_eq!(keys(&library), ["c", "a", "b"]);
    assert_eq!(library.get("a").unwrap().title().unwrap(), "new");
    assert_eq!(library.get("c").unwrap().title().unwrap(), "old");
}

#[test]
fn removing_keeps_the_order_of_the_others() {
    let mut library = Library::new();
    for key in ["a", "b", "c", "d"] {
        library.push(&titled(key, key));
    }
    assert!(library.remove("x").is_none());
    assert_eq!(library.len(), 4);
    assert_eq!(library.remove("a").unwrap(), titled("a", "a"));
    assert_eq!(keys(&library), ["b", "c", "d"]);
    assert_eq!(library.nth(0).unwrap().key(), "b");
    assert_eq!(library.remove("c").unwrap().key(), "c");
    assert_eq!(keys(&library), ["b", "d"]);
    assert!(library.get("c").is_none());
    assert_eq!(library.get("d").unwrap().title().unwrap(), "d");
    assert_eq!(library.remove("d").unwrap().key(), "d");
    assert_eq!(library.remove("b").unwrap().key(), "b");
    assert!(library.is_empty());
}

#[test]
fn from_entries_refuses_a_repeated_key() {
    let library =
        Library::from_entries(vec![titled("a", "1"), titled("b", "2"), titled("c", "3")]).unwrap();
    assert_eq!(keys(&library), ["a", "b", "c"]);
    assert_eq!(
        Library::from_entries(vec![
            titled("a", "1"),
            titled("b", "2"),
            titled("a", "3"),
            titled("b", "4"),
        ])
        .unwrap_err(),
        2
    );
    assert!(Library::from_entries(Vec::new()).unwrap().is_empty());
}

fn naked(kind: Option<EntryType>, parents: Vec<NakedEntry>) -> NakedEntry {
    NakedEntry { entry_type: kind, fields: Fields::none(), parents }
}

fn record(key: &str, entry: NakedEntry) -> Record {
    Record { key: key.to_string(), entry }
}

#[test]
fn loading_fills_in_the_kinds_of_parents() {
    let mut article = naked(Some(EntryType::Article), vec![naked(None, vec![naked(None, vec![])])]);
    article.fields.title = Some("Structure".to_string());
    let library = load(vec![
        record("vortex", article),
        record("film", naked(Some(EntryType::Scene), vec![naked(Some(EntryType::Blog), vec![])])),
    ])
    .unwrap();
    assert_eq!(library.len(), 2);
    let vortex = library.get("vortex").unwrap();
    assert_eq!(vortex.entry_type(), &EntryType::Article);
    assert_eq!(vortex.title().unwrap(), "Structure");
    assert_eq!(vortex.parents()[0].entry_type(), &EntryType::Periodical);
    assert_eq!(vortex.parents()[0].key(), "vortex");
    assert_eq!(vortex.parents()[0].parents()[0].entry_type(), &EntryType::Misc);
    assert_eq!(library.nth(1).unwrap().parents()[0].entry_type(), &EntryType::Blog);
}

#[test]
fn loading_a_duplicate_key_fails() {
    let result = load(vec![
        record("a", naked(Some(EntryType::Book), vec![])),
        record("b", naked(Some(EntryType::Book), vec![])),
        record("a", naked(Some(EntryType::Video), vec![])),
    ]);
    assert_eq!(result.unwrap_err(), LoadError::DuplicateKey("a".to_string()));
    // A repeated key is reported before a missing kind.
    let result = load(vec![
        record("a", naked(None, vec![])),
        record("b", naked(Some(EntryType::Book), vec![])),
        record("b", naked(Some(EntryType::Book), vec![])),
    ]);
    assert_eq!(result.unwrap_err(), LoadError::DuplicateKey("b".to_string()));
}

#[test]
fn loading_an_entry_without_a_kind_fails() {
    let result = load(vec![
        record("a", naked(Some(EntryType::Book), vec![])),
        record("b", naked(None, vec![])),
    ]);
    assert_eq!(result.unwrap_err(), LoadError::NoEntryType);
    assert_eq!(
        naked(None, vec![]).into_entry("k", None).unwrap_err(),
        LoadError::NoEntryType
    );
    assert_eq!(
        naked(None, vec![]).into_entry("k", Some(EntryType::Chapter)).unwrap().entry_type(),
        &EntryType::Book
    );
    assert!(load(Vec::new()).unwrap().is_empty());
}
