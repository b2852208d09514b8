use hayagriva::entry::Entry;
use hayagriva::kind::EntryType;
use hayagriva::output::ieee::get_canonical_parent;
use hayagriva::relation::{EntryTypeModality, EntryTypeSpec, RelationError};

fn over(key: &str, kind: EntryType, parents: &[EntryType]) -> Entry {
    let mut entry = Entry::new(key, kind);
    entry.set_parents(parents.iter().map(|kind| Entry::new(kind.name(), *kind)).collect());
    entry
}

#[test]
fn modalities_admit_kinds() {
    assert!(EntryTypeModality::Any.admits(EntryType::Case));
    assert!(EntryTypeModality::Specific(EntryType::Book).admits(EntryType::Book));
    assert!(!EntryTypeModality::Specific(EntryType::Book).admits(EntryType::Blog));
    let either = EntryTypeModality::Alternate(vec![EntryType::Book, EntryType::Blog]);
    assert!(either.admits(EntryType::Blog));
    assert!(!either.admits(EntryType::Video));
    assert!(!EntryTypeModality::Alternate(vec![]).admits(EntryType::Video));
}

#[test]
fn the_single_qualifying_parent_is_found() {
    let spec = EntryTypeSpec::single_parent(
        EntryTypeModality::Specific(EntryType::Article),
        EntryTypeModality::Alternate(vec![EntryType::Periodical, EntryType::Newspaper]),
    );
    let check = |kind, parents: &[EntryType]| over("e", kind, parents).check_with_spec(&spec);
    assert_eq!(check(EntryType::Article, &[EntryType::Periodical]), Ok(0));
    assert_eq!(check(EntryType::Article, &[EntryType::Blog, EntryType::Newspaper]), Ok(1));
    assert_eq!(
        check(EntryType::Article, &[EntryType::Blog, EntryType::Video, EntryType::Periodical]),
        Ok(2)
    );
    assert_eq!(check(EntryType::Book, &[EntryType::Periodical]), Err(RelationError::WrongType));
    assert_eq!(check(EntryType::Book, &[]), Err(RelationError::WrongType));
    assert_eq!(check(EntryType::Article, &[]), Err(RelationError::NoParent));
    assert_eq!(check(EntryType::Article, &[EntryType::Blog]), Err(RelationError::NoParent));
    assert_eq!(
        check(EntryType::Article, &[EntryType::Periodical, EntryType::Newspaper]),
        Err(RelationError::AmbiguousParent)
    );
    assert_eq!(
        check(
            EntryType::Article,
            &[EntryType::Periodical, EntryType::Blog, EntryType::Periodical, EntryType::Periodical]
        ),
        Err(RelationError::AmbiguousParent)
    );
}

fn canonical(kind: EntryType, parents: &[EntryType]) -> Option<EntryType> {
    let entry = over("e", kind, parents);
    get_canonical_parent(&entry).map(|parent| *parent.entry_type())
}

#[test]
fn canonical_parents_follow_the_relations_in_order() {
    assert_eq!(canonical(EntryType::Article, &[EntryType::Periodical]), Some(EntryType::Periodical));
    assert_eq!(
        canonical(EntryType::InAnthology, &[EntryType::Blog, EntryType::Anthology]),
        Some(EntryType::Anthology)
    );
    assert_eq!(
        canonical(EntryType::Entry, &[EntryType::Repository]),
        Some(EntryType::Repository)
    );
    assert_eq!(canonical(EntryType::Entry, &[EntryType::Reference]), Some(EntryType::Reference));
    assert_eq!(
        canonical(EntryType::Thesis, &[EntryType::Video, EntryType::Proceedings]),
        Some(EntryType::Proceedings)
    );
    assert_eq!(canonical(EntryType::Chapter, &[EntryType::Book]), Some(EntryType::Book));
    assert_eq!(canonical(EntryType::Scene, &[EntryType::Video]), Some(EntryType::Video));
    assert_eq!(canonical(EntryType::WebItem, &[EntryType::WebItem]), Some(EntryType::WebItem));
    // The periodical relation comes before the proceedings relation.
    assert_eq!(
        canonical(EntryType::Article, &[EntryType::Proceedings, EntryType::Periodical]),
        Some(EntryType::Periodical)
    );
    // The proceedings relation comes before the section relation.
    assert_eq!(
        canonical(EntryType::Chapter, &[EntryType::Book, EntryType::Proceedings]),
        Some(EntryType::Proceedings)
    );
}

#[test]
fn entries_outside_every_relation_have_no_canonical_parent() {
    assert_eq!(canonical(EntryType::Article, &[]), None);
    assert_eq!(canonical(EntryType::Article, &[EntryType::Conference, EntryType::Video]), None);
    assert_eq!(canonical(EntryType::Book, &[EntryType::Anthology]), None);
    // Two parents qualify under the one relation that applies.
    assert_eq!(canonical(EntryType::Chapter, &[EntryType::Book, EntryType::Book]), None);
    assert_eq!(
        canonical(EntryType::Article, &[EntryType::Periodical, EntryType::Periodical]),
        None
    );
    // An ambiguous relation does not hide a later one.
    assert_eq!(
        canonical(
            EntryType::Article,
            &[EntryType::Periodical, EntryType::Periodical, EntryType::Proceedings]
        ),
        Some(EntryType::Proceedings)
    );
}
