//! Loading a library from entries as they are read from a source: kinds that
//! are left out are filled in, and a key that occurs twice is refused.

use crate::entry::{entries_view, Entry, EntryView};
use crate::fields::{Fields, FieldsView};
use crate::kind::EntryType;
use crate::library::{
    first_repeat, keys_of, lemma_first_repeat, lemma_first_repeat_stays, repeats, Library,
};
use crate::text::{chars_of, same_chars};
use vstd::pervasive::unreached;
use vstd::prelude::*;

verus! {

/// An entry as it is read from a source: it has no key of its own, and it
/// may leave its kind to be derived from the entry that names it as parent.
#[derive(Debug, PartialEq, Eq)]
pub struct NakedEntry {
    /// The kind of the item, if it states one.
    pub entry_type: Option<EntryType>,
    /// The fields of the item.
    pub fields: Fields,
    /// The parents of the item, in declared order.
    pub parents: Vec<NakedEntry>,
}

/// A [`NakedEntry`] as a mathematical value.
pub struct NakedView {
    /// The kind of the item, if it states one.
    pub entry_type: Option<EntryType>,
    /// The fields of the item.
    pub fields: FieldsView,
    /// The parents of the item, in declared order.
    pub parents: Seq<NakedView>,
}

/// The mathematical value of a naked entry.
pub open spec fn naked_model(n: NakedEntry) -> NakedView
    decreases n,
{
    NakedView {
        entry_type: n.entry_type,
        fields: n.fields@,
        parents: Seq::new(
            n.parents@.len(),
            |i: int|
                if 0 <= i < n.parents@.len() {
                    naked_model(n.parents@[i])
                } else {
                    arbitrary()
                },
        ),
    }
}

impl View for NakedEntry {
    type V = NakedView;

    open spec fn view(&self) -> NakedView {
        naked_model(*self)
    }
}

/// Why a library could not be loaded.
#[derive(Debug, PartialEq, Eq)]
pub enum LoadError {
    /// The key occurs a second time.
    DuplicateKey(String),
    /// An entry states no kind and none can be derived for it.
    NoEntryType,
}

/// A [`LoadError`] as a mathematical value.
pub enum LoadErrorView {
    /// The key occurs a second time.
    DuplicateKey(Seq<char>),
    /// An entry states no kind and none can be derived for it.
    NoEntryType,
}

impl View for LoadError {
    type V = LoadErrorView;

    open spec fn view(&self) -> LoadErrorView {
        match self {
            LoadError::DuplicateKey(k) => LoadErrorView::DuplicateKey(k@),
            LoadError::NoEntryType => LoadErrorView::NoEntryType,
        }
    }
}

/// The kind of a naked entry: the one it states or, where it states none,
/// the default parent of the kind of the entry that names it as parent.
pub open spec fn kind_of(stated: Option<EntryType>, child: Option<EntryType>) -> Option<EntryType> {
    match stated {
        Some(t) => Some(t),
        None => match child {
            Some(c) => Some(c.default_parent_spec()),
            None => None,
        },
    }
}

/// The entry that a naked entry becomes under the given key, or nothing where
/// the naked entry or one of its ancestors has no kind. All ancestors take
/// the same key.
pub open spec fn resolved(n: NakedView, key: Seq<char>, child: Option<EntryType>) -> Option<
    EntryView,
>
    decreases n, 0nat,
{
    match kind_of(n.entry_type, child) {
        Some(t) => match resolved_parents(n.parents, key, t, n.parents.len() as int) {
            Some(parents) => Some(EntryView { key, entry_type: t, fields: n.fields, parents }),
            None => None,
        },
        None => None,
    }
}

/// The entries that the first `count` of the parents `ps` of an entry of kind
/// `t` become, or nothing where one of them cannot be resolved.
pub open spec fn resolved_parents(
    ps: Seq<NakedView>,
    key: Seq<char>,
    t: EntryType,
    count: int,
) -> Option<Seq<EntryView>>
    decreases ps, count,
{
    if count <= 0 || count > ps.len() {
        Some(Seq::empty())
    } else {
        match (resolved_parents(ps, key, t, count - 1), resolved(ps[count - 1], key, Some(t))) {
            (Some(before), Some(last)) => Some(before.push(last)),
            _ => None,
        }
    }
}

impl NakedEntry {
    /// Converts into a full entry under the given key, deriving a kind that
    /// is left out from the kind of the entry that names this one as parent.
    pub fn into_entry(self, key: &str, child_entry_type: Option<EntryType>) -> (r: Result<
        Entry,
        LoadError,
    >)
        ensures
            match r {
                Ok(e) => resolved(self@, key@, child_entry_type) == Some(e@),
                Err(e) => e == LoadError::NoEntryType && resolved(self@, key@, child_entry_type)
                    is None,
            },
        decreases self,
    {
        let ghost me = self@;
        let entry_type = match self.entry_type {
            Some(t) => t,
            None => match child_entry_type {
                Some(c) => c.default_parent(),
                None => {
                    return Err(LoadError::NoEntryType);
                },
            },
        };
        let ghost naked = self.parents@;
        assert(me.parents =~= naked.map_values(|p: NakedEntry| p@));
        let mut parents: Vec<Entry> = Vec::new();
        for parent in it: self.parents
            invariant
                it.seq() == naked,
                me == self@,
                kind_of(me.entry_type, child_entry_type) == Some(entry_type),
                me.parents == naked.map_values(|p: NakedEntry| p@),
                parents@.len() == it.index(),
                resolved_parents(me.parents, key@, entry_type, it.index() as int) == Some(
                    parents@.map_values(|e: Entry| e@),
                ),
        {
            let ghost so_far = parents@.map_values(|e: Entry| e@);
            let ghost i = it.index() as int;
            assert(me.parents[i] == parent@);
            match parent.into_entry(key, Some(entry_type)) {
                Ok(e) => {
                    parents.push(e);
                    assert(parents@.map_values(|e: Entry| e@) =~= so_far.push(e@));
                },
                Err(e) => {
                    proof {
                        lemma_unresolved_parent(me.parents, key@, entry_type, i, me.parents.len() as int);
                    }
                    return Err(e);
                },
            }
        }
        let e = Entry { key: key.to_owned(), entry_type, fields: self.fields, parents };
        assert(e@.parents =~= parents@.map_values(|e: Entry| e@));
        Ok(e)
    }
}

/// Where one parent cannot be resolved, the parents cannot be resolved.
proof fn lemma_unresolved_parent(ps: Seq<NakedView>, key: Seq<char>, t: EntryType, i: int, count: int)
    requires
        0 <= i < count <= ps.len(),
        resolved(ps[i], key, Some(t)) is None,
    ensures
        resolved_parents(ps, key, t, count) is None,
    decreases count,
{
    if i < count - 1 {
        lemma_unresolved_parent(ps, key, t, i, count - 1);
    }
}

/// What was read from a source under one key.
#[derive(Debug, PartialEq, Eq)]
pub struct Record {
    /// The key.
    pub key: String,
    /// The entry that was read under the key.
    pub entry: NakedEntry,
}

/// The keys of a sequence of records.
pub open spec fn record_keys(items: Seq<Record>) -> Seq<Seq<char>> {
    items.map_values(|r: Record| r.key@)
}

/// The entries that the first `n` records become, each under its key, or
/// nothing where one of them cannot be resolved.
pub open spec fn resolved_each(items: Seq<Record>, n: int) -> Option<Seq<EntryView>>
    decreases n,
{
    if n <= 0 || n > items.len() {
        Some(Seq::empty())
    } else {
        match (
            resolved_each(items, n - 1),
            resolved(items[n - 1].entry@, items[n - 1].key@, None),
        ) {
            (Some(before), Some(last)) => Some(before.push(last)),
            _ => None,
        }
    }
}

/// The library that the records make, or the reason why they make none: a
/// key that occurs twice is refused before anything else, and records whose
/// kind cannot be resolved after that.
pub open spec fn loaded(items: Seq<Record>) -> Result<Seq<EntryView>, LoadErrorView> {
    match first_repeat(record_keys(items), items.len() as int) {
        Some(j) => Err(LoadErrorView::DuplicateKey(items[j].key@)),
        None => match resolved_each(items, items.len() as int) {
            Some(entries) => Ok(entries),
            None => Err(LoadErrorView::NoEntryType),
        },
    }
}

/// Where one record cannot be resolved, the records cannot be resolved.
proof fn lemma_unresolved_record(items: Seq<Record>, i: int, n: int)
    requires
        0 <= i < n <= items.len(),
        resolved(items[i].entry@, items[i].key@, None) is None,
    ensures
        resolved_each(items, n) is None,
    decreases n,
{
    if i < n - 1 {
        lemma_unresolved_record(items, i, n - 1);
    }
}

/// Whether one of the records was read under the key.
pub fn has_key(items: &Vec<Record>, key: &str) -> (r: bool)
    ensures
        r == record_keys(items@).contains(key@),
{
    let wanted = chars_of(key);
    let mut i: usize = 0;
    while i < items.len()
        invariant
            i <= items.len(),
            wanted@ == key@,
            forall|j: int| 0 <= j < i ==> record_keys(items@)[j] != key@,
        decreases items.len() - i,
    {
        let held = chars_of(items[i].key.as_str());
        if same_chars(&held, &wanted) {
            assert(record_keys(items@)[i as int] == key@);
            return true;
        }
        i += 1;
    }
    false
}

/// The position of the first record whose key repeats that of an earlier
/// record.
fn find_repeat(items: &Vec<Record>) -> (r: Option<usize>)
    ensures
        match r {
            Some(j) => first_repeat(record_keys(items@), items@.len() as int) == Some(j as int)
                && j < items@.len(),
            None => first_repeat(record_keys(items@), items@.len() as int) is None,
        },
{
    let ghost keys = record_keys(items@);
    let mut texts: Vec<Vec<char>> = Vec::new();
    let mut j: usize = 0;
    while j < items.len()
        invariant
            j <= items.len(),
            keys == record_keys(items@),
            texts@.len() == j,
            forall|i: int| 0 <= i < j ==> (#[trigger] texts@[i])@ == keys[i],
            first_repeat(keys, j as int) is None,
        decreases items.len() - j,
    {
        let key = chars_of(items[j].key.as_str());
        assert(key@ == keys[j as int]);
        let mut i: usize = 0;
        while i < j
            invariant
                i <= j < items.len(),
                keys == record_keys(items@),
                texts@.len() == j,
                key@ == keys[j as int],
                first_repeat(keys, j as int) is None,
                forall|k: int| 0 <= k < j ==> (#[trigger] texts@[k])@ == keys[k],
                forall|k: int| 0 <= k < i ==> #[trigger] keys[k] != keys[j as int],
            decreases j - i,
        {
            if same_chars(&texts[i], &key) {
                proof {
                    assert(keys[i as int] == keys[j as int]);
                    assert(repeats(keys, j as int));
                    lemma_first_repeat_stays(keys, j as int + 1, keys.len() as int);
                }
                return Some(j);
            }
            i += 1;
        }
        texts.push(key);
        j += 1;
    }
    None
}

/// Makes a library of records as they were read from a source. A key that
/// occurs twice is refused: no record is dropped or replaced by another.
pub fn load(items: Vec<Record>) -> (r: Result<Library, LoadError>)
    ensures
        match r {
            Ok(library) => loaded(items@) == Ok::<Seq<EntryView>, LoadErrorView>(library@),
            Err(e) => loaded(items@) == Err::<Seq<EntryView>, LoadErrorView>(e@),
        },
        !record_keys(items@).no_duplicates() ==> r is Err && r->Err_0 is DuplicateKey,
        r is Ok ==> r->Ok_0@.len() == items@.len(),
{
    let ghost all = items@;
    let ghost keys = record_keys(all);
    proof {
        lemma_first_repeat(keys, keys.len() as int);
        assert(keys.subrange(0, keys.len() as int) =~= keys);
    }
    match find_repeat(&items) {
        Some(j) => {
            return Err(LoadError::DuplicateKey(items[j].key.clone()));
        },
        None => {},
    }
    let mut entries: Vec<Entry> = Vec::new();
    for record in it: items
        invariant
            it.seq() == all,
            all == items@,
            keys == record_keys(all),
            first_repeat(keys, all.len() as int) is None,
            keys.no_duplicates(),
            entries@.len() == it.index(),
            resolved_each(all, it.index() as int) == Some(entries_view(entries@)),
            keys_of(entries_view(entries@)) == keys.subrange(0, it.index() as int),
    {
        let ghost i = it.index() as int;
        let ghost so_far = entries_view(entries@);
        assert(all[i] == record);
        match record.entry.into_entry(record.key.as_str(), None) {
            Ok(e) => {
                entries.push(e);
                assert(entries_view(entries@) =~= so_far.push(e@));
                assert(keys_of(entries_view(entries@)) =~= keys.subrange(0, i + 1));
            },
            Err(e) => {
                proof {
                    lemma_unresolved_record(all, i, all.len() as int);
                }
                return Err(e);
            },
        }
    }
    proof {
        assert(keys.subrange(0, all.len() as int) =~= keys);
    }
    match Library::from_entries(entries) {
        Ok(library) => Ok(library),
        Err(_) => unreached(),
    }
}

} // verus!
