//! A library: entries by key, in the order in which they were added.

use crate::entry::{alike, entries_view, Entry, EntryView};
use indexmap::IndexMap;
use vstd::prelude::*;

verus! {

/// `indexmap::IndexMap`, of which nothing is known but what the functions
/// below say of it.
#[verifier::external_type_specification]
#[verifier::external_body]
#[verifier::reject_recursive_types(K)]
#[verifier::reject_recursive_types(V)]
#[verifier::reject_recursive_types(S)]
pub struct ExIndexMap<K, V, S>(IndexMap<K, V, S>);

/// The key-value pairs that an index map holds, in their order.
pub uninterp spec fn index_map_pairs(m: IndexMap<String, Entry>) -> Seq<(String, Entry)>;

/// The position of the first pair whose key is the text `key`.
pub open spec fn key_position(pairs: Seq<(String, Entry)>, key: Seq<char>) -> Option<int>
    decreases pairs.len(),
{
    if pairs.len() == 0 {
        None
    } else if key_position(pairs.drop_last(), key) is Some {
        key_position(pairs.drop_last(), key)
    } else if pairs.last().0@ == key {
        Some(pairs.len() - 1)
    } else {
        None
    }
}

/// `IndexMap::new`: the new map holds no pair.
#[verifier::external_body]
fn map_new() -> (m: IndexMap<String, Entry>)
    ensures
        index_map_pairs(m) == Seq::<(String, Entry)>::empty(),
{
    IndexMap::new()
}

/// `IndexMap::len`: the number of pairs.
#[verifier::external_body]
fn map_len(m: &IndexMap<String, Entry>) -> (n: usize)
    ensures
        n == index_map_pairs(*m).len(),
{
    m.len()
}

/// `IndexMap::is_empty`: whether the map holds no pair.
#[verifier::external_body]
fn map_is_empty(m: &IndexMap<String, Entry>) -> (r: bool)
    ensures
        r == (index_map_pairs(*m).len() == 0),
{
    m.is_empty()
}

/// `IndexMap::insert`: where a pair with an equal key exists, that pair keeps
/// its key and its place, takes the new value and hands back the old one;
/// otherwise the new pair becomes the last.
#[verifier::external_body]
fn map_insert(m: &mut IndexMap<String, Entry>, key: String, value: Entry) -> (r: Option<Entry>)
    ensures
        match key_position(index_map_pairs(*old(m)), key@) {
            Some(i) => {
                &&& r == Some(index_map_pairs(*old(m))[i].1)
                &&& index_map_pairs(*final(m)) == index_map_pairs(*old(m)).update(
                    i,
                    (index_map_pairs(*old(m))[i].0, value),
                )
            },
            None => {
                &&& r is None
                &&& index_map_pairs(*final(m)) == index_map_pairs(*old(m)).push((key, value))
            },
        },
{
    m.insert(key, value)
}

/// `IndexMap::get`: the value of the pair with an equal key, if there is one.
#[verifier::external_body]
fn map_get<'a>(m: &'a IndexMap<String, Entry>, key: &str) -> (r: Option<&'a Entry>)
    ensures
        match key_position(index_map_pairs(*m), key@) {
            Some(i) => r == Some(&index_map_pairs(*m)[i].1),
            None => r is None,
        },
{
    m.get(key)
}

/// `IndexMap::get_index`: the value of the pair at position `n`, if the map
/// has that many pairs.
#[verifier::external_body]
fn map_get_index<'a>(m: &'a IndexMap<String, Entry>, n: usize) -> (r: Option<&'a Entry>)
    ensures
        n < index_map_pairs(*m).len() ==> r == Some(&index_map_pairs(*m)[n as int].1),
        n >= index_map_pairs(*m).len() ==> r is None,
{
    m.get_index(n).map(|(_, v)| v)
}

/// `IndexMap::values`: the values of all pairs, in the order of the map.
#[verifier::external_body]
fn map_values<'a>(m: &'a IndexMap<String, Entry>) -> (r: Vec<&'a Entry>)
    ensures
        r@.len() == index_map_pairs(*m).len(),
        forall|i: int| 0 <= i < r@.len() ==> *r@[i] == index_map_pairs(*m)[i].1,
{
    m.values().collect()
}

/// `IndexMap::keys`: the keys of all pairs, in the order of the map.
#[verifier::external_body]
fn map_keys<'a>(m: &'a IndexMap<String, Entry>) -> (r: Vec<&'a String>)
    ensures
        r@.len() == index_map_pairs(*m).len(),
        forall|i: int| 0 <= i < r@.len() ==> *r@[i] == index_map_pairs(*m)[i].0,
{
    m.keys().collect()
}

/// `IndexMap::shift_remove`: where a pair with an equal key exists, it leaves
/// the map, the pairs after it move up by one place in their order, and its
/// value is handed back; otherwise nothing changes.
#[verifier::external_body]
fn map_shift_remove(m: &mut IndexMap<String, Entry>, key: &str) -> (r: Option<Entry>)
    ensures
        match key_position(index_map_pairs(*old(m)), key@) {
            Some(i) => {
                &&& r == Some(index_map_pairs(*old(m))[i].1)
                &&& index_map_pairs(*final(m)) == index_map_pairs(*old(m)).remove(i)
            },
            None => r is None && index_map_pairs(*final(m)) == index_map_pairs(*old(m)),
        },
{
    m.shift_remove(key)
}

/// `IndexMap::into_iter`: the values of all pairs, in the order of the map.
#[verifier::external_body]
fn map_into_values(m: IndexMap<String, Entry>) -> (r: Vec<Entry>)
    ensures
        r@.len() == index_map_pairs(m).len(),
        forall|i: int| 0 <= i < r@.len() ==> r@[i] == index_map_pairs(m)[i].1,
{
    m.into_iter().map(|(_, v)| v).collect()
}

/// The position of the entry with the given key.
pub open spec fn position(entries: Seq<EntryView>, key: Seq<char>) -> Option<int>
    decreases entries.len(),
{
    if entries.len() == 0 {
        None
    } else if position(entries.drop_last(), key) is Some {
        position(entries.drop_last(), key)
    } else if entries.last().key == key {
        Some(entries.len() - 1)
    } else {
        None
    }
}

/// Whether no two entries have the same key.
pub open spec fn distinct_keys(entries: Seq<EntryView>) -> bool {
    forall|i: int, j: int|
        0 <= i < entries.len() && 0 <= j < entries.len() && i != j ==> (#[trigger] entries[i]).key
            != (#[trigger] entries[j]).key
}

/// The position that is found for a key is the position of an entry with
/// that key, and a key for which none is found is the key of no entry.
pub proof fn lemma_position(entries: Seq<EntryView>, key: Seq<char>)
    ensures
        match position(entries, key) {
            Some(i) => 0 <= i < entries.len() && entries[i].key == key,
            None => forall|j: int| 0 <= j < entries.len() ==> (#[trigger] entries[j]).key != key,
        },
    decreases entries.len(),
{
    if entries.len() > 0 {
        lemma_position(entries.drop_last(), key);
        if position(entries.drop_last(), key) is None {
            assert forall|j: int| 0 <= j < entries.len() - 1 implies (#[trigger] entries[j]).key
                != key by {
                assert(entries.drop_last()[j] == entries[j]);
            }
        }
    }
}

/// Among distinct keys, the position found for the key of an entry is the
/// position of that entry.
pub proof fn lemma_position_of(entries: Seq<EntryView>, i: int)
    requires
        distinct_keys(entries),
        0 <= i < entries.len(),
    ensures
        position(entries, entries[i].key) == Some(i),
{
    lemma_position(entries, entries[i].key);
}

/// Whether the key at `j` repeats an earlier key.
pub open spec fn repeats(keys: Seq<Seq<char>>, j: int) -> bool {
    exists|i: int| 0 <= i < j && #[trigger] keys[i] == keys[j]
}

/// The first position among the first `n` keys whose key repeats an earlier
/// one.
pub open spec fn first_repeat(keys: Seq<Seq<char>>, n: int) -> Option<int>
    decreases n,
{
    if n <= 0 || n > keys.len() {
        None
    } else if first_repeat(keys, n - 1) is Some {
        first_repeat(keys, n - 1)
    } else if repeats(keys, n - 1) {
        Some(n - 1)
    } else {
        None
    }
}

/// A first repeat stays the first repeat when more keys follow.
pub proof fn lemma_first_repeat_stays(keys: Seq<Seq<char>>, n: int, m: int)
    requires
        0 <= n <= m <= keys.len(),
        first_repeat(keys, n) is Some,
    ensures
        first_repeat(keys, m) == first_repeat(keys, n),
    decreases m,
{
    if n < m {
        lemma_first_repeat_stays(keys, n, m - 1);
    }
}

/// The keys of a sequence of entries.
pub open spec fn keys_of(entries: Seq<EntryView>) -> Seq<Seq<char>> {
    entries.map_values(|e: EntryView| e.key)
}

/// A first repeat among the keys is a key that occurs twice, and keys among
/// which there is none are all different.
pub proof fn lemma_first_repeat(keys: Seq<Seq<char>>, n: int)
    requires
        0 <= n <= keys.len(),
    ensures
        first_repeat(keys, n) is None <==> keys.subrange(0, n).no_duplicates(),
        first_repeat(keys, n) is Some ==> 0 <= first_repeat(keys, n)->0 < n && repeats(
            keys,
            first_repeat(keys, n)->0,
        ),
    decreases n,
{
    let part = keys.subrange(0, n);
    if n > 0 {
        lemma_first_repeat(keys, n - 1);
        let front = keys.subrange(0, n - 1);
        if first_repeat(keys, n) is None {
            assert forall|i: int, j: int|
                0 <= i < part.len() && 0 <= j < part.len() && i != j implies part[i] != part[j] by {
                if i < n - 1 && j < n - 1 {
                    assert(front[i] == part[i] && front[j] == part[j]);
                } else if i < n - 1 {
                    assert(keys[i] != keys[n - 1]);
                } else {
                    assert(keys[j] != keys[n - 1]);
                }
            }
        } else if first_repeat(keys, n - 1) is Some {
            if part.no_duplicates() {
                assert forall|i: int, j: int|
                    0 <= i < front.len() && 0 <= j < front.len() && i != j implies front[i]
                    != front[j] by {
                    assert(front[i] == part[i] && front[j] == part[j]);
                }
            }
        } else {
            let i = choose|i: int| 0 <= i < n - 1 && #[trigger] keys[i] == keys[n - 1];
            assert(part[i] == part[n - 1]);
        }
    }
}

/// Entries have distinct keys exactly where their keys are all different.
pub proof fn lemma_distinct_keys(entries: Seq<EntryView>)
    ensures
        distinct_keys(entries) <==> keys_of(entries).no_duplicates(),
{
    let keys = keys_of(entries);
    if distinct_keys(entries) {
        assert forall|i: int, j: int|
            0 <= i < keys.len() && 0 <= j < keys.len() && i != j implies keys[i] != keys[j] by {
            assert(entries[i].key != entries[j].key);
        }
    }
    if keys.no_duplicates() {
        assert forall|i: int, j: int|
            0 <= i < entries.len() && 0 <= j < entries.len() && i != j implies (
        #[trigger] entries[i]).key != (#[trigger] entries[j]).key by {
            assert(keys[i] != keys[j]);
        }
    }
}

/// The entries of the pairs, as mathematical values.
spec fn held(pairs: Seq<(String, Entry)>) -> Seq<EntryView> {
    Seq::new(pairs.len(), |i: int| pairs[i].1@)
}

/// Whether every pair is filed under the key of its entry.
spec fn filed(pairs: Seq<(String, Entry)>) -> bool {
    forall|i: int| 0 <= i < pairs.len() ==> (#[trigger] pairs[i]).0@ == pairs[i].1.key@
}

proof fn lemma_key_position(pairs: Seq<(String, Entry)>, key: Seq<char>)
    requires
        filed(pairs),
    ensures
        key_position(pairs, key) == position(held(pairs), key),
    decreases pairs.len(),
{
    if pairs.len() > 0 {
        let front = pairs.drop_last();
        assert forall|i: int| 0 <= i < front.len() implies (#[trigger] front[i]).0@
            == front[i].1.key@ by {
            assert(front[i] == pairs[i]);
        }
        lemma_key_position(front, key);
        assert(held(front) =~= held(pairs).drop_last());
        assert(held(pairs).last().key == pairs.last().0@);
    }
}

/// A collection of bibliographic entries: the entries in the order in which
/// they were added, no two of them with the same key.
#[derive(Debug)]
pub struct Library(IndexMap<String, Entry>);

impl View for Library {
    type V = Seq<EntryView>;

    closed spec fn view(&self) -> Seq<EntryView> {
        held(index_map_pairs(self.0))
    }
}

/// Whether two libraries are equal: they hold as many entries, and each key
/// of the first leads to an equal entry in the second. The order of the
/// entries plays no part.
pub open spec fn same_entries(a: Seq<EntryView>, b: Seq<EntryView>) -> bool {
    &&& a.len() == b.len()
    &&& forall|i: int|
        0 <= i < a.len() ==> match position(b, (#[trigger] a[i]).key) {
            Some(j) => alike(a[i], b[j]),
            None => false,
        }
}

impl PartialEq for Library {
    fn eq(&self, other: &Library) -> (r: bool) {
        self.same(other)
    }
}

impl vstd::std_specs::cmp::PartialEqSpecImpl for Library {
    open spec fn obeys_eq_spec() -> bool {
        true
    }

    open spec fn eq_spec(&self, other: &Library) -> bool {
        same_entries(self@, other@)
    }
}

impl Default for Library {
    fn default() -> (r: Library)
        ensures
            r@ == Seq::<EntryView>::empty(),
    {
        Library::new()
    }
}

impl Clone for Library {
    fn clone(&self) -> (r: Library)
        ensures
            r@ == self@,
    {
        let entries = self.iter();
        let mut copy = Library::new();
        let mut i: usize = 0;
        while i < entries.len()
            invariant
                i <= entries.len(),
                entries@.len() == self@.len(),
                forall|j: int| 0 <= j < entries@.len() ==> entries@[j]@ == self@[j],
                distinct_keys(self@),
                copy@ == self@.subrange(0, i as int),
            decreases entries.len() - i,
        {
            proof {
                lemma_position(copy@, entries@[i as int]@.key);
                if position(copy@, entries@[i as int]@.key) is Some {
                    let k = position(copy@, entries@[i as int]@.key)->0;
                    assert(copy@[k] == self@[k]);
                    assert(self@[k].key == self@[i as int].key);
                }
            }
            let _ = copy.push(entries[i]);
            assert(copy@ =~= self@.subrange(0, i as int + 1));
            i += 1;
        }
        assert(self@.subrange(0, i as int) =~= self@);
        copy
    }
}

impl Library {
    #[verifier::type_invariant]
    spec fn well_formed(self) -> bool {
        filed(index_map_pairs(self.0)) && distinct_keys(held(index_map_pairs(self.0)))
    }

    /// Takes the map out of the library and leaves an empty one.
    fn take(&mut self) -> (map: IndexMap<String, Entry>)
        ensures
            index_map_pairs(map) == index_map_pairs(old(self).0),
    {
        let mut taken = Library(map_new());
        core::mem::swap(self, &mut taken);
        taken.0
    }

    /// Constructs a new, empty library.
    pub fn new() -> (r: Library)
        ensures
            r@ == Seq::<EntryView>::empty(),
    {
        let r = Library(map_new());
        assert(r@ =~= Seq::<EntryView>::empty());
        r
    }

    /// Adds a copy of an entry to the library. Where the library has an
    /// entry of the same key, that entry is replaced in its place and handed
    /// back; otherwise the entry becomes the last.
    pub fn push(&mut self, entry: &Entry) -> (r: Option<Entry>)
        ensures
            match position(old(self)@, entry@.key) {
                Some(i) => final(self)@ == old(self)@.update(i, entry@) && r is Some && r->0@
                    == old(self)@[i],
                None => final(self)@ == old(self)@.push(entry@) && r is None,
            },
            distinct_keys(final(self)@),
    {
        proof {
            use_type_invariant(&*self);
            lemma_key_position(index_map_pairs(self.0), entry@.key);
            lemma_position(self@, entry@.key);
        }
        let ghost before = index_map_pairs(self.0);
        let key = entry.key.clone();
        let copy = entry.clone();
        let mut map = self.take();
        let replaced = map_insert(&mut map, key, copy);
        proof {
            let after = index_map_pairs(map);
            match position(held(before), entry@.key) {
                Some(i) => {
                    assert(held(after) =~= held(before).update(i, entry@));
                },
                None => {
                    assert(held(after) =~= held(before).push(entry@));
                },
            }
        }
        *self = Library(map);
        replaced
    }

    /// Whether the library is equal to another: both hold as many entries,
    /// and each key of this one leads to an equal entry in the other.
    pub fn same(&self, other: &Library) -> (r: bool)
        ensures
            r == same_entries(self@, other@),
    {
        if self.len() != other.len() {
            return false;
        }
        let entries = self.iter();
        let mut i: usize = 0;
        while i < entries.len()
            invariant
                i <= entries.len(),
                entries@.len() == self@.len(),
                self@.len() == other@.len(),
                forall|j: int| 0 <= j < entries@.len() ==> entries@[j]@ == self@[j],
                forall|j: int|
                    0 <= j < i ==> match position(other@, (#[trigger] self@[j]).key) {
                        Some(k) => alike(self@[j], other@[k]),
                        None => false,
                    },
            decreases entries.len() - i,
        {
            let entry = entries[i];
            assert(entry@ == self@[i as int]);
            match other.get(entry.key()) {
                Some(found) => {
                    if !entry.same(found) {
                        return false;
                    }
                },
                None => {
                    return false;
                },
            }
            i += 1;
        }
        true
    }

    /// The entry of the given key, if the library has one.
    pub fn get(&self, key: &str) -> (r: Option<&Entry>)
        ensures
            match position(self@, key@) {
                Some(i) => r is Some && r->0@ == self@[i],
                None => r is None,
            },
    {
        proof {
            use_type_invariant(self);
            lemma_key_position(index_map_pairs(self.0), key@);
            lemma_position(self@, key@);
        }
        map_get(&self.0, key)
    }

    /// The entries of the library, in order.
    pub fn iter(&self) -> (r: Vec<&Entry>)
        ensures
            r@.len() == self@.len(),
            forall|i: int| 0 <= i < r@.len() ==> r@[i]@ == self@[i],
            distinct_keys(self@),
    {
        proof {
            use_type_invariant(self);
        }
        map_values(&self.0)
    }

    /// The keys of the library, in order; no two of them are the same.
    pub fn keys(&self) -> (r: Vec<&str>)
        ensures
            r@.len() == self@.len(),
            forall|i: int| 0 <= i < r@.len() ==> r@[i]@ == self@[i].key,
            distinct_keys(self@),
    {
        proof {
            use_type_invariant(self);
        }
        let held_keys = map_keys(&self.0);
        let mut r: Vec<&str> = Vec::new();
        let mut i: usize = 0;
        while i < held_keys.len()
            invariant
                i <= held_keys.len(),
                r@.len() == i,
                forall|j: int| 0 <= j < i ==> r@[j]@ == held_keys@[j]@,
            decreases held_keys.len() - i,
        {
            r.push(held_keys[i].as_str());
            i += 1;
        }
        r
    }

    /// Removes the entry of the given key and returns it. The other entries
    /// keep their order.
    pub fn remove(&mut self, key: &str) -> (r: Option<Entry>)
        ensures
            match position(old(self)@, key@) {
                Some(i) => r is Some && r->0@ == old(self)@[i] && final(self)@ == old(
                    self,
                )@.remove(i),
                None => r is None && final(self)@ == old(self)@,
            },
            distinct_keys(final(self)@),
    {
        proof {
            use_type_invariant(&*self);
            lemma_key_position(index_map_pairs(self.0), key@);
            lemma_position(self@, key@);
        }
        let ghost before = index_map_pairs(self.0);
        let mut map = self.take();
        let r = map_shift_remove(&mut map, key);
        proof {
            let after = index_map_pairs(map);
            match position(held(before), key@) {
                Some(i) => {
                    assert(held(after) =~= held(before).remove(i));
                    assert forall|a: int, b: int|
                        0 <= a < held(after).len() && 0 <= b < held(after).len() && a
                            != b implies (#[trigger] held(after)[a]).key != (
                    #[trigger] held(after)[b]).key by {
                        let x = if a < i { a } else { a + 1 };
                        let y = if b < i { b } else { b + 1 };
                        assert(held(after)[a] == held(before)[x]);
                        assert(held(after)[b] == held(before)[y]);
                    }
                    assert forall|a: int| 0 <= a < after.len() implies (#[trigger] after[a]).0@
                        == after[a].1.key@ by {
                        let x = if a < i { a } else { a + 1 };
                        assert(after[a] == before[x]);
                    }
                },
                None => {},
            }
        }
        *self = Library(map);
        r
    }

    /// The number of entries.
    pub fn len(&self) -> (n: usize)
        ensures
            n == self@.len(),
    {
        map_len(&self.0)
    }

    /// Whether the library has no entry.
    pub fn is_empty(&self) -> (r: bool)
        ensures
            r == (self@.len() == 0),
    {
        map_is_empty(&self.0)
    }

    /// The entry at position `n`, if the library has that many.
    pub fn nth(&self, n: usize) -> (r: Option<&Entry>)
        ensures
            n < self@.len() ==> r is Some && r->0@ == self@[n as int],
            n >= self@.len() ==> r is None,
    {
        map_get_index(&self.0, n)
    }

    /// Makes a library of the entries, in their order, unless a key occurs
    /// twice: then the position of the first entry whose key repeats an
    /// earlier one is returned.
    pub fn from_entries(entries: Vec<Entry>) -> (r: Result<Library, usize>)
        ensures
            match first_repeat(keys_of(entries_view(entries@)), entries@.len() as int) {
                Some(j) => r == Err::<Library, usize>(j as usize),
                None => r is Ok && r->Ok_0@ == entries_view(entries@),
            },
    {
        let ghost all = entries@;
        let ghost views = entries_view(all);
        let ghost keys = keys_of(views);
        let mut map = map_new();
        let mut n: usize = 0;
        assert(all.len() == entries.len());
        for entry in it: entries
            invariant
                it.seq() == all,
                all == entries@,
                all.len() <= usize::MAX,
                views == entries_view(all),
                keys == keys_of(views),
                n == it.index(),
                first_repeat(keys, n as int) is None,
                filed(index_map_pairs(map)),
                held(index_map_pairs(map)) == views.subrange(0, n as int),
        {
            proof {
                lemma_key_position(index_map_pairs(map), entry@.key);
                lemma_position(views.subrange(0, n as int), entry@.key);
                assert(views[n as int] == entry@);
                assert(keys[n as int] == entry@.key);
            }
            let ghost before = index_map_pairs(map);
            if map_get(&map, entry.key.as_str()).is_some() {
                proof {
                    let i = position(views.subrange(0, n as int), entry@.key)->0;
                    assert(views.subrange(0, n as int)[i] == views[i]);
                    assert(keys[i] == keys[n as int]);
                    assert(repeats(keys, n as int));
                    lemma_first_repeat_stays(keys, n as int + 1, keys.len() as int);
                }
                return Err(n);
            }
            proof {
                if repeats(keys, n as int) {
                    let i = choose|i: int| 0 <= i < n && #[trigger] keys[i] == keys[n as int];
                    assert(views.subrange(0, n as int)[i].key == keys[i]);
                }
            }
            let key = entry.key.clone();
            let _ = map_insert(&mut map, key, entry);
            proof {
                assert(held(index_map_pairs(map)) =~= views.subrange(0, n as int + 1));
            }
            n += 1;
        }
        proof {
            assert(views.subrange(0, n as int) =~= views);
            assert(keys.subrange(0, n as int) =~= keys);
            lemma_first_repeat(keys, n as int);
            lemma_distinct_keys(views);
        }
        Ok(Library(map))
    }

    /// The entries of the library, in order.
    pub fn into_entries(self) -> (r: Vec<Entry>)
        ensures
            r@.len() == self@.len(),
            forall|i: int| 0 <= i < r@.len() ==> r@[i]@ == self@[i],
    {
        map_into_values(self.0)
    }
}

} // verus!
