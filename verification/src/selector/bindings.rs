//! The captures of one successful match.

use crate::entry::{Entry, EntryView};
use crate::text::{chars_of, same_chars};
use vstd::prelude::*;

verus! {

/// The entries that a successful match recorded, by capture name. The
/// entries are borrowed from the graph that the selector was applied to.
#[derive(Debug)]
pub struct Bindings<'a> {
    pairs: Vec<(String, &'a Entry)>,
}

/// The map that a sequence of recordings builds up: a later recording of a
/// name replaces an earlier one.
pub open spec fn recorded(pairs: Seq<(String, &Entry)>) -> Map<Seq<char>, EntryView>
    decreases pairs.len(),
{
    if pairs.len() == 0 {
        Map::empty()
    } else {
        recorded(pairs.drop_last()).insert(pairs.last().0@, pairs.last().1@)
    }
}

/// A name that no recording holds is not in the map.
pub proof fn lemma_recorded_absent(pairs: Seq<(String, &Entry)>, name: Seq<char>)
    requires
        forall|j: int| 0 <= j < pairs.len() ==> (#[trigger] pairs[j]).0@ != name,
    ensures
        !recorded(pairs).contains_key(name),
    decreases pairs.len(),
{
    if pairs.len() > 0 {
        lemma_recorded_absent(pairs.drop_last(), name);
    }
}

/// The last recording of a name is the one in the map.
pub proof fn lemma_recorded_last(pairs: Seq<(String, &Entry)>, name: Seq<char>, i: int)
    requires
        0 <= i < pairs.len(),
        pairs[i].0@ == name,
        forall|j: int| i < j < pairs.len() ==> (#[trigger] pairs[j]).0@ != name,
    ensures
        recorded(pairs).contains_key(name),
        recorded(pairs)[name] == pairs[i].1@,
    decreases pairs.len(),
{
    if i < pairs.len() - 1 {
        lemma_recorded_last(pairs.drop_last(), name, i);
    }
}

/// Recording one sequence after another merges the maps, the second taking
/// precedence.
pub proof fn lemma_recorded_concat(a: Seq<(String, &Entry)>, b: Seq<(String, &Entry)>)
    ensures
        recorded(a + b) == recorded(a).union_prefer_right(recorded(b)),
    decreases b.len(),
{
    if b.len() == 0 {
        assert(a + b =~= a);
        assert(recorded(a).union_prefer_right(recorded(b)) =~= recorded(a));
    } else {
        lemma_recorded_concat(a, b.drop_last());
        assert((a + b).drop_last() =~= a + b.drop_last());
        assert((a + b).last() == b.last());
        assert(recorded(a + b) =~= recorded(a).union_prefer_right(recorded(b)));
    }
}

impl<'a> View for Bindings<'a> {
    type V = Map<Seq<char>, EntryView>;

    closed spec fn view(&self) -> Map<Seq<char>, EntryView> {
        recorded(self.pairs@)
    }
}

impl<'a> Bindings<'a> {
    /// No captures.
    pub fn new() -> (r: Bindings<'a>)
        ensures
            r@ == Map::<Seq<char>, EntryView>::empty(),
    {
        Bindings { pairs: Vec::new() }
    }

    /// Records `entry` under `name`, in place of what the name held before.
    pub fn bind(&mut self, name: String, entry: &'a Entry)
        ensures
            final(self)@ == old(self)@.insert(name@, entry@),
    {
        self.pairs.push((name, entry));
        assert(self.pairs@.drop_last() =~= old(self).pairs@);
    }

    /// Adds all captures of `other`, in place of what their names held before.
    pub fn absorb(&mut self, other: Bindings<'a>)
        ensures
            final(self)@ == old(self)@.union_prefer_right(other@),
    {
        let mut other = other;
        let ghost added = other.pairs@;
        proof {
            lemma_recorded_concat(self.pairs@, added);
        }
        self.pairs.append(&mut other.pairs);
    }

    /// Whether nothing was captured.
    pub fn is_empty(&self) -> (r: bool)
        ensures
            r == (self@ == Map::<Seq<char>, EntryView>::empty()),
    {
        let r = self.pairs.len() == 0;
        proof {
            if !r {
                assert(self@.contains_key(self.pairs@.last().0@));
            }
        }
        r
    }

    /// The entry recorded under `name`, if there is one.
    pub fn get(&self, name: &str) -> (r: Option<&'a Entry>)
        ensures
            r is Some == self@.contains_key(name@),
            r is Some ==> r->0@ == self@[name@],
    {
        let wanted = chars_of(name);
        let mut i: usize = self.pairs.len();
        while i > 0
            invariant
                i <= self.pairs.len(),
                wanted@ == name@,
                forall|j: int| i <= j < self.pairs@.len() ==> (#[trigger] self.pairs@[j]).0@ != name@,
            decreases i,
        {
            i -= 1;
            let held = chars_of(self.pairs[i].0.as_str());
            if same_chars(&held, &wanted) {
                proof {
                    lemma_recorded_last(self.pairs@, name@, i as int);
                }
                return Some(self.pairs[i].1);
            }
        }
        proof {
            lemma_recorded_absent(self.pairs@, name@);
        }
        None
    }
}

} // verus!
