//! Resolution of values across the ancestors of an entry, breadth first.

use crate::entry::Entry;
use crate::text::opt_ref;
use crate::types::{Date, QualifiedUrl};
use vstd::prelude::*;

verus! {

/// One more than the greatest height among the first `n` of `s`; zero where
/// there is none.
pub open spec fn tallest_of(s: Seq<Entry>, n: int) -> nat
    decreases s, n,
{
    if n <= 0 || n > s.len() {
        0
    } else {
        let first = tallest_of(s, n - 1);
        let last = height(s[n - 1]) + 1;
        if last > first {
            last
        } else {
            first
        }
    }
}

/// The number of generations of ancestors that an entry has.
pub open spec fn height(e: Entry) -> nat
    decreases e,
{
    tallest_of(e.parents@, e.parents@.len() as int)
}

/// The number of generations that a sequence of entries spans, themselves
/// included: zero exactly where the sequence is empty.
pub open spec fn tallest(s: Seq<Entry>) -> nat {
    tallest_of(s, s.len() as int)
}

/// The parents of the first `n` entries of a generation, in the order of the
/// generation and, for each entry, in declared order.
pub open spec fn parents_of(s: Seq<Entry>, n: int) -> Seq<Entry>
    decreases n,
{
    if n <= 0 || n > s.len() {
        Seq::empty()
    } else {
        parents_of(s, n - 1) + s[n - 1].parents@
    }
}

/// The generation after `s`: the parents of all its entries.
pub open spec fn next_generation(s: Seq<Entry>) -> Seq<Entry> {
    parents_of(s, s.len() as int)
}

/// A prefix of a concatenation spans what the same prefix of its first part
/// spans.
proof fn lemma_tallest_prefix(a: Seq<Entry>, b: Seq<Entry>, n: int)
    requires
        0 <= n <= a.len(),
    ensures
        tallest_of(a + b, n) == tallest_of(a, n),
    decreases n,
{
    if n > 0 {
        lemma_tallest_prefix(a, b, n - 1);
        assert((a + b)[n - 1] == a[n - 1]);
    }
}

/// A concatenation spans as much as the taller of its parts.
proof fn lemma_tallest_concat(a: Seq<Entry>, b: Seq<Entry>, n: int)
    requires
        0 <= n <= b.len(),
    ensures
        tallest_of(a + b, a.len() + n) == if tallest_of(b, n) > tallest(a) {
            tallest_of(b, n)
        } else {
            tallest(a)
        },
    decreases n,
{
    if n == 0 {
        lemma_tallest_prefix(a, b, a.len() as int);
    } else {
        lemma_tallest_concat(a, b, n - 1);
        assert((a + b)[a.len() + n - 1] == b[n - 1]);
    }
}

/// The parents of a generation span less than the generation does.
proof fn lemma_parents_shorter(s: Seq<Entry>, n: int)
    requires
        0 < n <= s.len(),
    ensures
        tallest(parents_of(s, n)) < tallest_of(s, n),
    decreases n,
{
    let before = parents_of(s, n - 1);
    let last = s[n - 1].parents@;
    if n > 1 {
        lemma_parents_shorter(s, n - 1);
    }
    lemma_tallest_concat(before, last, last.len() as int);
    assert(parents_of(s, n) == before + last);
    assert((before + last).len() == before.len() + last.len());
    assert(tallest(last) == height(s[n - 1]));
    assert(tallest(before) <= tallest_of(s, n - 1));
}

/// The next generation spans less than a generation that is not empty.
pub proof fn lemma_next_generation_shorter(s: Seq<Entry>)
    requires
        s.len() > 0,
    ensures
        tallest(next_generation(s)) < tallest(s),
{
    lemma_parents_shorter(s, s.len() as int);
}

/// The entries of a generation followed by those of all later generations:
/// every generation in full before the next one.
pub open spec fn breadth_first(level: Seq<Entry>) -> Seq<Entry>
    decreases tallest(level),
{
    if level.len() == 0 {
        Seq::empty()
    } else {
        proof {
            lemma_next_generation_shorter(level);
        }
        level + breadth_first(next_generation(level))
    }
}

/// The ancestors of an entry in breadth-first order: its parents in declared
/// order, then their parents, and so on.
pub open spec fn ancestors(e: Entry) -> Seq<Entry> {
    breadth_first(e.parents@)
}

/// Whether `r` is what a probe returns on the first of `order` on which it
/// returns a value, or nothing where it returns a value on none.
pub open spec fn first_found<'a, T, F: Fn(&'a Entry) -> Option<T>>(
    f: F,
    order: Seq<Entry>,
    r: Option<T>,
) -> bool {
    match r {
        Some(v) => exists|k: int|
            {
                &&& 0 <= k < order.len()
                &&& f.ensures((&#[trigger] order[k],), Some(v))
                &&& forall|j: int| 0 <= j < k ==> f.ensures((&#[trigger] order[j],), None)
            },
        None => forall|j: int| 0 <= j < order.len() ==> f.ensures((&#[trigger] order[j],), None),
    }
}

/// Whether a probe may be called on every entry of `order`.
pub open spec fn callable_on<'a, T, F: Fn(&'a Entry) -> Option<T>>(f: F, order: Seq<Entry>) -> bool {
    forall|j: int| 0 <= j < order.len() ==> f.requires((&#[trigger] order[j],))
}

/// The entries that a buffer of references points to.
pub open spec fn pointed(level: Seq<&Entry>) -> Seq<Entry> {
    level.map_values(|r: &Entry| *r)
}

/// The date of the first of `order` that has one.
pub open spec fn first_date(order: Seq<Entry>) -> Option<Date>
    decreases order.len(),
{
    if order.len() == 0 {
        None
    } else if order[0].fields.date is Some {
        order[0].fields.date
    } else {
        first_date(order.drop_first())
    }
}

/// The URL of the first of `order` that has one.
pub open spec fn first_url(order: Seq<Entry>) -> Option<QualifiedUrl>
    decreases order.len(),
{
    if order.len() == 0 {
        None
    } else if order[0].fields.url is Some {
        order[0].fields.url
    } else {
        first_url(order.drop_first())
    }
}

/// The first date of `order` is that of the entry at `k` where no entry
/// before it has one, and nothing where no entry up to `k` has one.
proof fn lemma_first_date(order: Seq<Entry>, k: int)
    requires
        0 <= k <= order.len(),
        forall|j: int| 0 <= j < k ==> (#[trigger] order[j]).fields.date is None,
        k < order.len() ==> order[k].fields.date is Some,
    ensures
        first_date(order) == if k < order.len() {
            order[k].fields.date
        } else {
            None
        },
    decreases order.len(),
{
    if order.len() > 0 && k > 0 {
        let rest = order.drop_first();
        assert forall|j: int| 0 <= j < k - 1 implies (#[trigger] rest[j]).fields.date is None by {
            assert(rest[j] == order[j + 1]);
        }
        lemma_first_date(rest, k - 1);
    }
}

/// The first URL of `order` is that of the entry at `k` where no entry
/// before it has one, and nothing where no entry up to `k` has one.
proof fn lemma_first_url(order: Seq<Entry>, k: int)
    requires
        0 <= k <= order.len(),
        forall|j: int| 0 <= j < k ==> (#[trigger] order[j]).fields.url is None,
        k < order.len() ==> order[k].fields.url is Some,
    ensures
        first_url(order) == if k < order.len() {
            order[k].fields.url
        } else {
            None
        },
    decreases order.len(),
{
    if order.len() > 0 && k > 0 {
        let rest = order.drop_first();
        assert forall|j: int| 0 <= j < k - 1 implies (#[trigger] rest[j]).fields.url is None by {
            assert(rest[j] == order[j + 1]);
        }
        lemma_first_url(rest, k - 1);
    }
}

impl Entry {
    /// Calls the probe `f` on this entry and then on its ancestors, breadth
    /// first, and returns the first value that the probe returns.
    pub fn map<'a, T, F: Fn(&'a Entry) -> Option<T>>(&'a self, f: F) -> (r: Option<T>)
        requires
            callable_on(f, seq![*self] + ancestors(*self)),
        ensures
            first_found(f, seq![*self] + ancestors(*self), r),
    {
        let ghost order = seq![*self] + ancestors(*self);
        assert(order[0] == *self);
        match f(self) {
            Some(v) => {
                assert(f.ensures((&order[0],), Some(v)));
                Some(v)
            },
            None => {
                assert forall|j: int| 0 <= j < ancestors(*self).len() implies f.requires(
                    (&#[trigger] ancestors(*self)[j],),
                ) by {
                    assert(order[j + 1] == ancestors(*self)[j]);
                }
                let r = self.map_parents(f);
                proof {
                    let rest = ancestors(*self);
                    if r is Some {
                        let v = r->0;
                        let k = choose|k: int|
                            {
                                &&& 0 <= k < rest.len()
                                &&& f.ensures((&#[trigger] rest[k],), Some(v))
                                &&& forall|j: int|
                                    0 <= j < k ==> f.ensures((&#[trigger] rest[j],), None)
                            };
                        assert(order[k + 1] == rest[k]);
                        assert forall|j: int| 0 <= j < k + 1 implies f.ensures(
                            (&#[trigger] order[j],),
                            None,
                        ) by {
                            if j > 0 {
                                assert(order[j] == rest[j - 1]);
                            }
                        }
                    } else {
                        assert forall|j: int| 0 <= j < order.len() implies f.ensures(
                            (&#[trigger] order[j],),
                            None,
                        ) by {
                            if j > 0 {
                                assert(order[j] == rest[j - 1]);
                            }
                        }
                    }
                }
                r
            },
        }
    }

    /// Calls the probe `f` on the ancestors of this entry, breadth first:
    /// the parents in declared order, then their parents, and so on. Returns
    /// the first value that the probe returns.
    pub fn map_parents<'a, T, F: Fn(&'a Entry) -> Option<T>>(&'a self, f: F) -> (r: Option<T>)
        requires
            callable_on(f, ancestors(*self)),
        ensures
            first_found(f, ancestors(*self), r),
    {
        let ghost order = ancestors(*self);
        let mut level: Vec<&'a Entry> = Vec::new();
        let mut i: usize = 0;
        while i < self.parents.len()
            invariant
                i <= self.parents.len(),
                level@.len() == i,
                forall|j: int| 0 <= j < i ==> *level@[j] == self.parents@[j],
            decreases self.parents.len() - i,
        {
            level.push(&self.parents[i]);
            i += 1;
        }
        assert(pointed(level@) =~= self.parents@);
        let ghost mut seen: Seq<Entry> = Seq::empty();
        assert(order =~= seen + breadth_first(pointed(level@)));
        while level.len() > 0
            invariant
                order == ancestors(*self),
                callable_on(f, order),
                order == seen + breadth_first(pointed(level@)),
                forall|j: int| 0 <= j < seen.len() ==> f.ensures((&#[trigger] order[j],), None),
            decreases tallest(pointed(level@)),
        {
            let ghost here = pointed(level@);
            let ghost later = breadth_first(next_generation(here));
            assert(order =~= seen + here + later);
            let mut k: usize = 0;
            while k < level.len()
                invariant
                    k <= level.len(),
                    here == pointed(level@),
                    order == ancestors(*self),
                    callable_on(f, order),
                    order == seen + here + later,
                    forall|j: int|
                        0 <= j < seen.len() + k ==> f.ensures((&#[trigger] order[j],), None),
                decreases level.len() - k,
            {
                assert(order[seen.len() + k] == *level@[k as int]);
                let found = f(level[k]);
                if found.is_some() {
                    assert(f.ensures((&order[seen.len() + k],), found));
                    return found;
                }
                k += 1;
            }
            let mut next: Vec<&'a Entry> = Vec::new();
            let mut n: usize = 0;
            while n < level.len()
                invariant
                    n <= level.len(),
                    here == pointed(level@),
                    pointed(next@) == parents_of(here, n as int),
                decreases level.len() - n,
            {
                let e: &'a Entry = level[n];
                let ghost so_far = pointed(next@);
                let mut m: usize = 0;
                while m < e.parents.len()
                    invariant
                        m <= e.parents.len(),
                        next@.len() == so_far.len() + m,
                        forall|j: int| 0 <= j < so_far.len() ==> *next@[j] == so_far[j],
                        forall|j: int| 0 <= j < m ==> *next@[so_far.len() + j] == e.parents@[j],
                    decreases e.parents.len() - m,
                {
                    next.push(&e.parents[m]);
                    m += 1;
                }
                assert(pointed(next@) =~= so_far + e.parents@);
                assert(here[n as int] == *e);
                n += 1;
            }
            proof {
                lemma_next_generation_shorter(here);
                seen = seen + here;
            }
            level = next;
        }
        assert(order =~= seen);
        None
    }

    /// The date of this entry or, where it has none, of the first of its
    /// ancestors, breadth first, that has one.
    pub fn date_any<'a>(&'a self) -> (r: Option<&'a Date>)
        ensures
            r == opt_ref(&first_date(seq![*self] + ancestors(*self))),
    {
        let ghost order = seq![*self] + ancestors(*self);
        let probe = |e: &'a Entry| -> (o: Option<&'a Date>)
            ensures
                o == opt_ref(&e.fields.date),
            { e.fields.date.as_ref() };
        let r = self.map(probe);
        proof {
            if r is Some {
                let k = choose|k: int|
                    {
                        &&& 0 <= k < order.len()
                        &&& probe.ensures((&#[trigger] order[k],), r)
                        &&& forall|j: int|
                            0 <= j < k ==> probe.ensures((&#[trigger] order[j],), None)
                    };
                lemma_first_date(order, k);
            } else {
                lemma_first_date(order, order.len() as int);
            }
        }
        r
    }

    /// The URL of this entry or, where it has none, of the first of its
    /// ancestors, breadth first, that has one.
    pub fn url_any<'a>(&'a self) -> (r: Option<&'a QualifiedUrl>)
        ensures
            r == opt_ref(&first_url(seq![*self] + ancestors(*self))),
    {
        let ghost order = seq![*self] + ancestors(*self);
        let probe = |e: &'a Entry| -> (o: Option<&'a QualifiedUrl>)
            ensures
                o == opt_ref(&e.fields.url),
            { e.fields.url.as_ref() };
        let r = self.map(probe);
        proof {
            if r is Some {
                let k = choose|k: int|
                    {
                        &&& 0 <= k < order.len()
                        &&& probe.ensures((&#[trigger] order[k],), r)
                        &&& forall|j: int|
                            0 <= j < k ==> probe.ensures((&#[trigger] order[j],), None)
                    };
                lemma_first_url(order, k);
            } else {
                lemma_first_url(order, order.len() as int);
            }
        }
        r
    }
}

} // verus!
