//! Evaluation of selector expressions against entries.

use crate::entry::{entries_view, Entry, EntryView};
use crate::selector::ast::{Ast, Expr};
use crate::selector::bindings::Bindings;
use crate::selector::semantics::{
    bindings, bindings_any, first_match, is_first_match, selects, selects_any,
};
use vstd::prelude::*;

verus! {

/// An expression has at most one first match among `ps`.
pub proof fn lemma_first_match_is(n: Ast, ps: Seq<EntryView>, i: int)
    requires
        is_first_match(n, ps, i),
    ensures
        first_match(n, ps) == i,
{
    let k = first_match(n, ps);
    assert(is_first_match(n, ps, k));
    if k < i {
        assert(!selects(n, ps[k]));
    } else if i < k {
        assert(!selects(n, ps[i]));
    }
}

impl Expr {
    /// Whether the expression matches `entry`.
    pub fn test(&self, entry: &Entry) -> (r: bool)
        ensures
            r == selects(self@, entry@),
        decreases self, 0nat,
    {
        match self {
            Expr::Type(t) => entry.entry_type == *t,
            Expr::Wildcard => true,
            Expr::Not(a) => !a.test(entry),
            Expr::And(a, b) => a.test(entry) && b.test(entry),
            Expr::Or(a, b) => a.test(entry) || b.test(entry),
            Expr::Parent(a, b) => a.test(entry) && b.test_any(entry.parents()),
            Expr::AttrFilter(a, f) => entry.has(f.as_str()) && a.test(entry),
            Expr::Capture(_, a) => a.test(entry),
        }
    }

    /// Whether the expression, standing to the right of a parent relation, is
    /// satisfied by the parents `ps`.
    pub fn test_any(&self, ps: &Vec<Entry>) -> (r: bool)
        ensures
            r == selects_any(self@, entries_view(ps@)),
        decreases self, 1nat,
    {
        match self {
            Expr::And(a, b) => a.test_any(ps) && b.test_any(ps),
            Expr::Or(a, b) => a.test_any(ps) || b.test_any(ps),
            _ => {
                let ghost views = entries_view(ps@);
                let mut i: usize = 0;
                while i < ps.len()
                    invariant
                        i <= ps.len(),
                        views == entries_view(ps@),
                        self@ !is And,
                        self@ !is Or,
                        forall|j: int| 0 <= j < i ==> !selects(self@, #[trigger] views[j]),
                    decreases ps.len() - i,
                {
                    if self.test(&ps[i]) {
                        assert(selects(self@, views[i as int]));
                        return true;
                    }
                    i += 1;
                }
                false
            },
        }
    }

    /// Applies the expression to `entry`: the captures of the match where the
    /// expression matches, nothing where it does not.
    pub fn apply<'a>(&self, entry: &'a Entry) -> (r: Option<Bindings<'a>>)
        ensures
            r is Some == selects(self@, entry@),
            r is Some ==> r->0@ == bindings(self@, entry@),
        decreases self, 0nat,
    {
        match self {
            Expr::Type(t) => {
                if entry.entry_type == *t {
                    Some(Bindings::new())
                } else {
                    None
                }
            },
            Expr::Wildcard => Some(Bindings::new()),
            Expr::Not(a) => {
                if a.test(entry) {
                    None
                } else {
                    Some(Bindings::new())
                }
            },
            Expr::And(a, b) => {
                match a.apply(entry) {
                    Some(mut found) => match b.apply(entry) {
                        Some(more) => {
                            found.absorb(more);
                            Some(found)
                        },
                        None => None,
                    },
                    None => None,
                }
            },
            Expr::Or(a, b) => {
                match a.apply(entry) {
                    Some(found) => Some(found),
                    None => b.apply(entry),
                }
            },
            Expr::Parent(a, b) => {
                match a.apply(entry) {
                    Some(mut found) => match b.apply_any(entry.parents()) {
                        Some(more) => {
                            found.absorb(more);
                            Some(found)
                        },
                        None => None,
                    },
                    None => None,
                }
            },
            Expr::AttrFilter(a, f) => {
                if entry.has(f.as_str()) {
                    a.apply(entry)
                } else {
                    None
                }
            },
            Expr::Capture(name, a) => {
                match a.apply(entry) {
                    Some(mut found) => {
                        found.bind(name.clone(), entry);
                        Some(found)
                    },
                    None => None,
                }
            },
        }
    }

    /// Applies the expression, standing to the right of a parent relation, to
    /// the parents `ps`.
    pub fn apply_any<'a>(&self, ps: &'a Vec<Entry>) -> (r: Option<Bindings<'a>>)
        ensures
            r is Some == selects_any(self@, entries_view(ps@)),
            r is Some ==> r->0@ == bindings_any(self@, entries_view(ps@)),
        decreases self, 1nat,
    {
        match self {
            Expr::And(a, b) => {
                match a.apply_any(ps) {
                    Some(mut found) => match b.apply_any(ps) {
                        Some(more) => {
                            found.absorb(more);
                            Some(found)
                        },
                        None => None,
                    },
                    None => None,
                }
            },
            Expr::Or(a, b) => {
                match a.apply_any(ps) {
                    Some(found) => Some(found),
                    None => b.apply_any(ps),
                }
            },
            _ => {
                let ghost views = entries_view(ps@);
                let mut i: usize = 0;
                while i < ps.len()
                    invariant
                        i <= ps.len(),
                        views == entries_view(ps@),
                        self@ !is And,
                        self@ !is Or,
                        forall|j: int| 0 <= j < i ==> !selects(self@, #[trigger] views[j]),
                    decreases ps.len() - i,
                {
                    let found = self.apply(&ps[i]);
                    if found.is_some() {
                        proof {
                            assert(selects(self@, views[i as int]));
                            lemma_first_match_is(self@, views, i as int);
                        }
                        return found;
                    }
                    i += 1;
                }
                None
            },
        }
    }
}

} // verus!
