//! The selector language: expressions that match entries by kind, fields and
//! parents, and capture the entries they matched under names.

pub mod ast;
pub mod bindings;
pub mod cache;
pub mod eval;
pub mod grammar;
pub mod laws;
pub mod names;
pub mod parser;
pub mod reading;
pub mod semantics;
pub mod size;
pub mod texts;

use crate::entry::Entry;
use crate::selector::ast::{Ast, Expr, MAX_NODES};
use crate::selector::bindings::Bindings;
use crate::selector::grammar::{parse_text, SelectorError};
use crate::selector::names::lemma_accepted_has_distinct_names;
use crate::selector::parser::parse_expr;
use crate::selector::semantics::{applied, selects};
use crate::selector::size::lemma_accepted_is_small;
use crate::text::{same_text, texts};
use vstd::prelude::*;

verus! {

/// A selector: an expression of bounded size in which no capture name is
/// used twice.
#[derive(Debug, PartialEq, Eq)]
pub struct Selector {
    root: Expr,
}

/// Appends the capture names of `e`, in the order in which they are written.
fn collect_names(e: &Expr, out: &mut Vec<String>)
    ensures
        texts(final(out)@) == texts(old(out)@) + e@.captures(),
    decreases e,
{
    let ghost before = texts(out@);
    match e {
        Expr::Type(_) => {
            assert(before + e@.captures() =~= before);
        },
        Expr::Wildcard => {
            assert(before + e@.captures() =~= before);
        },
        Expr::Not(a) => {
            collect_names(a, out);
        },
        Expr::And(a, b) => {
            collect_names(a, out);
            collect_names(b, out);
            assert(before + a@.captures() + b@.captures() =~= before + e@.captures());
        },
        Expr::Or(a, b) => {
            collect_names(a, out);
            collect_names(b, out);
            assert(before + a@.captures() + b@.captures() =~= before + e@.captures());
        },
        Expr::Parent(a, b) => {
            collect_names(a, out);
            collect_names(b, out);
            assert(before + a@.captures() + b@.captures() =~= before + e@.captures());
        },
        Expr::AttrFilter(a, _) => {
            collect_names(a, out);
        },
        Expr::Capture(n, a) => {
            out.push(n.clone());
            assert(texts(out@) =~= before.push(n@));
            collect_names(a, out);
            assert(before.push(n@) + a@.captures() =~= before + e@.captures());
        },
    }
}

/// Takes the expressions that `e` is made of from a budget: what is left of
/// the budget, or nothing where the budget does not suffice.
fn count_nodes(e: &Expr, budget: usize) -> (r: Option<usize>)
    ensures
        match r {
            Some(left) => e@.nodes() + left == budget,
            None => e@.nodes() > budget,
        },
    decreases e,
{
    if budget == 0 {
        return None;
    }
    let budget = budget - 1;
    match e {
        Expr::Type(_) => Some(budget),
        Expr::Wildcard => Some(budget),
        Expr::Not(a) => count_nodes(a, budget),
        Expr::And(a, b) => match count_nodes(a, budget) {
            Some(left) => count_nodes(b, left),
            None => None,
        },
        Expr::Or(a, b) => match count_nodes(a, budget) {
            Some(left) => count_nodes(b, left),
            None => None,
        },
        Expr::Parent(a, b) => match count_nodes(a, budget) {
            Some(left) => count_nodes(b, left),
            None => None,
        },
        Expr::AttrFilter(a, _) => count_nodes(a, budget),
        Expr::Capture(_, a) => count_nodes(a, budget),
    }
}

/// Whether no text occurs twice in `names`.
fn all_distinct(names: &Vec<String>) -> (r: bool)
    ensures
        r == texts(names@).no_duplicates(),
{
    let ghost t = texts(names@);
    let mut i: usize = 0;
    while i < names.len()
        invariant
            i <= names.len(),
            t == texts(names@),
            forall|a: int, b: int| 0 <= a < i && 0 <= b < t.len() && a != b ==> t[a] != t[b],
        decreases names.len() - i,
    {
        let mut j: usize = 0;
        while j < names.len()
            invariant
                i < names.len(),
                j <= names.len(),
                t == texts(names@),
                forall|b: int| 0 <= b < j && b != i ==> t[i as int] != t[b],
            decreases names.len() - j,
        {
            if j != i && same_text(names[i].as_str(), names[j].as_str()) {
                assert(t[i as int] == t[j as int]);
                return false;
            }
            j += 1;
        }
        i += 1;
    }
    true
}

impl View for Selector {
    type V = Ast;

    closed spec fn view(&self) -> Ast {
        self.root@
    }
}

impl Clone for Selector {
    fn clone(&self) -> (r: Self)
        ensures
            r@ == self@,
    {
        proof {
            use_type_invariant(self);
        }
        Selector { root: self.root.clone() }
    }
}

impl Selector {
    #[verifier::type_invariant]
    spec fn well_formed(self) -> bool {
        self.root@.well_formed()
    }

    /// Parses a selector text. The text is accepted where the grammar gives
    /// it an expression and refused, with the place of the first fault, where
    /// it does not.
    pub fn parse(text: &str) -> (r: Result<Selector, SelectorError>)
        ensures
            match r {
                Ok(s) => parse_text(text@) == Ok::<Ast, SelectorError>(s@) && s@.well_formed(),
                Err(e) => parse_text(text@) == Err::<Ast, SelectorError>(e),
            },
    {
        proof {
            lemma_accepted_has_distinct_names(text@);
            lemma_accepted_is_small(text@);
        }
        match parse_expr(text) {
            Ok(root) => Ok(Selector { root }),
            Err(e) => Err(e),
        }
    }

    /// Makes a selector of an expression, unless the expression uses a
    /// capture name twice or is made of more than [`MAX_NODES`] expressions.
    pub fn new(root: Expr) -> (r: Option<Selector>)
        ensures
            r is Some == root@.well_formed(),
            r is Some ==> r->0@ == root@,
    {
        if count_nodes(&root, MAX_NODES).is_none() {
            return None;
        }
        let mut names: Vec<String> = Vec::new();
        assert(texts(names@) =~= Seq::<Seq<char>>::empty());
        collect_names(&root, &mut names);
        assert(texts(names@) =~= root@.captures());
        if all_distinct(&names) {
            Some(Selector { root })
        } else {
            None
        }
    }

    /// The expression of the selector.
    pub fn expr(&self) -> (r: &Expr)
        ensures
            r@ == self@,
            r@.well_formed(),
    {
        proof {
            use_type_invariant(self);
        }
        &self.root
    }

    /// Whether the selector matches `entry`.
    pub fn matches(&self, entry: &Entry) -> (r: bool)
        ensures
            r == selects(self@, entry@),
    {
        self.root.test(entry)
    }

    /// Applies the selector to `entry`: the captures of the match exactly
    /// where the selector matches, nothing where it does not. The captures
    /// are made for this call and borrow from `entry` alone.
    pub fn apply<'a>(&self, entry: &'a Entry) -> (r: Option<Bindings<'a>>)
        ensures
            r is Some == selects(self@, entry@),
            match r {
                Some(found) => applied(self@, entry@) == Some(found@),
                None => applied(self@, entry@) is None,
            },
    {
        self.root.apply(entry)
    }
}

} // verus!
