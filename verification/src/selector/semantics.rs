//! What it means for a selector expression to match an entry, and which
//! entries a successful match records.

use crate::entry::EntryView;
use crate::selector::ast::Ast;
use vstd::prelude::*;

verus! {

/// Whether the expression matches the candidate entry.
///
/// A kind matches the entries of that kind and the wildcard every entry. A
/// negation matches where its inner expression fails, a conjunction where
/// both sides match, an alternation where one side does. A filter asks that
/// the candidate expose a non-empty value for the field, a capture nothing
/// beyond its inner expression. A parent relation asks that its left side
/// match the candidate and that the parents of the candidate satisfy its
/// right side.
pub open spec fn selects(n: Ast, c: EntryView) -> bool
    decreases n, 0nat,
{
    match n {
        Ast::Type(t) => c.entry_type == t,
        Ast::Wildcard => true,
        Ast::Not(a) => !selects(*a, c),
        Ast::And(a, b) => selects(*a, c) && selects(*b, c),
        Ast::Or(a, b) => selects(*a, c) || selects(*b, c),
        Ast::Parent(a, b) => selects(*a, c) && selects_any(*b, c.parents),
        Ast::AttrFilter(a, f) => c.has(f) && selects(*a, c),
        Ast::Capture(_, a) => selects(*a, c),
    }
}

/// Whether the expression, standing to the right of a parent relation, is
/// satisfied by the parents `ps`.
///
/// The branches of a conjunction or an alternation are each satisfied on
/// their own, possibly by different parents. Any other expression is
/// satisfied when it matches at least one parent: a negation, when there is
/// a parent that its inner expression does not match, and a parent relation,
/// when one parent matches its left side and has parents that satisfy its
/// right side.
pub open spec fn selects_any(n: Ast, ps: Seq<EntryView>) -> bool
    decreases n, 1nat,
{
    match n {
        Ast::And(a, b) => selects_any(*a, ps) && selects_any(*b, ps),
        Ast::Or(a, b) => selects_any(*a, ps) || selects_any(*b, ps),
        _ => exists|i: int| 0 <= i < ps.len() && selects(n, #[trigger] ps[i]),
    }
}

/// Whether `i` is the position of the first of `ps` that the expression
/// matches.
pub open spec fn is_first_match(n: Ast, ps: Seq<EntryView>, i: int) -> bool {
    &&& 0 <= i < ps.len()
    &&& selects(n, ps[i])
    &&& forall|j: int| 0 <= j < i ==> !selects(n, #[trigger] ps[j])
}

/// The position of the first of `ps` that the expression matches.
pub open spec fn first_match(n: Ast, ps: Seq<EntryView>) -> int {
    choose|i: int| is_first_match(n, ps, i)
}

/// The captures of a successful match of the expression against the
/// candidate: each capture name with the entry it recorded.
///
/// An alternation records what its first matching branch records; what a
/// negation matched inside is not recorded. Meaningful only where
/// [`selects`] holds.
pub open spec fn bindings(n: Ast, c: EntryView) -> Map<Seq<char>, EntryView>
    decreases n, 0nat,
{
    match n {
        Ast::Type(_) => Map::empty(),
        Ast::Wildcard => Map::empty(),
        Ast::Not(_) => Map::empty(),
        Ast::And(a, b) => bindings(*a, c).union_prefer_right(bindings(*b, c)),
        Ast::Or(a, b) => if selects(*a, c) {
            bindings(*a, c)
        } else {
            bindings(*b, c)
        },
        Ast::Parent(a, b) => bindings(*a, c).union_prefer_right(bindings_any(*b, c.parents)),
        Ast::AttrFilter(a, _) => bindings(*a, c),
        Ast::Capture(name, a) => bindings(*a, c).insert(name, c),
    }
}

/// The captures of a successful match of the expression against the parents
/// `ps`: an expression that is matched against single parents records what
/// it records on the first parent, in declared order, that it matches.
/// Meaningful only where [`selects_any`] holds.
pub open spec fn bindings_any(n: Ast, ps: Seq<EntryView>) -> Map<Seq<char>, EntryView>
    decreases n, 1nat,
{
    match n {
        Ast::And(a, b) => bindings_any(*a, ps).union_prefer_right(bindings_any(*b, ps)),
        Ast::Or(a, b) => if selects_any(*a, ps) {
            bindings_any(*a, ps)
        } else {
            bindings_any(*b, ps)
        },
        _ => bindings(n, ps[first_match(n, ps)]),
    }
}

/// The result of applying the expression to a candidate: its captures where
/// it matches, nothing where it does not.
pub open spec fn applied(n: Ast, c: EntryView) -> Option<Map<Seq<char>, EntryView>> {
    if selects(n, c) {
        Some(bindings(n, c))
    } else {
        None
    }
}

/// The result of applying the expression to the parents `ps`.
pub open spec fn applied_any(n: Ast, ps: Seq<EntryView>) -> Option<Map<Seq<char>, EntryView>> {
    if selects_any(n, ps) {
        Some(bindings_any(n, ps))
    } else {
        None
    }
}

} // verus!
