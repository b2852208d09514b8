//! Laws of the selector language.

use crate::entry::EntryView;
use crate::selector::ast::Ast;
use crate::selector::grammar::{
    alternation, captured, conjunction, excess, filtered, lemma_alternation, lemma_alternatives,
    lemma_captured, lemma_conjunction, lemma_conjuncts, lemma_filtered, lemma_filters,
    lemma_negated, lemma_primary, lemma_relation, name_at, negated, operators, parse_text,
    primary, relation, spaces, Parsed, SelectorError,
};
use crate::kind::EntryType;
use crate::selector::eval::lemma_first_match_is;
use crate::selector::semantics::{
    applied, applied_any, bindings, bindings_any, first_match, is_first_match, selects,
    selects_any,
};
use vstd::prelude::*;

verus! {

/// The text `*` denotes the wildcard, and the wildcard matches every entry.
pub proof fn wildcard_matches_every_entry(e: EntryView)
    ensures
        parse_text("*"@) == Ok::<Ast, SelectorError>(Ast::Wildcard),
        selects(Ast::Wildcard, e),
{
    reveal_strlit("*");
    let s = "*"@;
    let none = Seq::<Seq<char>>::empty();
    let star = Parsed { node: Ast::Wildcard, used: 1, seen: none };
    assert(s.len() == 1 && s[0] == '*');
    assert(excess(s, 1) is None) by {
        reveal_with_fuel(operators, 2);
        reveal_with_fuel(excess, 2);
    }
    assert(spaces(s, 0) == 0 && spaces(s, 1) == 0) by {
        reveal(spaces);
    }
    assert(name_at(s, 0) is None) by {
        reveal(name_at);
    }
    lemma_primary(s, 0, none);
    assert(primary(s, 0, none) == Ok::<Parsed, SelectorError>(star));
    lemma_captured(s, 0, none);
    assert(captured(s, 0, none) == Ok::<Parsed, SelectorError>(star));
    lemma_filters(s, 1, Ast::Wildcard, none);
    lemma_filtered(s, 0, none);
    assert(filtered(s, 0, none) == Ok::<Parsed, SelectorError>(star));
    lemma_negated(s, 0, none);
    assert(negated(s, 0, none) == Ok::<Parsed, SelectorError>(star));
    lemma_conjuncts(s, 1, Ast::Wildcard, none);
    lemma_conjunction(s, 0, none);
    assert(conjunction(s, 0, none) == Ok::<Parsed, SelectorError>(star));
    lemma_alternatives(s, 1, Ast::Wildcard, none);
    lemma_alternation(s, 0, none);
    assert(alternation(s, 0, none) == Ok::<Parsed, SelectorError>(star));
    lemma_relation(s, 0, none);
    assert(relation(s, 0, none) == Ok::<Parsed, SelectorError>(star));
}

/// Applying an expression yields captures exactly where the expression
/// matches.
pub proof fn applied_where_selected(n: Ast, c: EntryView, ps: Seq<EntryView>)
    ensures
        applied(n, c) is Some == selects(n, c),
        applied_any(n, ps) is Some == selects_any(n, ps),
{
}

/// A twofold negation matches exactly the entries that the expression
/// itself matches.
pub proof fn double_negation(n: Ast, c: EntryView)
    ensures
        selects(Ast::Not(Box::new(Ast::Not(Box::new(n)))), c) == selects(n, c),
{
    reveal_with_fuel(selects, 2);
}

/// An alternation matches the same entries whichever branch is written
/// first.
pub proof fn alternation_commutes(a: Ast, b: Ast, c: EntryView, ps: Seq<EntryView>)
    ensures
        selects(Ast::Or(Box::new(a), Box::new(b)), c) == selects(
            Ast::Or(Box::new(b), Box::new(a)),
            c,
        ),
        selects_any(Ast::Or(Box::new(a), Box::new(b)), ps) == selects_any(
            Ast::Or(Box::new(b), Box::new(a)),
            ps,
        ),
{
}

/// An alternation of three matches the same entries however it is grouped.
pub proof fn alternation_associates(a: Ast, b: Ast, c: Ast, e: EntryView, ps: Seq<EntryView>)
    ensures
        selects(Ast::Or(Box::new(Ast::Or(Box::new(a), Box::new(b))), Box::new(c)), e) == selects(
            Ast::Or(Box::new(a), Box::new(Ast::Or(Box::new(b), Box::new(c)))),
            e,
        ),
        selects_any(Ast::Or(Box::new(Ast::Or(Box::new(a), Box::new(b))), Box::new(c)), ps)
            == selects_any(
            Ast::Or(Box::new(a), Box::new(Ast::Or(Box::new(b), Box::new(c)))),
            ps,
        ),
{
    reveal_with_fuel(selects, 2);
    reveal_with_fuel(selects_any, 2);
}

/// Against a single parent, an expression to the right of a parent relation
/// is satisfied exactly where it matches that parent.
pub proof fn single_parent_is_candidate(n: Ast, p: EntryView)
    ensures
        selects_any(n, seq![p]) == selects(n, p),
    decreases n,
{
    let ps = seq![p];
    match n {
        Ast::And(a, b) => {
            single_parent_is_candidate(*a, p);
            single_parent_is_candidate(*b, p);
        },
        Ast::Or(a, b) => {
            single_parent_is_candidate(*a, p);
            single_parent_is_candidate(*b, p);
        },
        _ => {
            if selects(n, p) {
                assert(selects(n, ps[0]));
            }
        },
    }
}

/// A kind under a kind matches exactly the entries of the first kind that
/// have at least one parent of the second.
pub proof fn kind_under_kind(child: EntryType, parent: EntryType, e: EntryView)
    ensures
        selects(
            Ast::Parent(Box::new(Ast::Type(child)), Box::new(Ast::Type(parent))),
            e,
        ) <==> e.entry_type == child && exists|i: int|
            0 <= i < e.parents.len() && (#[trigger] e.parents[i]).entry_type == parent,
{
    reveal_with_fuel(selects, 2);
    reveal_with_fuel(selects_any, 2);
    let among = selects_any(Ast::Type(parent), e.parents);
    if among {
        let i = choose|i: int|
            0 <= i < e.parents.len() && selects(Ast::Type(parent), #[trigger] e.parents[i]);
        assert(e.parents[i].entry_type == parent);
    }
    if exists|i: int| 0 <= i < e.parents.len() && (#[trigger] e.parents[i]).entry_type == parent {
        let i = choose|i: int|
            0 <= i < e.parents.len() && (#[trigger] e.parents[i]).entry_type == parent;
        assert(selects(Ast::Type(parent), e.parents[i]));
    }
}

/// A filter on the wildcard matches exactly the entries that expose a
/// non-empty value for the field.
pub proof fn wildcard_with_field(field: Seq<char>, e: EntryView)
    ensures
        selects(Ast::AttrFilter(Box::new(Ast::Wildcard), field), e) == e.has(field),
{
    reveal_with_fuel(selects, 2);
}

/// The negation of "has the field, or has a parent with the field" matches
/// exactly the entries that lack the field on themselves and on every
/// parent.
pub proof fn field_nowhere(field: Seq<char>, e: EntryView)
    ensures
        selects(
            Ast::Not(
                Box::new(
                    Ast::Or(
                        Box::new(Ast::AttrFilter(Box::new(Ast::Wildcard), field)),
                        Box::new(
                            Ast::Parent(
                                Box::new(Ast::Wildcard),
                                Box::new(Ast::AttrFilter(Box::new(Ast::Wildcard), field)),
                            ),
                        ),
                    ),
                ),
            ),
            e,
        ) <==> !e.has(field) && forall|i: int|
            0 <= i < e.parents.len() ==> !(#[trigger] e.parents[i]).has(field),
{
    reveal_with_fuel(selects, 4);
    reveal_with_fuel(selects_any, 2);
    let with_field = Ast::AttrFilter(Box::new(Ast::Wildcard), field);
    if selects_any(with_field, e.parents) {
        let i = choose|i: int| 0 <= i < e.parents.len() && selects(with_field, #[trigger] e.parents[i]);
        assert(e.parents[i].has(field));
    }
    if exists|i: int| 0 <= i < e.parents.len() && (#[trigger] e.parents[i]).has(field) {
        let i = choose|i: int| 0 <= i < e.parents.len() && (#[trigger] e.parents[i]).has(field);
        assert(selects(with_field, e.parents[i]));
    }
}

/// An entry of a kind that has the field matches "the kind with the field,
/// under a captured parent kind" where it has a parent of that kind, and the
/// capture then holds the first such parent.
pub proof fn captured_parent(
    child: EntryType,
    field: Seq<char>,
    name: Seq<char>,
    parent: EntryType,
    e: EntryView,
    k: int,
)
    requires
        e.entry_type == child,
        e.has(field),
        0 <= k < e.parents.len(),
        e.parents[k].entry_type == parent,
        forall|j: int| 0 <= j < k ==> (#[trigger] e.parents[j]).entry_type != parent,
    ensures
        ({
            let ast = Ast::Parent(
                Box::new(Ast::AttrFilter(Box::new(Ast::Type(child)), field)),
                Box::new(Ast::Capture(name, Box::new(Ast::Type(parent)))),
            );
            selects(ast, e) && bindings(ast, e) == Map::<Seq<char>, EntryView>::empty().insert(
                name,
                e.parents[k],
            )
        }),
{
    reveal_with_fuel(selects, 3);
    reveal_with_fuel(selects_any, 2);
    reveal_with_fuel(bindings, 4);
    reveal_with_fuel(bindings_any, 3);
    let capture = Ast::Capture(name, Box::new(Ast::Type(parent)));
    assert(selects(capture, e.parents[k]));
    assert(is_first_match(capture, e.parents, k));
    lemma_first_match_is(capture, e.parents, k);
    let ast = Ast::Parent(
        Box::new(Ast::AttrFilter(Box::new(Ast::Type(child)), field)),
        Box::new(capture),
    );
    assert(bindings_any(capture, e.parents) == bindings(capture, e.parents[k]));
    assert(bindings(capture, e.parents[k]) =~= Map::<Seq<char>, EntryView>::empty().insert(
        name,
        e.parents[k],
    ));
    assert(bindings(ast, e) =~= Map::<Seq<char>, EntryView>::empty().insert(name, e.parents[k]));
}

/// A captured kind under two captured expressions matches exactly the
/// entries of that kind that have a parent for the one expression and a
/// parent for the other, which need not be the same; all three names are
/// then bound.
pub proof fn captured_child_and_parents(
    a: Seq<char>,
    child: EntryType,
    b: Seq<char>,
    first: Ast,
    c: Seq<char>,
    second: Ast,
    e: EntryView,
)
    ensures
        ({
            let ast = Ast::Parent(
                Box::new(Ast::Capture(a, Box::new(Ast::Type(child)))),
                Box::new(
                    Ast::And(
                        Box::new(Ast::Capture(b, Box::new(first))),
                        Box::new(Ast::Capture(c, Box::new(second))),
                    ),
                ),
            );
            &&& selects(ast, e) <==> {
                &&& e.entry_type == child
                &&& exists|i: int| 0 <= i < e.parents.len() && selects(first, #[trigger] e.parents[i])
                &&& exists|j: int|
                    0 <= j < e.parents.len() && selects(second, #[trigger] e.parents[j])
            }
            &&& bindings(ast, e).contains_key(a)
            &&& bindings(ast, e).contains_key(b)
            &&& bindings(ast, e).contains_key(c)
        }),
{
    reveal_with_fuel(selects, 3);
    reveal_with_fuel(selects_any, 2);
    reveal_with_fuel(bindings, 3);
    reveal_with_fuel(bindings_any, 2);
    let left = Ast::Capture(b, Box::new(first));
    let right = Ast::Capture(c, Box::new(second));
    if selects_any(left, e.parents) {
        let i = choose|i: int| 0 <= i < e.parents.len() && selects(left, #[trigger] e.parents[i]);
        assert(selects(first, e.parents[i]));
    }
    if selects_any(right, e.parents) {
        let j = choose|j: int| 0 <= j < e.parents.len() && selects(right, #[trigger] e.parents[j]);
        assert(selects(second, e.parents[j]));
    }
    if exists|i: int| 0 <= i < e.parents.len() && selects(first, #[trigger] e.parents[i]) {
        let i = choose|i: int| 0 <= i < e.parents.len() && selects(first, #[trigger] e.parents[i]);
        assert(selects(left, e.parents[i]));
    }
    if exists|j: int| 0 <= j < e.parents.len() && selects(second, #[trigger] e.parents[j]) {
        let j = choose|j: int|
            0 <= j < e.parents.len() && selects(second, #[trigger] e.parents[j]);
        assert(selects(right, e.parents[j]));
    }
    let on_left = bindings_any(left, e.parents);
    let on_right = bindings_any(right, e.parents);
    assert(on_left.contains_key(b));
    assert(on_right.contains_key(c));
    assert(on_left.union_prefer_right(on_right).contains_key(b));
    assert(on_left.union_prefer_right(on_right).contains_key(c));
}

/// Every name that a match binds is a capture name of the expression.
pub proof fn bound_names_are_captures(n: Ast, c: EntryView, name: Seq<char>)
    ensures
        bindings(n, c).contains_key(name) ==> n.captures().contains(name),
    decreases n, 0nat,
{
    match n {
        Ast::And(a, b) => {
            bound_names_are_captures(*a, c, name);
            bound_names_are_captures(*b, c, name);
            lemma_in_concat(a.captures(), b.captures(), name);
        },
        Ast::Or(a, b) => {
            bound_names_are_captures(*a, c, name);
            bound_names_are_captures(*b, c, name);
            lemma_in_concat(a.captures(), b.captures(), name);
        },
        Ast::Parent(a, b) => {
            bound_names_are_captures(*a, c, name);
            names_bound_among_are_captures(*b, c.parents, name);
            lemma_in_concat(a.captures(), b.captures(), name);
        },
        Ast::AttrFilter(a, _) => {
            bound_names_are_captures(*a, c, name);
        },
        Ast::Capture(bound, a) => {
            bound_names_are_captures(*a, c, name);
            lemma_in_concat(seq![bound], a.captures(), name);
            assert(seq![bound][0] == bound);
        },
        _ => {},
    }
}

/// Every name that a match among parents binds is a capture name of the
/// expression.
pub proof fn names_bound_among_are_captures(n: Ast, ps: Seq<EntryView>, name: Seq<char>)
    ensures
        bindings_any(n, ps).contains_key(name) ==> n.captures().contains(name),
    decreases n, 1nat,
{
    match n {
        Ast::And(a, b) => {
            names_bound_among_are_captures(*a, ps, name);
            names_bound_among_are_captures(*b, ps, name);
            lemma_in_concat(a.captures(), b.captures(), name);
        },
        Ast::Or(a, b) => {
            names_bound_among_are_captures(*a, ps, name);
            names_bound_among_are_captures(*b, ps, name);
            lemma_in_concat(a.captures(), b.captures(), name);
        },
        _ => {
            bound_names_are_captures(n, ps[first_match(n, ps)], name);
        },
    }
}

/// A member of one of two sequences is a member of both put together.
proof fn lemma_in_concat(a: Seq<Seq<char>>, b: Seq<Seq<char>>, name: Seq<char>)
    ensures
        a.contains(name) || b.contains(name) ==> (a + b).contains(name),
{
    if a.contains(name) {
        let i = choose|i: int| 0 <= i < a.len() && a[i] == name;
        assert((a + b)[i] == name);
    } else if b.contains(name) {
        let i = choose|i: int| 0 <= i < b.len() && b[i] == name;
        assert((a + b)[a.len() + i] == name);
    }
}

/// In an expression that uses no capture name twice, the two sides of a
/// conjunction or of a parent relation never bind the same name: no capture
/// is ever replaced by another.
pub proof fn sides_bind_apart(a: Ast, b: Ast, c: EntryView, ps: Seq<EntryView>, name: Seq<char>)
    requires
        (a.captures() + b.captures()).no_duplicates(),
    ensures
        !(bindings(a, c).contains_key(name) && bindings(b, c).contains_key(name)),
        !(bindings(a, c).contains_key(name) && bindings_any(b, ps).contains_key(name)),
        !(bindings_any(a, ps).contains_key(name) && bindings_any(b, ps).contains_key(name)),
{
    bound_names_are_captures(a, c, name);
    bound_names_are_captures(b, c, name);
    names_bound_among_are_captures(a, ps, name);
    names_bound_among_are_captures(b, ps, name);
    if a.captures().contains(name) && b.captures().contains(name) {
        let both = a.captures() + b.captures();
        let i = choose|i: int| 0 <= i < a.captures().len() && a.captures()[i] == name;
        let j = choose|j: int| 0 <= j < b.captures().len() && b.captures()[j] == name;
        assert(both[i] == name);
        assert(both[a.captures().len() + j] == name);
    }
}

} // verus!
