//! The size of accepted selector texts: every operator character accounts
//! for at most two expressions, so a text within the bound on operators
//! denotes an expression within the bound on expressions.

use crate::selector::ast::{Ast, MAX_NODES};
use crate::selector::grammar::{
    alternation, alternatives, captured, conjunction, conjuncts, excess, filtered, filters,
    is_operator, lemma_alternation, lemma_alternatives, lemma_captured, lemma_conjunction,
    lemma_conjuncts, lemma_filtered, lemma_filters, lemma_negated, lemma_primary, lemma_relation,
    name_at, negated, operators, parse_text, primary, relation, rest, spaces, Outcome,
    MAX_OPERATORS,
};
use vstd::prelude::*;

verus! {

/// The operators of a stretch are those of its two parts.
pub proof fn lemma_operators_split(s: Seq<char>, a: nat, b: nat, c: nat)
    requires
        a <= b <= c,
    ensures
        operators(s, a as int, c as int) == operators(s, a as int, b as int) + operators(
            s,
            b as int,
            c as int,
        ),
    decreases c - b,
{
    if b < c {
        lemma_operators_split(s, a, b, (c - 1) as nat);
    }
}

/// An operator character is one operator.
pub proof fn lemma_operator_at(s: Seq<char>, p: nat)
    requires
        p < s.len(),
        is_operator(s[p as int]),
    ensures
        operators(s, p as int, p + 1 as int) == 1,
{
    reveal_with_fuel(operators, 2);
}

/// Without an excess among the first `n` characters, these hold no more
/// operators than the bound.
pub proof fn lemma_no_excess(s: Seq<char>, n: int)
    requires
        0 <= n <= s.len(),
        excess(s, n) is None,
    ensures
        operators(s, 0, n) <= MAX_OPERATORS,
    decreases n,
{
    if n > 0 {
        lemma_no_excess(s, n - 1);
    }
}

/// Characters after the end of the text hold no operators.
pub proof fn lemma_operators_end(s: Seq<char>, c: nat)
    ensures
        operators(s, 0, c as int) <= operators(s, 0, s.len() as int),
    decreases c,
{
    if c < s.len() {
        lemma_operators_split(s, 0, c, s.len());
    } else if c > s.len() {
        lemma_operators_end(s, (c - 1) as nat);
    }
}

/// An expression that was read is made of no more than one expression and
/// two for each operator character in the stretch that was read.
pub open spec fn small(o: Outcome, s: Seq<char>, pos: nat) -> bool {
    o is Ok ==> o->Ok_0.node.nodes() <= 2 * operators(
        s,
        pos as int,
        (pos + o->Ok_0.used) as int,
    ) + 1
}

/// A repetition adds to the expression `lhs` no more than two expressions
/// for each operator character in the stretch that was read.
pub open spec fn grown(o: Outcome, lhs: Ast, s: Seq<char>, pos: nat) -> bool {
    o is Ok ==> o->Ok_0.node.nodes() <= lhs.nodes() + 2 * operators(
        s,
        pos as int,
        (pos + o->Ok_0.used) as int,
    )
}

proof fn lemma_primary_small(s: Seq<char>, pos: nat, seen: Seq<Seq<char>>)
    ensures
        small(primary(s, pos, seen), s, pos),
    decreases rest(s, pos), 0nat,
{
    lemma_primary(s, pos, seen);
    let p = pos + spaces(s, pos);
    if p < s.len() && s[p as int] == '(' {
        lemma_relation_small(s, p + 1, seen);
        match relation(s, p + 1, seen) {
            Ok(inner) => {
                let q = p + 1 + inner.used;
                let r = q + spaces(s, q);
                lemma_operators_split(s, pos, p + 1, q);
                lemma_operators_split(s, pos, q, r + 1);
            },
            Err(_) => {},
        }
    }
}

proof fn lemma_captured_small(s: Seq<char>, pos: nat, seen: Seq<Seq<char>>)
    ensures
        small(captured(s, pos, seen), s, pos),
    decreases rest(s, pos), 1nat,
{
    lemma_captured(s, pos, seen);
    let p = pos + spaces(s, pos);
    match name_at(s, p) {
        Some(name) => {
            let q = p + name.used;
            let r = q + spaces(s, q);
            if r < s.len() && s[r as int] == ':' {
                if !seen.contains(name.text) {
                    let more = seen.push(name.text);
                    lemma_primary_small(s, r + 1, more);
                    match primary(s, r + 1, more) {
                        Ok(inner) => {
                            lemma_operator_at(s, r);
                            lemma_operators_split(s, pos, r, r + 1);
                            lemma_operators_split(s, pos, r + 1, r + 1 + inner.used);
                        },
                        Err(_) => {},
                    }
                }
            } else {
                lemma_primary_small(s, pos, seen);
            }
        },
        None => {
            lemma_primary_small(s, pos, seen);
        },
    }
}

proof fn lemma_filters_grown(s: Seq<char>, pos: nat, node: Ast, seen: Seq<Seq<char>>)
    ensures
        grown(filters(s, pos, node, seen), node, s, pos),
    decreases rest(s, pos), 2nat,
{
    lemma_filters(s, pos, node, seen);
    let p = pos + spaces(s, pos);
    if p < s.len() && s[p as int] == '[' {
        let q = p + 1 + spaces(s, p + 1);
        match name_at(s, q) {
            Some(name) => {
                let r = q + name.used + spaces(s, q + name.used);
                if r < s.len() && s[r as int] == ']' {
                    let next = Ast::AttrFilter(Box::new(node), name.text);
                    lemma_filters_grown(s, r + 1, next, seen);
                    match filters(s, r + 1, next, seen) {
                        Ok(more) => {
                            lemma_operator_at(s, p);
                            lemma_operators_split(s, pos, p, p + 1);
                            lemma_operators_split(s, pos, p + 1, r + 1);
                            lemma_operators_split(s, pos, r + 1, r + 1 + more.used);
                        },
                        Err(_) => {},
                    }
                }
            },
            None => {},
        }
    }
}

proof fn lemma_filtered_small(s: Seq<char>, pos: nat, seen: Seq<Seq<char>>)
    ensures
        small(filtered(s, pos, seen), s, pos),
    decreases rest(s, pos), 3nat,
{
    lemma_filtered(s, pos, seen);
    lemma_captured_small(s, pos, seen);
    match captured(s, pos, seen) {
        Ok(c) => {
            lemma_filters_grown(s, pos + c.used, c.node, c.seen);
            match filters(s, pos + c.used, c.node, c.seen) {
                Ok(more) => {
                    lemma_operators_split(s, pos, pos + c.used, pos + c.used + more.used);
                },
                Err(_) => {},
            }
        },
        Err(_) => {},
    }
}

proof fn lemma_negated_small(s: Seq<char>, pos: nat, seen: Seq<Seq<char>>)
    ensures
        small(negated(s, pos, seen), s, pos),
    decreases rest(s, pos), 4nat,
{
    lemma_negated(s, pos, seen);
    let p = pos + spaces(s, pos);
    if p < s.len() && s[p as int] == '!' {
        lemma_filtered_small(s, p + 1, seen);
        match filtered(s, p + 1, seen) {
            Ok(f) => {
                lemma_operator_at(s, p);
                lemma_operators_split(s, pos, p, p + 1);
                lemma_operators_split(s, pos, p + 1, p + 1 + f.used);
            },
            Err(_) => {},
        }
    } else {
        lemma_filtered_small(s, pos, seen);
    }
}

proof fn lemma_conjuncts_grown(s: Seq<char>, pos: nat, lhs: Ast, seen: Seq<Seq<char>>)
    ensures
        grown(conjuncts(s, pos, lhs, seen), lhs, s, pos),
    decreases rest(s, pos), 5nat,
{
    lemma_conjuncts(s, pos, lhs, seen);
    let p = pos + spaces(s, pos);
    if p < s.len() && s[p as int] == '&' {
        lemma_negated_small(s, p + 1, seen);
        match negated(s, p + 1, seen) {
            Ok(rhs) => {
                let both = Ast::And(Box::new(lhs), Box::new(rhs.node));
                let q = p + 1 + rhs.used;
                lemma_conjuncts_grown(s, q, both, rhs.seen);
                match conjuncts(s, q, both, rhs.seen) {
                    Ok(more) => {
                        lemma_operator_at(s, p);
                        lemma_operators_split(s, pos, p, p + 1);
                        lemma_operators_split(s, pos, p + 1, q);
                        lemma_operators_split(s, pos, q, q + more.used);
                    },
                    Err(_) => {},
                }
            },
            Err(_) => {},
        }
    }
}

proof fn lemma_conjunction_small(s: Seq<char>, pos: nat, seen: Seq<Seq<char>>)
    ensures
        small(conjunction(s, pos, seen), s, pos),
    decreases rest(s, pos), 6nat,
{
    lemma_conjunction(s, pos, seen);
    lemma_negated_small(s, pos, seen);
    match negated(s, pos, seen) {
        Ok(lhs) => {
            lemma_conjuncts_grown(s, pos + lhs.used, lhs.node, lhs.seen);
            match conjuncts(s, pos + lhs.used, lhs.node, lhs.seen) {
                Ok(more) => {
                    lemma_operators_split(
                        s,
                        pos,
                        pos + lhs.used,
                        pos + lhs.used + more.used,
                    );
                },
                Err(_) => {},
            }
        },
        Err(_) => {},
    }
}

proof fn lemma_alternatives_grown(s: Seq<char>, pos: nat, lhs: Ast, seen: Seq<Seq<char>>)
    ensures
        grown(alternatives(s, pos, lhs, seen), lhs, s, pos),
    decreases rest(s, pos), 7nat,
{
    lemma_alternatives(s, pos, lhs, seen);
    let p = pos + spaces(s, pos);
    if p < s.len() && s[p as int] == '|' {
        lemma_conjunction_small(s, p + 1, seen);
        match conjunction(s, p + 1, seen) {
            Ok(rhs) => {
                let either = Ast::Or(Box::new(lhs), Box::new(rhs.node));
                let q = p + 1 + rhs.used;
                lemma_alternatives_grown(s, q, either, rhs.seen);
                match alternatives(s, q, either, rhs.seen) {
                    Ok(more) => {
                        lemma_operator_at(s, p);
                        lemma_operators_split(s, pos, p, p + 1);
                        lemma_operators_split(s, pos, p + 1, q);
                        lemma_operators_split(s, pos, q, q + more.used);
                    },
                    Err(_) => {},
                }
            },
            Err(_) => {},
        }
    }
}

proof fn lemma_alternation_small(s: Seq<char>, pos: nat, seen: Seq<Seq<char>>)
    ensures
        small(alternation(s, pos, seen), s, pos),
    decreases rest(s, pos), 8nat,
{
    lemma_alternation(s, pos, seen);
    lemma_conjunction_small(s, pos, seen);
    match conjunction(s, pos, seen) {
        Ok(lhs) => {
            lemma_alternatives_grown(s, pos + lhs.used, lhs.node, lhs.seen);
            match alternatives(s, pos + lhs.used, lhs.node, lhs.seen) {
                Ok(more) => {
                    lemma_operators_split(
                        s,
                        pos,
                        pos + lhs.used,
                        pos + lhs.used + more.used,
                    );
                },
                Err(_) => {},
            }
        },
        Err(_) => {},
    }
}

proof fn lemma_relation_small(s: Seq<char>, pos: nat, seen: Seq<Seq<char>>)
    ensures
        small(relation(s, pos, seen), s, pos),
    decreases rest(s, pos), 9nat,
{
    lemma_relation(s, pos, seen);
    lemma_alternation_small(s, pos, seen);
    match alternation(s, pos, seen) {
        Ok(child) => {
            let q = pos + child.used;
            let p = q + spaces(s, q);
            if p < s.len() && s[p as int] == '>' {
                lemma_relation_small(s, p + 1, child.seen);
                match relation(s, p + 1, child.seen) {
                    Ok(anc) => {
                        lemma_operator_at(s, p);
                        lemma_operators_split(s, pos, q, p);
                        lemma_operators_split(s, pos, p, p + 1);
                        lemma_operators_split(s, pos, p + 1, p + 1 + anc.used);
                    },
                    Err(_) => {},
                }
            }
        },
        Err(_) => {},
    }
}

/// Every text that the grammar accepts denotes an expression of no more
/// than [`MAX_NODES`] expressions.
pub proof fn lemma_accepted_is_small(s: Seq<char>)
    ensures
        parse_text(s) is Ok ==> parse_text(s)->Ok_0.nodes() <= MAX_NODES,
{
    let none = Seq::<Seq<char>>::empty();
    if parse_text(s) is Ok {
        lemma_no_excess(s, s.len() as int);
        lemma_relation_small(s, 0, none);
        let used = relation(s, 0, none)->Ok_0.used;
        lemma_operators_end(s, used);
    }
}

} // verus!
