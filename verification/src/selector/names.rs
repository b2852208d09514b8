//! Capture names in accepted selector texts: the grammar refuses a text that
//! uses a name twice, so every expression it yields is well formed.

use crate::kind::type_named;
use crate::selector::ast::Ast;
use crate::selector::grammar::{
    alternation, alternatives, captured, conjunction, conjuncts, filtered, filters, is_name_char,
    lemma_alternation, lemma_alternatives, lemma_captured, lemma_conjunction, lemma_conjuncts,
    lemma_filtered, lemma_filters, lemma_negated, lemma_primary, lemma_relation, name_at,
    name_len, negated, parse_text, primary, relation, rest, spaces, Outcome,
};
use crate::text::lowered;
use vstd::prelude::*;

verus! {

/// What the grammar keeps of the capture names: an expression read after the
/// names `seen` leaves `seen` followed by its own capture names, none of them
/// twice.
pub open spec fn keeps_names(o: Outcome, seen: Seq<Seq<char>>) -> bool {
    o is Ok ==> {
        &&& o->Ok_0.seen == seen + o->Ok_0.node.captures()
        &&& o->Ok_0.seen.no_duplicates()
    }
}

/// The same for a repetition that extends the expression `lhs`, whose own
/// names are the last of `seen`.
pub open spec fn extends_names(o: Outcome, lhs: Ast, seen: Seq<Seq<char>>) -> bool {
    o is Ok ==> {
        &&& o->Ok_0.seen.no_duplicates()
        &&& forall|base: Seq<Seq<char>>|
            seen == base + lhs.captures() ==> o->Ok_0.seen == base + o->Ok_0.node.captures()
    }
}

proof fn lemma_primary_names(s: Seq<char>, pos: nat, seen: Seq<Seq<char>>)
    requires
        seen.no_duplicates(),
    ensures
        keeps_names(primary(s, pos, seen), seen),
    decreases rest(s, pos), 0nat,
{
    lemma_primary(s, pos, seen);
    let p = pos + spaces(s, pos);
    if p < s.len() {
        if s[p as int] == '*' {
            assert(seen + Ast::Wildcard.captures() =~= seen);
        } else if s[p as int] == '(' {
            lemma_relation_names(s, p + 1, seen);
        } else if is_name_char(s[p as int]) {
            let n = name_len(s, p);
            let t = type_named(lowered(s.subrange(p as int, p + n as int)));
            if t is Some {
                assert(seen + Ast::Type(t->0).captures() =~= seen);
            }
        }
    }
}

proof fn lemma_captured_names(s: Seq<char>, pos: nat, seen: Seq<Seq<char>>)
    requires
        seen.no_duplicates(),
    ensures
        keeps_names(captured(s, pos, seen), seen),
    decreases rest(s, pos), 1nat,
{
    lemma_captured(s, pos, seen);
    let p = pos + spaces(s, pos);
    match name_at(s, p) {
        Some(name) => {
            let q = p + name.used;
            let r = q + spaces(s, q);
            if r < s.len() && s[r as int] == ':' {
                if !seen.contains(name.text) {
                    let more = seen.push(name.text);
                    assert(more.no_duplicates()) by {
                        assert forall|i: int, j: int|
                            0 <= i < more.len() && 0 <= j < more.len() && i != j implies more[i]
                            != more[j] by {
                            if i < seen.len() && j < seen.len() {
                                assert(seen[i] != seen[j]);
                            } else if i < seen.len() {
                                assert(seen.contains(seen[i]));
                            } else {
                                assert(seen.contains(seen[j]));
                            }
                        }
                    }
                    lemma_primary_names(s, r + 1, more);
                    let o = primary(s, r + 1, more);
                    if o is Ok {
                        let inner = o->Ok_0;
                        assert(more + inner.node.captures() =~= seen + Ast::Capture(
                            name.text,
                            Box::new(inner.node),
                        ).captures());
                    }
                }
            } else {
                lemma_primary_names(s, pos, seen);
            }
        },
        None => {
            lemma_primary_names(s, pos, seen);
        },
    }
}

proof fn lemma_filters_names(s: Seq<char>, pos: nat, node: Ast, seen: Seq<Seq<char>>)
    requires
        seen.no_duplicates(),
    ensures
        extends_names(filters(s, pos, node, seen), node, seen),
    decreases rest(s, pos), 2nat,
{
    lemma_filters(s, pos, node, seen);
    let p = pos + spaces(s, pos);
    if p < s.len() && s[p as int] == '[' {
        let q = p + 1 + spaces(s, p + 1);
        match name_at(s, q) {
            Some(name) => {
                let r = q + name.used + spaces(s, q + name.used);
                if r < s.len() && s[r as int] == ']' {
                    let next = Ast::AttrFilter(Box::new(node), name.text);
                    lemma_filters_names(s, r + 1, next, seen);
                    assert(next.captures() == node.captures());
                }
            },
            None => {},
        }
    }
}

proof fn lemma_filtered_names(s: Seq<char>, pos: nat, seen: Seq<Seq<char>>)
    requires
        seen.no_duplicates(),
    ensures
        keeps_names(filtered(s, pos, seen), seen),
    decreases rest(s, pos), 3nat,
{
    lemma_filtered(s, pos, seen);
    lemma_captured_names(s, pos, seen);
    match captured(s, pos, seen) {
        Ok(c) => {
            lemma_filters_names(s, pos + c.used, c.node, c.seen);
        },
        Err(_) => {},
    }
}

proof fn lemma_negated_names(s: Seq<char>, pos: nat, seen: Seq<Seq<char>>)
    requires
        seen.no_duplicates(),
    ensures
        keeps_names(negated(s, pos, seen), seen),
    decreases rest(s, pos), 4nat,
{
    lemma_negated(s, pos, seen);
    let p = pos + spaces(s, pos);
    if p < s.len() && s[p as int] == '!' {
        lemma_filtered_names(s, p + 1, seen);
    } else {
        lemma_filtered_names(s, pos, seen);
    }
}

proof fn lemma_conjuncts_names(s: Seq<char>, pos: nat, lhs: Ast, seen: Seq<Seq<char>>)
    requires
        seen.no_duplicates(),
    ensures
        extends_names(conjuncts(s, pos, lhs, seen), lhs, seen),
    decreases rest(s, pos), 5nat,
{
    lemma_conjuncts(s, pos, lhs, seen);
    let p = pos + spaces(s, pos);
    if p < s.len() && s[p as int] == '&' {
        lemma_negated_names(s, p + 1, seen);
        match negated(s, p + 1, seen) {
            Ok(rhs) => {
                let both = Ast::And(Box::new(lhs), Box::new(rhs.node));
                lemma_conjuncts_names(s, p + 1 + rhs.used, both, rhs.seen);
                let o = conjuncts(s, p + 1 + rhs.used, both, rhs.seen);
                if o is Ok {
                    assert forall|base: Seq<Seq<char>>| seen == base + lhs.captures() implies o->Ok_0.seen
                        == base + o->Ok_0.node.captures() by {
                        assert(rhs.seen =~= base + both.captures());
                    }
                }
            },
            Err(_) => {},
        }
    }
}

proof fn lemma_conjunction_names(s: Seq<char>, pos: nat, seen: Seq<Seq<char>>)
    requires
        seen.no_duplicates(),
    ensures
        keeps_names(conjunction(s, pos, seen), seen),
    decreases rest(s, pos), 6nat,
{
    lemma_conjunction(s, pos, seen);
    lemma_negated_names(s, pos, seen);
    match negated(s, pos, seen) {
        Ok(lhs) => {
            lemma_conjuncts_names(s, pos + lhs.used, lhs.node, lhs.seen);
        },
        Err(_) => {},
    }
}

proof fn lemma_alternatives_names(s: Seq<char>, pos: nat, lhs: Ast, seen: Seq<Seq<char>>)
    requires
        seen.no_duplicates(),
    ensures
        extends_names(alternatives(s, pos, lhs, seen), lhs, seen),
    decreases rest(s, pos), 7nat,
{
    lemma_alternatives(s, pos, lhs, seen);
    let p = pos + spaces(s, pos);
    if p < s.len() && s[p as int] == '|' {
        lemma_conjunction_names(s, p + 1, seen);
        match conjunction(s, p + 1, seen) {
            Ok(rhs) => {
                let either = Ast::Or(Box::new(lhs), Box::new(rhs.node));
                lemma_alternatives_names(s, p + 1 + rhs.used, either, rhs.seen);
                let o = alternatives(s, p + 1 + rhs.used, either, rhs.seen);
                if o is Ok {
                    assert forall|base: Seq<Seq<char>>| seen == base + lhs.captures() implies o->Ok_0.seen
                        == base + o->Ok_0.node.captures() by {
                        assert(rhs.seen =~= base + either.captures());
                    }
                }
            },
            Err(_) => {},
        }
    }
}

proof fn lemma_alternation_names(s: Seq<char>, pos: nat, seen: Seq<Seq<char>>)
    requires
        seen.no_duplicates(),
    ensures
        keeps_names(alternation(s, pos, seen), seen),
    decreases rest(s, pos), 8nat,
{
    lemma_alternation(s, pos, seen);
    lemma_conjunction_names(s, pos, seen);
    match conjunction(s, pos, seen) {
        Ok(lhs) => {
            lemma_alternatives_names(s, pos + lhs.used, lhs.node, lhs.seen);
        },
        Err(_) => {},
    }
}

proof fn lemma_relation_names(s: Seq<char>, pos: nat, seen: Seq<Seq<char>>)
    requires
        seen.no_duplicates(),
    ensures
        keeps_names(relation(s, pos, seen), seen),
    decreases rest(s, pos), 9nat,
{
    lemma_relation(s, pos, seen);
    lemma_alternation_names(s, pos, seen);
    match alternation(s, pos, seen) {
        Ok(child) => {
            let q = pos + child.used;
            let p = q + spaces(s, q);
            if p < s.len() && s[p as int] == '>' {
                lemma_relation_names(s, p + 1, child.seen);
                match relation(s, p + 1, child.seen) {
                    Ok(anc) => {
                        assert(child.seen + anc.node.captures() =~= seen + Ast::Parent(
                            Box::new(child.node),
                            Box::new(anc.node),
                        ).captures());
                    },
                    Err(_) => {},
                }
            }
        },
        Err(_) => {},
    }
}

/// Every text that the grammar accepts denotes an expression in which no
/// capture name is used twice.
pub proof fn lemma_accepted_has_distinct_names(s: Seq<char>)
    ensures
        parse_text(s) is Ok ==> parse_text(s)->Ok_0.captures().no_duplicates(),
{
    let none = Seq::<Seq<char>>::empty();
    lemma_relation_names(s, 0, none);
    let o = relation(s, 0, none);
    if o is Ok {
        assert(none + o->Ok_0.node.captures() =~= o->Ok_0.node.captures());
    }
}

} // verus!
