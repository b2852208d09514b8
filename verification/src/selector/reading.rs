//! Rules by which the grammar reads a text: each says of one function of the
//! grammar what it gives where the text has a certain shape. A proof that a
//! given text denotes a given expression applies them one after the other.

use crate::kind::{type_named, EntryType};
use crate::selector::ast::Ast;
use crate::selector::grammar::{
    alternation, captured, conjunction, excess, filtered, filters, is_name_char, is_space,
    lemma_alternation, lemma_alternatives, lemma_captured, lemma_conjunction, lemma_conjuncts,
    lemma_filtered, lemma_filters, lemma_negated, lemma_primary, lemma_relation, name_at,
    name_len, negated, operators, parse_text, primary, quoted_len, relation, spaces, Name,
    Parsed, SelectorError, MAX_OPERATORS,
};
use crate::text::lowered;
use vstd::prelude::*;

verus! {

/// Whether the first character at or after `pos` that is no blank is `c`.
pub open spec fn next_is(s: Seq<char>, pos: nat, c: char) -> bool {
    let p = pos + spaces(s, pos);
    p < s.len() && s[p as int] == c
}

/// No blanks stand where the text ends or a character is no blank.
pub proof fn lemma_no_blank(s: Seq<char>, p: nat)
    requires
        p >= s.len() || !is_space(s[p as int]),
    ensures
        spaces(s, p) == 0,
{
    reveal(spaces);
}

/// One blank stands where a blank is followed by what is none.
pub proof fn lemma_one_blank(s: Seq<char>, p: nat)
    requires
        p < s.len(),
        is_space(s[p as int]),
        p + 1 >= s.len() || !is_space(s[p + 1 as int]),
    ensures
        spaces(s, p) == 1,
{
    reveal_with_fuel(spaces, 2);
}

/// A run of `n` name characters that ends with the text or before a
/// character of another sort has the length `n`.
pub proof fn lemma_name_run(s: Seq<char>, p: nat, n: nat)
    requires
        p + n <= s.len(),
        forall|i: int| p <= i < p + n ==> is_name_char(#[trigger] s[i]),
        p + n == s.len() || !is_name_char(s[p + n as int]),
    ensures
        name_len(s, p) == n,
    decreases n,
{
    reveal(name_len);
    if n > 0 {
        lemma_name_run(s, p + 1, (n - 1) as nat);
    }
}

/// A run of name characters is a name.
pub proof fn lemma_bare_name(s: Seq<char>, p: nat)
    requires
        p < s.len(),
        is_name_char(s[p as int]),
    ensures
        name_at(s, p) == Some(
            Name { text: s.subrange(p as int, p + name_len(s, p) as int), used: name_len(s, p) },
        ),
{
    reveal(name_at);
}

/// A run of `n` characters between double quotes, none of them a double
/// quote, is a name.
pub proof fn lemma_quoted_name(s: Seq<char>, p: nat, n: nat)
    requires
        n > 0,
        p + n + 1 < s.len(),
        s[p as int] == '"',
        forall|i: int| p < i <= p + n ==> #[trigger] s[i] != '"',
        s[p + n + 1 as int] == '"',
    ensures
        name_at(s, p) == Some(Name { text: s.subrange(p + 1 as int, p + 1 + n as int), used: n + 2 }),
{
    reveal(name_at);
    lemma_quoted_run(s, p + 1, n);
}

/// A run of `n` characters that are no double quotes, before a double quote,
/// has the length `n`.
pub proof fn lemma_quoted_run(s: Seq<char>, p: nat, n: nat)
    requires
        p + n < s.len(),
        forall|i: int| p <= i < p + n ==> #[trigger] s[i] != '"',
        s[p + n as int] == '"',
    ensures
        quoted_len(s, p) == n,
    decreases n,
{
    reveal(quoted_len);
    if n > 0 {
        lemma_quoted_run(s, p + 1, (n - 1) as nat);
    }
}

/// The wildcard is a primary.
pub proof fn lemma_primary_wildcard(s: Seq<char>, pos: nat, seen: Seq<Seq<char>>)
    requires
        next_is(s, pos, '*'),
    ensures
        primary(s, pos, seen) == Ok::<Parsed, SelectorError>(
            Parsed { node: Ast::Wildcard, used: (spaces(s, pos) + 1) as nat, seen },
        ),
{
    lemma_primary(s, pos, seen);
}

/// The name of a kind is a primary.
pub proof fn lemma_primary_kind(s: Seq<char>, pos: nat, seen: Seq<Seq<char>>, t: EntryType)
    requires
        ({
            let p = pos + spaces(s, pos);
            let n = name_len(s, p);
            &&& p < s.len()
            &&& is_name_char(s[p as int])
            &&& type_named(lowered(s.subrange(p as int, p + n as int))) == Some(t)
        }),
    ensures
        primary(s, pos, seen) == Ok::<Parsed, SelectorError>(
            Parsed {
                node: Ast::Type(t),
                used: (spaces(s, pos) + name_len(s, pos + spaces(s, pos))) as nat,
                seen,
            },
        ),
{
    lemma_primary(s, pos, seen);
}

/// An expression in parentheses is a primary.
pub proof fn lemma_primary_group(s: Seq<char>, pos: nat, seen: Seq<Seq<char>>, inner: Parsed)
    requires
        next_is(s, pos, '('),
        relation(s, pos + spaces(s, pos) + 1, seen) == Ok::<Parsed, SelectorError>(inner),
        next_is(s, pos + spaces(s, pos) + 1 + inner.used, ')'),
    ensures
        primary(s, pos, seen) == Ok::<Parsed, SelectorError>(
            Parsed {
                used: (spaces(s, pos) + 1 + inner.used + spaces(
                    s,
                    pos + spaces(s, pos) + 1 + inner.used,
                ) + 1) as nat,
                ..inner
            },
        ),
{
    lemma_primary(s, pos, seen);
}

/// A new name, a colon and a primary are read as a capture.
pub proof fn lemma_reads_capture(
    s: Seq<char>,
    pos: nat,
    seen: Seq<Seq<char>>,
    name: Name,
    inner: Parsed,
)
    requires
        name_at(s, pos + spaces(s, pos)) == Some(name),
        next_is(s, pos + spaces(s, pos) + name.used, ':'),
        !seen.contains(name.text),
        primary(
            s,
            pos + spaces(s, pos) + name.used + spaces(s, pos + spaces(s, pos) + name.used) + 1,
            seen.push(name.text),
        ) == Ok::<Parsed, SelectorError>(inner),
    ensures
        captured(s, pos, seen) == Ok::<Parsed, SelectorError>(
            Parsed {
                node: Ast::Capture(name.text, Box::new(inner.node)),
                used: (spaces(s, pos) + name.used + spaces(s, pos + spaces(s, pos) + name.used)
                    + 1 + inner.used) as nat,
                seen: inner.seen,
            },
        ),
{
    lemma_captured(s, pos, seen);
}

/// The wildcard is read as the wildcard.
pub proof fn lemma_reads_wildcard(s: Seq<char>, pos: nat, seen: Seq<Seq<char>>)
    requires
        next_is(s, pos, '*'),
    ensures
        captured(s, pos, seen) == Ok::<Parsed, SelectorError>(
            Parsed { node: Ast::Wildcard, used: (spaces(s, pos) + 1) as nat, seen },
        ),
{
    reveal(name_at);
    lemma_captured(s, pos, seen);
    lemma_primary(s, pos, seen);
}

/// The name of a kind that no colon follows is read as the kind.
pub proof fn lemma_reads_kind(s: Seq<char>, pos: nat, seen: Seq<Seq<char>>, t: EntryType)
    requires
        ({
            let p = pos + spaces(s, pos);
            let n = name_len(s, p);
            &&& p < s.len()
            &&& is_name_char(s[p as int])
            &&& type_named(lowered(s.subrange(p as int, p + n as int))) == Some(t)
            &&& !next_is(s, p + n, ':')
        }),
    ensures
        captured(s, pos, seen) == Ok::<Parsed, SelectorError>(
            Parsed {
                node: Ast::Type(t),
                used: (spaces(s, pos) + name_len(s, pos + spaces(s, pos))) as nat,
                seen,
            },
        ),
{
    let p = pos + spaces(s, pos);
    lemma_bare_name(s, p);
    lemma_captured(s, pos, seen);
    lemma_primary(s, pos, seen);
}

/// An expression in parentheses is read as the expression.
pub proof fn lemma_reads_group(s: Seq<char>, pos: nat, seen: Seq<Seq<char>>, inner: Parsed)
    requires
        next_is(s, pos, '('),
        relation(s, pos + spaces(s, pos) + 1, seen) == Ok::<Parsed, SelectorError>(inner),
        next_is(s, pos + spaces(s, pos) + 1 + inner.used, ')'),
    ensures
        captured(s, pos, seen) == Ok::<Parsed, SelectorError>(
            Parsed {
                used: (spaces(s, pos) + 1 + inner.used + spaces(
                    s,
                    pos + spaces(s, pos) + 1 + inner.used,
                ) + 1) as nat,
                ..inner
            },
        ),
{
    reveal(name_at);
    lemma_captured(s, pos, seen);
    lemma_primary(s, pos, seen);
}

/// Where no bracket follows, no filter is read.
pub proof fn lemma_no_filters(s: Seq<char>, pos: nat, node: Ast, seen: Seq<Seq<char>>)
    requires
        !next_is(s, pos, '['),
    ensures
        filters(s, pos, node, seen) == Ok::<Parsed, SelectorError>(Parsed { node, used: 0, seen }),
{
    lemma_filters(s, pos, node, seen);
}

/// A name in brackets after an expression is read as a filter on it.
pub proof fn lemma_reads_filter(
    s: Seq<char>,
    pos: nat,
    seen: Seq<Seq<char>>,
    inner: Parsed,
    name: Name,
)
    requires
        captured(s, pos, seen) == Ok::<Parsed, SelectorError>(inner),
        next_is(s, pos + inner.used, '['),
        ({
            let p = pos + inner.used + spaces(s, pos + inner.used);
            let q = p + 1 + spaces(s, p + 1);
            &&& name_at(s, q) == Some(name)
            &&& next_is(s, q + name.used, ']')
            &&& !next_is(s, q + name.used + spaces(s, q + name.used) + 1, '[')
        }),
    ensures
        filtered(s, pos, seen) == Ok::<Parsed, SelectorError>(
            Parsed {
                node: Ast::AttrFilter(Box::new(inner.node), name.text),
                used: ({
                    let p = pos + inner.used + spaces(s, pos + inner.used);
                    let q = p + 1 + spaces(s, p + 1);
                    (q + name.used + spaces(s, q + name.used) + 1 - pos) as nat
                }),
                seen: inner.seen,
            },
        ),
{
    let p = pos + inner.used + spaces(s, pos + inner.used);
    let q = p + 1 + spaces(s, p + 1);
    let r = q + name.used + spaces(s, q + name.used);
    let node = Ast::AttrFilter(Box::new(inner.node), name.text);
    lemma_filtered(s, pos, seen);
    lemma_filters(s, pos + inner.used, inner.node, inner.seen);
    lemma_no_filters(s, r + 1, node, inner.seen);
}

/// An expression that no bracket follows is read without a filter.
pub proof fn lemma_reads_unfiltered(s: Seq<char>, pos: nat, seen: Seq<Seq<char>>, inner: Parsed)
    requires
        captured(s, pos, seen) == Ok::<Parsed, SelectorError>(inner),
        !next_is(s, pos + inner.used, '['),
    ensures
        filtered(s, pos, seen) == Ok::<Parsed, SelectorError>(inner),
{
    lemma_filtered(s, pos, seen);
    lemma_no_filters(s, pos + inner.used, inner.node, inner.seen);
}

/// An expression after an exclamation mark is read as its negation.
pub proof fn lemma_reads_negation(s: Seq<char>, pos: nat, seen: Seq<Seq<char>>, inner: Parsed)
    requires
        next_is(s, pos, '!'),
        filtered(s, pos + spaces(s, pos) + 1, seen) == Ok::<Parsed, SelectorError>(inner),
    ensures
        negated(s, pos, seen) == Ok::<Parsed, SelectorError>(
            Parsed {
                node: Ast::Not(Box::new(inner.node)),
                used: (spaces(s, pos) + 1 + inner.used) as nat,
                seen: inner.seen,
            },
        ),
{
    lemma_negated(s, pos, seen);
}

/// An expression that no exclamation mark precedes is read as it is.
pub proof fn lemma_reads_plain(s: Seq<char>, pos: nat, seen: Seq<Seq<char>>, inner: Parsed)
    requires
        !next_is(s, pos, '!'),
        filtered(s, pos, seen) == Ok::<Parsed, SelectorError>(inner),
    ensures
        negated(s, pos, seen) == Ok::<Parsed, SelectorError>(inner),
{
    lemma_negated(s, pos, seen);
}

/// An expression that no ampersand follows is read as a conjunction of one.
pub proof fn lemma_reads_conjunction(s: Seq<char>, pos: nat, seen: Seq<Seq<char>>, inner: Parsed)
    requires
        negated(s, pos, seen) == Ok::<Parsed, SelectorError>(inner),
        !next_is(s, pos + inner.used, '&'),
    ensures
        conjunction(s, pos, seen) == Ok::<Parsed, SelectorError>(inner),
{
    lemma_conjunction(s, pos, seen);
    lemma_conjuncts(s, pos + inner.used, inner.node, inner.seen);
}

/// Two expressions with an ampersand between them, and none after them, are
/// read as their conjunction.
pub proof fn lemma_reads_both(
    s: Seq<char>,
    pos: nat,
    seen: Seq<Seq<char>>,
    left: Parsed,
    right: Parsed,
)
    requires
        negated(s, pos, seen) == Ok::<Parsed, SelectorError>(left),
        next_is(s, pos + left.used, '&'),
        negated(s, pos + left.used + spaces(s, pos + left.used) + 1, left.seen) == Ok::<
            Parsed,
            SelectorError,
        >(right),
        !next_is(s, pos + left.used + spaces(s, pos + left.used) + 1 + right.used, '&'),
    ensures
        conjunction(s, pos, seen) == Ok::<Parsed, SelectorError>(
            Parsed {
                node: Ast::And(Box::new(left.node), Box::new(right.node)),
                used: (left.used + spaces(s, pos + left.used) + 1 + right.used) as nat,
                seen: right.seen,
            },
        ),
{
    let p = pos + left.used + spaces(s, pos + left.used);
    let both = Ast::And(Box::new(left.node), Box::new(right.node));
    lemma_conjunction(s, pos, seen);
    lemma_conjuncts(s, pos + left.used, left.node, left.seen);
    lemma_conjuncts(s, p + 1 + right.used, both, right.seen);
}

/// Three conjunctions with bars between them, and no bar after them, are
/// read as the alternation of the first two, or the third.
pub proof fn lemma_reads_either_of_three(
    s: Seq<char>,
    pos: nat,
    seen: Seq<Seq<char>>,
    first: Parsed,
    second: Parsed,
    third: Parsed,
)
    requires
        conjunction(s, pos, seen) == Ok::<Parsed, SelectorError>(first),
        next_is(s, pos + first.used, '|'),
        ({
            let p = pos + first.used + spaces(s, pos + first.used) + 1;
            &&& conjunction(s, p, first.seen) == Ok::<Parsed, SelectorError>(second)
            &&& next_is(s, p + second.used, '|')
            &&& ({
                let q = p + second.used + spaces(s, p + second.used) + 1;
                &&& conjunction(s, q, second.seen) == Ok::<Parsed, SelectorError>(third)
                &&& !next_is(s, q + third.used, '|')
            })
        }),
    ensures
        alternation(s, pos, seen) == Ok::<Parsed, SelectorError>(
            Parsed {
                node: Ast::Or(
                    Box::new(Ast::Or(Box::new(first.node), Box::new(second.node))),
                    Box::new(third.node),
                ),
                used: ({
                    let p = pos + first.used + spaces(s, pos + first.used) + 1;
                    let q = p + second.used + spaces(s, p + second.used) + 1;
                    (q + third.used - pos) as nat
                }),
                seen: third.seen,
            },
        ),
{
    let p = pos + first.used + spaces(s, pos + first.used) + 1;
    let q = p + second.used + spaces(s, p + second.used) + 1;
    let two = Ast::Or(Box::new(first.node), Box::new(second.node));
    let three = Ast::Or(Box::new(two), Box::new(third.node));
    lemma_alternation(s, pos, seen);
    lemma_alternatives(s, pos + first.used, first.node, first.seen);
    lemma_alternatives(s, p + second.used, two, second.seen);
    lemma_alternatives(s, q + third.used, three, third.seen);
}

/// A conjunction that no bar follows is read as an alternation of one.
pub proof fn lemma_reads_alternation(s: Seq<char>, pos: nat, seen: Seq<Seq<char>>, inner: Parsed)
    requires
        conjunction(s, pos, seen) == Ok::<Parsed, SelectorError>(inner),
        !next_is(s, pos + inner.used, '|'),
    ensures
        alternation(s, pos, seen) == Ok::<Parsed, SelectorError>(inner),
{
    lemma_alternation(s, pos, seen);
    lemma_alternatives(s, pos + inner.used, inner.node, inner.seen);
}

/// Two conjunctions with a bar between them, and no bar after them, are read
/// as their alternation.
pub proof fn lemma_reads_either(
    s: Seq<char>,
    pos: nat,
    seen: Seq<Seq<char>>,
    left: Parsed,
    right: Parsed,
)
    requires
        conjunction(s, pos, seen) == Ok::<Parsed, SelectorError>(left),
        next_is(s, pos + left.used, '|'),
        conjunction(s, pos + left.used + spaces(s, pos + left.used) + 1, left.seen) == Ok::<
            Parsed,
            SelectorError,
        >(right),
        !next_is(s, pos + left.used + spaces(s, pos + left.used) + 1 + right.used, '|'),
    ensures
        alternation(s, pos, seen) == Ok::<Parsed, SelectorError>(
            Parsed {
                node: Ast::Or(Box::new(left.node), Box::new(right.node)),
                used: (left.used + spaces(s, pos + left.used) + 1 + right.used) as nat,
                seen: right.seen,
            },
        ),
{
    let p = pos + left.used + spaces(s, pos + left.used);
    let both = Ast::Or(Box::new(left.node), Box::new(right.node));
    lemma_alternation(s, pos, seen);
    lemma_alternatives(s, pos + left.used, left.node, left.seen);
    lemma_alternatives(s, p + 1 + right.used, both, right.seen);
}

/// An alternation that no angle follows is read as a relation of one.
pub proof fn lemma_reads_relation(s: Seq<char>, pos: nat, seen: Seq<Seq<char>>, inner: Parsed)
    requires
        alternation(s, pos, seen) == Ok::<Parsed, SelectorError>(inner),
        !next_is(s, pos + inner.used, '>'),
    ensures
        relation(s, pos, seen) == Ok::<Parsed, SelectorError>(inner),
{
    lemma_relation(s, pos, seen);
}

/// An alternation, an angle and a relation are read as child and parents.
pub proof fn lemma_reads_parent(
    s: Seq<char>,
    pos: nat,
    seen: Seq<Seq<char>>,
    child: Parsed,
    parents: Parsed,
)
    requires
        alternation(s, pos, seen) == Ok::<Parsed, SelectorError>(child),
        next_is(s, pos + child.used, '>'),
        relation(s, pos + child.used + spaces(s, pos + child.used) + 1, child.seen) == Ok::<
            Parsed,
            SelectorError,
        >(parents),
    ensures
        relation(s, pos, seen) == Ok::<Parsed, SelectorError>(
            Parsed {
                node: Ast::Parent(Box::new(child.node), Box::new(parents.node)),
                used: (child.used + spaces(s, pos + child.used) + 1 + parents.used) as nat,
                seen: parents.seen,
            },
        ),
{
    lemma_relation(s, pos, seen);
}

/// A stretch of text holds no more operator characters than characters.
pub proof fn lemma_operators_few(s: Seq<char>, from: int, to: int)
    requires
        from <= to,
    ensures
        operators(s, from, to) <= to - from,
    decreases to - from,
{
    reveal(operators);
    if from < to {
        lemma_operators_few(s, from, to - 1);
    }
}

/// A text of no more characters than the bound on operators has no excess.
pub proof fn lemma_short_text(s: Seq<char>, n: int)
    requires
        0 <= n <= s.len(),
        n <= MAX_OPERATORS,
    ensures
        excess(s, n) is None,
    decreases n,
{
    reveal(excess);
    if n > 0 {
        lemma_short_text(s, n - 1);
        lemma_operators_few(s, 0, n);
    }
}

/// A short text that is read as one relation, with nothing but blanks after
/// it, denotes the expression that was read.
pub proof fn lemma_reads_whole(s: Seq<char>, whole: Parsed)
    requires
        s.len() <= MAX_OPERATORS,
        relation(s, 0, Seq::empty()) == Ok::<Parsed, SelectorError>(whole),
        whole.used + spaces(s, whole.used) >= s.len(),
    ensures
        parse_text(s) == Ok::<Ast, SelectorError>(whole.node),
{
    lemma_short_text(s, s.len() as int);
}

} // verus!
