//! The grammar of selector text, as functions from characters to
//! expressions.
//!
//! In order of decreasing binding strength:
//!
//! ```text
//! primary      := TYPE_NAME | "*" | "(" relation ")"
//! captured     := [NAME ":"] primary
//! filtered     := captured ("[" NAME "]")*
//! negated      := "!" filtered | filtered
//! conjunction  := negated ("&" negated)*
//! alternation  := conjunction ("|" conjunction)*
//! relation     := alternation [">" relation]
//! ```
//!
//! A `NAME` is a run of letters, digits, `-` and `_`, or any non-empty text
//! between double quotes. A `TYPE_NAME` is a run of the same characters that
//! names an entry kind in any letter case. Blanks may stand between tokens.
//! `&` and `|` group to the left; in a chain of `>` every expression is the
//! child of what follows it. A capture name may be used once, and a text may
//! hold no more than [`MAX_OPERATORS`] operator characters.
//!
//! The functions of the grammar are opaque. Each comes with its defining
//! equation as a lemma, so that a proof unfolds them one step at a time.

use crate::kind::type_named;
use crate::selector::ast::Ast;
use crate::text::lowered;
use vstd::prelude::*;

verus! {

/// Why a selector text was refused.
#[derive(Clone, Copy, Debug, PartialEq, Eq, Hash)]
pub enum ErrorKind {
    /// A word stands where a kind of entry is expected and names none.
    UnknownEntryType,
    /// A parenthesis has no partner.
    UnbalancedParens,
    /// A character stands where the grammar allows none like it.
    UnexpectedToken,
    /// The text ends where the grammar asks for more.
    UnexpectedEnd,
    /// A capture name is used a second time.
    DuplicateCapture,
    /// The text holds more operators than [`MAX_OPERATORS`].
    TooComplex,
}

/// A refusal of a selector text: what went wrong, and the offset, counted in
/// characters, at which it did.
#[derive(Clone, Copy, Debug, PartialEq, Eq, Hash)]
pub struct SelectorError {
    /// What went wrong.
    pub kind: ErrorKind,
    /// Where it went wrong.
    pub offset: usize,
}

/// The most operator characters that a selector text may hold. The bound
/// keeps expressions small, and with them the depth to which parsing and
/// matching descend.
pub const MAX_OPERATORS: usize = 128;

/// Whether the character is one of those that make an expression of
/// expressions: `(`, `!`, `&`, `|`, `>`, `[` and `:`.
pub open spec fn is_operator(c: char) -> bool {
    c == '(' || c == '!' || c == '&' || c == '|' || c == '>' || c == '[' || c == ':'
}

/// The number of operator characters at the offsets from `from` up to, and
/// without, `to`.
pub open spec fn operators(s: Seq<char>, from: int, to: int) -> nat
    decreases to - from,
{
    if to <= from {
        0
    } else if 0 <= to - 1 < s.len() && is_operator(s[to - 1]) {
        operators(s, from, to - 1) + 1
    } else {
        operators(s, from, to - 1)
    }
}

/// The offset, among the first `n`, of the operator character with which the
/// text comes to hold more than [`MAX_OPERATORS`] of them.
pub open spec fn excess(s: Seq<char>, n: int) -> Option<int>
    decreases n,
{
    if n <= 0 || n > s.len() {
        None
    } else if excess(s, n - 1) is Some {
        excess(s, n - 1)
    } else if operators(s, 0, n) > MAX_OPERATORS {
        Some(n - 1)
    } else {
        None
    }
}

/// Whether the character is a blank between tokens.
pub open spec fn is_space(c: char) -> bool {
    c == ' ' || c == '\t' || c == '\n' || c == '\r'
}

/// Whether the character can stand in an unquoted name.
pub open spec fn is_name_char(c: char) -> bool {
    ('a' <= c && c <= 'z') || ('A' <= c && c <= 'Z') || ('0' <= c && c <= '9') || c == '-' || c
        == '_'
}

/// The number of blanks at `pos`.
#[verifier::opaque]
pub open spec fn spaces(s: Seq<char>, pos: nat) -> nat
    decreases s.len() - pos,
{
    if pos < s.len() && is_space(s[pos as int]) {
        1 + spaces(s, pos + 1)
    } else {
        0
    }
}

/// The length of the run of name characters at `pos`.
#[verifier::opaque]
pub open spec fn name_len(s: Seq<char>, pos: nat) -> nat
    decreases s.len() - pos,
{
    if pos < s.len() && is_name_char(s[pos as int]) {
        1 + name_len(s, pos + 1)
    } else {
        0
    }
}

/// The number of characters at `pos` that come before the next double quote
/// or the end of the text.
#[verifier::opaque]
pub open spec fn quoted_len(s: Seq<char>, pos: nat) -> nat
    decreases s.len() - pos,
{
    if pos < s.len() && s[pos as int] != '"' {
        1 + quoted_len(s, pos + 1)
    } else {
        0
    }
}

/// A name read from the text.
pub struct Name {
    /// The name, without quotes.
    pub text: Seq<char>,
    /// How many characters the name takes in the text, quotes included.
    pub used: nat,
}

/// The name that starts at `p`, if one does.
#[verifier::opaque]
pub open spec fn name_at(s: Seq<char>, p: nat) -> Option<Name> {
    if p < s.len() && s[p as int] == '"' {
        let n = quoted_len(s, p + 1);
        if n > 0 && p + 1 + n < s.len() {
            Some(Name { text: s.subrange(p + 1 as int, p + 1 + n as int), used: n + 2 })
        } else {
            None
        }
    } else if p < s.len() && is_name_char(s[p as int]) {
        let n = name_len(s, p);
        Some(Name { text: s.subrange(p as int, p + n as int), used: n })
    } else {
        None
    }
}

/// The refusal for a place `p` at which a name is required and none starts.
#[verifier::opaque]
pub open spec fn name_error(s: Seq<char>, p: nat) -> SelectorError {
    if p >= s.len() || (s[p as int] == '"' && p + 1 + quoted_len(s, p + 1) >= s.len()) {
        SelectorError { kind: ErrorKind::UnexpectedEnd, offset: s.len() as usize }
    } else {
        SelectorError { kind: ErrorKind::UnexpectedToken, offset: p as usize }
    }
}

/// An expression read from the text.
pub struct Parsed {
    /// The expression.
    pub node: Ast,
    /// How many characters were read for it.
    pub used: nat,
    /// The capture names met so far, in the order in which they are written.
    pub seen: Seq<Seq<char>>,
}

/// An expression read from the text, or the refusal of the text.
pub type Outcome = Result<Parsed, SelectorError>;

/// The same outcome with `n` more characters read before it.
pub open spec fn after(n: nat, o: Outcome) -> Outcome {
    match o {
        Ok(p) => Ok(Parsed { used: n + p.used, ..p }),
        Err(e) => Err(e),
    }
}

/// How many characters of the text stand at `pos` and after it.
pub open spec fn rest(s: Seq<char>, pos: nat) -> nat {
    if pos <= s.len() {
        (s.len() - pos) as nat
    } else {
        0
    }
}

/// `primary := TYPE_NAME | "*" | "(" relation ")"`
#[verifier::opaque]
pub open spec fn primary(s: Seq<char>, pos: nat, seen: Seq<Seq<char>>) -> Outcome
    decreases rest(s, pos), 0nat,
{
    let p = pos + spaces(s, pos);
    if p >= s.len() {
        Err(SelectorError { kind: ErrorKind::UnexpectedEnd, offset: s.len() as usize })
    } else if s[p as int] == '*' {
        Ok(Parsed { node: Ast::Wildcard, used: (p + 1 - pos) as nat, seen })
    } else if s[p as int] == '(' {
        match relation(s, p + 1, seen) {
            Ok(inner) => {
                let q = p + 1 + inner.used;
                let r = q + spaces(s, q);
                if r >= s.len() {
                    Err(SelectorError { kind: ErrorKind::UnbalancedParens, offset: p as usize })
                } else if s[r as int] == ')' {
                    Ok(Parsed { used: (r + 1 - pos) as nat, ..inner })
                } else {
                    Err(SelectorError { kind: ErrorKind::UnexpectedToken, offset: r as usize })
                }
            },
            Err(e) => Err(e),
        }
    } else if is_name_char(s[p as int]) {
        let n = name_len(s, p);
        match type_named(lowered(s.subrange(p as int, p + n as int))) {
            Some(t) => Ok(Parsed { node: Ast::Type(t), used: (p + n - pos) as nat, seen }),
            None => Err(SelectorError { kind: ErrorKind::UnknownEntryType, offset: p as usize }),
        }
    } else {
        Err(SelectorError { kind: ErrorKind::UnexpectedToken, offset: p as usize })
    }
}

/// `captured := [NAME ":"] primary`
#[verifier::opaque]
pub open spec fn captured(s: Seq<char>, pos: nat, seen: Seq<Seq<char>>) -> Outcome
    decreases rest(s, pos), 1nat,
{
    let p = pos + spaces(s, pos);
    match name_at(s, p) {
        Some(name) => {
            let q = p + name.used;
            let r = q + spaces(s, q);
            if r < s.len() && s[r as int] == ':' {
                if seen.contains(name.text) {
                    Err(SelectorError { kind: ErrorKind::DuplicateCapture, offset: p as usize })
                } else {
                    match primary(s, r + 1, seen.push(name.text)) {
                        Ok(inner) => Ok(
                            Parsed {
                                node: Ast::Capture(name.text, Box::new(inner.node)),
                                used: (r + 1 - pos + inner.used) as nat,
                                seen: inner.seen,
                            },
                        ),
                        Err(e) => Err(e),
                    }
                }
            } else {
                primary(s, pos, seen)
            }
        },
        None => primary(s, pos, seen),
    }
}

/// `("[" NAME "]")*`, applied to the expression `node` that stands before it.
#[verifier::opaque]
pub open spec fn filters(s: Seq<char>, pos: nat, node: Ast, seen: Seq<Seq<char>>) -> Outcome
    decreases rest(s, pos), 2nat,
{
    let p = pos + spaces(s, pos);
    if p < s.len() && s[p as int] == '[' {
        let q = p + 1 + spaces(s, p + 1);
        match name_at(s, q) {
            Some(name) => {
                let r = q + name.used + spaces(s, q + name.used);
                if r >= s.len() {
                    Err(SelectorError { kind: ErrorKind::UnexpectedEnd, offset: s.len() as usize })
                } else if s[r as int] == ']' {
                    after(
                        (r + 1 - pos) as nat,
                        filters(s, r + 1, Ast::AttrFilter(Box::new(node), name.text), seen),
                    )
                } else {
                    Err(SelectorError { kind: ErrorKind::UnexpectedToken, offset: r as usize })
                }
            },
            None => Err(name_error(s, q)),
        }
    } else {
        Ok(Parsed { node, used: 0, seen })
    }
}

/// `filtered := captured ("[" NAME "]")*`
#[verifier::opaque]
pub open spec fn filtered(s: Seq<char>, pos: nat, seen: Seq<Seq<char>>) -> Outcome
    decreases rest(s, pos), 3nat,
{
    match captured(s, pos, seen) {
        Ok(c) => after(c.used, filters(s, pos + c.used, c.node, c.seen)),
        Err(e) => Err(e),
    }
}

/// `negated := "!" filtered | filtered`
#[verifier::opaque]
pub open spec fn negated(s: Seq<char>, pos: nat, seen: Seq<Seq<char>>) -> Outcome
    decreases rest(s, pos), 4nat,
{
    let p = pos + spaces(s, pos);
    if p < s.len() && s[p as int] == '!' {
        match filtered(s, p + 1, seen) {
            Ok(f) => Ok(
                Parsed {
                    node: Ast::Not(Box::new(f.node)),
                    used: (p + 1 - pos + f.used) as nat,
                    seen: f.seen,
                },
            ),
            Err(e) => Err(e),
        }
    } else {
        filtered(s, pos, seen)
    }
}

/// `("&" negated)*`, applied to the expression `lhs` that stands before it.
#[verifier::opaque]
pub open spec fn conjuncts(s: Seq<char>, pos: nat, lhs: Ast, seen: Seq<Seq<char>>) -> Outcome
    decreases rest(s, pos), 5nat,
{
    let p = pos + spaces(s, pos);
    if p < s.len() && s[p as int] == '&' {
        match negated(s, p + 1, seen) {
            Ok(rhs) => after(
                (p + 1 - pos + rhs.used) as nat,
                conjuncts(
                    s,
                    p + 1 + rhs.used,
                    Ast::And(Box::new(lhs), Box::new(rhs.node)),
                    rhs.seen,
                ),
            ),
            Err(e) => Err(e),
        }
    } else {
        Ok(Parsed { node: lhs, used: 0, seen })
    }
}

/// `conjunction := negated ("&" negated)*`
#[verifier::opaque]
pub open spec fn conjunction(s: Seq<char>, pos: nat, seen: Seq<Seq<char>>) -> Outcome
    decreases rest(s, pos), 6nat,
{
    match negated(s, pos, seen) {
        Ok(lhs) => after(lhs.used, conjuncts(s, pos + lhs.used, lhs.node, lhs.seen)),
        Err(e) => Err(e),
    }
}

/// `("|" conjunction)*`, applied to the expression `lhs` that stands before
/// it.
#[verifier::opaque]
pub open spec fn alternatives(s: Seq<char>, pos: nat, lhs: Ast, seen: Seq<Seq<char>>) -> Outcome
    decreases rest(s, pos), 7nat,
{
    let p = pos + spaces(s, pos);
    if p < s.len() && s[p as int] == '|' {
        match conjunction(s, p + 1, seen) {
            Ok(rhs) => after(
                (p + 1 - pos + rhs.used) as nat,
                alternatives(
                    s,
                    p + 1 + rhs.used,
                    Ast::Or(Box::new(lhs), Box::new(rhs.node)),
                    rhs.seen,
                ),
            ),
            Err(e) => Err(e),
        }
    } else {
        Ok(Parsed { node: lhs, used: 0, seen })
    }
}

/// `alternation := conjunction ("|" conjunction)*`
#[verifier::opaque]
pub open spec fn alternation(s: Seq<char>, pos: nat, seen: Seq<Seq<char>>) -> Outcome
    decreases rest(s, pos), 8nat,
{
    match conjunction(s, pos, seen) {
        Ok(lhs) => after(lhs.used, alternatives(s, pos + lhs.used, lhs.node, lhs.seen)),
        Err(e) => Err(e),
    }
}

/// `relation := alternation [">" relation]`: the child to the left, what its
/// parents must satisfy to the right.
#[verifier::opaque]
pub open spec fn relation(s: Seq<char>, pos: nat, seen: Seq<Seq<char>>) -> Outcome
    decreases rest(s, pos), 9nat,
{
    match alternation(s, pos, seen) {
        Ok(child) => {
            let q = pos + child.used;
            let p = q + spaces(s, q);
            if p < s.len() && s[p as int] == '>' {
                match relation(s, p + 1, child.seen) {
                    Ok(anc) => Ok(
                        Parsed {
                            node: Ast::Parent(Box::new(child.node), Box::new(anc.node)),
                            used: (p + 1 - pos + anc.used) as nat,
                            seen: anc.seen,
                        },
                    ),
                    Err(e) => Err(e),
                }
            } else {
                Ok(child)
            }
        },
        Err(e) => Err(e),
    }
}

/// The defining equation of [`primary`].
pub proof fn lemma_primary(s: Seq<char>, pos: nat, seen: Seq<Seq<char>>)
    ensures
        primary(s, pos, seen) == ({
            let p = pos + spaces(s, pos);
            if p >= s.len() {
                Err(SelectorError { kind: ErrorKind::UnexpectedEnd, offset: s.len() as usize })
            } else if s[p as int] == '*' {
                Ok(Parsed { node: Ast::Wildcard, used: (p + 1 - pos) as nat, seen })
            } else if s[p as int] == '(' {
                match relation(s, p + 1, seen) {
                    Ok(inner) => {
                        let q = p + 1 + inner.used;
                        let r = q + spaces(s, q);
                        if r >= s.len() {
                            Err(SelectorError { kind: ErrorKind::UnbalancedParens, offset: p as usize })
                        } else if s[r as int] == ')' {
                            Ok(Parsed { used: (r + 1 - pos) as nat, ..inner })
                        } else {
                            Err(SelectorError { kind: ErrorKind::UnexpectedToken, offset: r as usize })
                        }
                    },
                    Err(e) => Err(e),
                }
            } else if is_name_char(s[p as int]) {
                let n = name_len(s, p);
                match type_named(lowered(s.subrange(p as int, p + n as int))) {
                    Some(t) => Ok(Parsed { node: Ast::Type(t), used: (p + n - pos) as nat, seen }),
                    None => Err(SelectorError { kind: ErrorKind::UnknownEntryType, offset: p as usize }),
                }
            } else {
                Err(SelectorError { kind: ErrorKind::UnexpectedToken, offset: p as usize })
            }
        }),
{
    reveal(primary);
    reveal(relation);
}

/// The defining equation of [`captured`].
pub proof fn lemma_captured(s: Seq<char>, pos: nat, seen: Seq<Seq<char>>)
    ensures
        captured(s, pos, seen) == ({
            let p = pos + spaces(s, pos);
            match name_at(s, p) {
                Some(name) => {
                    let q = p + name.used;
                    let r = q + spaces(s, q);
                    if r < s.len() && s[r as int] == ':' {
                        if seen.contains(name.text) {
                            Err(SelectorError { kind: ErrorKind::DuplicateCapture, offset: p as usize })
                        } else {
                            match primary(s, r + 1, seen.push(name.text)) {
                                Ok(inner) => Ok(
                                    Parsed {
                                        node: Ast::Capture(name.text, Box::new(inner.node)),
                                        used: (r + 1 - pos + inner.used) as nat,
                                        seen: inner.seen,
                                    },
                                ),
                                Err(e) => Err(e),
                            }
                        }
                    } else {
                        primary(s, pos, seen)
                    }
                },
                None => primary(s, pos, seen),
            }
        }),
{
    reveal(captured);
    reveal(primary);
}

/// The defining equation of [`filters`].
pub proof fn lemma_filters(s: Seq<char>, pos: nat, node: Ast, seen: Seq<Seq<char>>)
    ensures
        filters(s, pos, node, seen) == ({
            let p = pos + spaces(s, pos);
            if p < s.len() && s[p as int] == '[' {
                let q = p + 1 + spaces(s, p + 1);
                match name_at(s, q) {
                    Some(name) => {
                        let r = q + name.used + spaces(s, q + name.used);
                        if r >= s.len() {
                            Err(SelectorError { kind: ErrorKind::UnexpectedEnd, offset: s.len() as usize })
                        } else if s[r as int] == ']' {
                            after(
                                (r + 1 - pos) as nat,
                                filters(s, r + 1, Ast::AttrFilter(Box::new(node), name.text), seen),
                            )
                        } else {
                            Err(SelectorError { kind: ErrorKind::UnexpectedToken, offset: r as usize })
                        }
                    },
                    None => Err(name_error(s, q)),
                }
            } else {
                Ok(Parsed { node, used: 0, seen })
            }
        }),
{
    reveal(filters);
}

/// The defining equation of [`filtered`].
pub proof fn lemma_filtered(s: Seq<char>, pos: nat, seen: Seq<Seq<char>>)
    ensures
        filtered(s, pos, seen) == ({
            match captured(s, pos, seen) {
                Ok(c) => after(c.used, filters(s, pos + c.used, c.node, c.seen)),
                Err(e) => Err(e),
            }
        }),
{
    reveal(filtered);
    reveal(captured);
    reveal(filters);
}

/// The defining equation of [`negated`].
pub proof fn lemma_negated(s: Seq<char>, pos: nat, seen: Seq<Seq<char>>)
    ensures
        negated(s, pos, seen) == ({
            let p = pos + spaces(s, pos);
            if p < s.len() && s[p as int] == '!' {
                match filtered(s, p + 1, seen) {
                    Ok(f) => Ok(
                        Parsed {
                            node: Ast::Not(Box::new(f.node)),
                            used: (p + 1 - pos + f.used) as nat,
                            seen: f.seen,
                        },
                    ),
                    Err(e) => Err(e),
                }
            } else {
                filtered(s, pos, seen)
            }
        }),
{
    reveal(negated);
    reveal(filtered);
}

/// The defining equation of [`conjuncts`].
pub proof fn lemma_conjuncts(s: Seq<char>, pos: nat, lhs: Ast, seen: Seq<Seq<char>>)
    ensures
        conjuncts(s, pos, lhs, seen) == ({
            let p = pos + spaces(s, pos);
            if p < s.len() && s[p as int] == '&' {
                match negated(s, p + 1, seen) {
                    Ok(rhs) => after(
                        (p + 1 - pos + rhs.used) as nat,
                        conjuncts(
                            s,
                            p + 1 + rhs.used,
                            Ast::And(Box::new(lhs), Box::new(rhs.node)),
                            rhs.seen,
                        ),
                    ),
                    Err(e) => Err(e),
                }
            } else {
                Ok(Parsed { node: lhs, used: 0, seen })
            }
        }),
{
    reveal(conjuncts);
    reveal(negated);
}

/// The defining equation of [`conjunction`].
pub proof fn lemma_conjunction(s: Seq<char>, pos: nat, seen: Seq<Seq<char>>)
    ensures
        conjunction(s, pos, seen) == ({
            match negated(s, pos, seen) {
                Ok(lhs) => after(lhs.used, conjuncts(s, pos + lhs.used, lhs.node, lhs.seen)),
                Err(e) => Err(e),
            }
        }),
{
    reveal(conjunction);
    reveal(negated);
    reveal(conjuncts);
}

/// The defining equation of [`alternatives`].
pub proof fn lemma_alternatives(s: Seq<char>, pos: nat, lhs: Ast, seen: Seq<Seq<char>>)
    ensures
        alternatives(s, pos, lhs, seen) == ({
            let p = pos + spaces(s, pos);
            if p < s.len() && s[p as int] == '|' {
                match conjunction(s, p + 1, seen) {
                    Ok(rhs) => after(
                        (p + 1 - pos + rhs.used) as nat,
                        alternatives(
                            s,
                            p + 1 + rhs.used,
                            Ast::Or(Box::new(lhs), Box::new(rhs.node)),
                            rhs.seen,
                        ),
                    ),
                    Err(e) => Err(e),
                }
            } else {
                Ok(Parsed { node: lhs, used: 0, seen })
            }
        }),
{
    reveal(alternatives);
    reveal(conjunction);
}

/// The defining equation of [`alternation`].
pub proof fn lemma_alternation(s: Seq<char>, pos: nat, seen: Seq<Seq<char>>)
    ensures
        alternation(s, pos, seen) == ({
            match conjunction(s, pos, seen) {
                Ok(lhs) => after(lhs.used, alternatives(s, pos + lhs.used, lhs.node, lhs.seen)),
                Err(e) => Err(e),
            }
        }),
{
    reveal(alternation);
    reveal(conjunction);
    reveal(alternatives);
}

/// The defining equation of [`relation`].
pub proof fn lemma_relation(s: Seq<char>, pos: nat, seen: Seq<Seq<char>>)
    ensures
        relation(s, pos, seen) == ({
            match alternation(s, pos, seen) {
                Ok(child) => {
                    let q = pos + child.used;
                    let p = q + spaces(s, q);
                    if p < s.len() && s[p as int] == '>' {
                        match relation(s, p + 1, child.seen) {
                            Ok(anc) => Ok(
                                Parsed {
                                    node: Ast::Parent(Box::new(child.node), Box::new(anc.node)),
                                    used: (p + 1 - pos + anc.used) as nat,
                                    seen: anc.seen,
                                },
                            ),
                            Err(e) => Err(e),
                        }
                    } else {
                        Ok(child)
                    }
                },
                Err(e) => Err(e),
            }
        }),
{
    reveal(relation);
    reveal(alternation);
}

/// The expression that a selector text denotes, or the refusal of the text.
///
/// A text with more than [`MAX_OPERATORS`] operator characters is refused
/// before anything else. The whole text must be one `relation`, with nothing
/// but blanks after it.
pub open spec fn parse_text(s: Seq<char>) -> Result<Ast, SelectorError> {
    match excess(s, s.len() as int) {
        Some(p) => Err(SelectorError { kind: ErrorKind::TooComplex, offset: p as usize }),
        None => parse_whole(s),
    }
}

/// The expression that a text denotes as a whole.
pub open spec fn parse_whole(s: Seq<char>) -> Result<Ast, SelectorError> {
    match relation(s, 0, Seq::empty()) {
        Ok(r) => {
            let p = r.used + spaces(s, r.used);
            if p >= s.len() {
                Ok(r.node)
            } else if s[p as int] == ')' {
                Err(SelectorError { kind: ErrorKind::UnbalancedParens, offset: p as usize })
            } else {
                Err(SelectorError { kind: ErrorKind::UnexpectedToken, offset: p as usize })
            }
        },
        Err(e) => Err(e),
    }
}

} // verus!
