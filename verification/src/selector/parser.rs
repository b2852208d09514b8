//! The parser of selector text: a recursive descent that follows the
//! grammar function by function.

use crate::kind::type_by_name;
use crate::selector::ast::{Ast, Expr};
use crate::selector::grammar::{
    alternation, alternatives, captured, conjunction, conjuncts, excess, filtered, filters,
    is_name_char, is_operator, is_space, name_at, name_error, name_len, negated, operators,
    parse_text, primary, quoted_len, relation, rest, spaces, ErrorKind, Outcome, SelectorError,
    MAX_OPERATORS,
};
use crate::text::{chars_of, same_text, texts};
use vstd::prelude::*;

verus! {

/// An expression read by the parser.
pub struct Step {
    /// The expression.
    pub node: Expr,
    /// The offset of the first character that was not read.
    pub next: usize,
    /// The capture names met so far.
    pub seen: Vec<String>,
}

/// Whether what the parser returned, started at `pos` in a text of `len`
/// characters, is what the grammar says.
pub open spec fn agrees(r: Result<Step, SelectorError>, o: Outcome, pos: usize, len: usize) -> bool {
    match r {
        Ok(step) => {
            &&& o is Ok
            &&& step.node@ == o->Ok_0.node
            &&& step.next == pos + o->Ok_0.used
            &&& step.next <= len
            &&& texts(step.seen@) == o->Ok_0.seen
        },
        Err(e) => o == Err::<crate::selector::grammar::Parsed, SelectorError>(e),
    }
}

/// Whether the character is a blank between tokens.
fn space_char(c: char) -> (r: bool)
    ensures
        r == is_space(c),
{
    c == ' ' || c == '\t' || c == '\n' || c == '\r'
}

/// Whether the character can stand in an unquoted name.
fn name_char(c: char) -> (r: bool)
    ensures
        r == is_name_char(c),
{
    ('a' <= c && c <= 'z') || ('A' <= c && c <= 'Z') || ('0' <= c && c <= '9') || c == '-' || c
        == '_'
}

/// The offset of the first character at or after `pos` that is no blank.
fn skip_spaces(chars: &Vec<char>, pos: usize) -> (p: usize)
    requires
        pos <= chars.len(),
    ensures
        p == pos + spaces(chars@, pos as nat),
        p <= chars.len(),
{
    reveal(spaces);
    let mut p = pos;
    while p < chars.len() && space_char(chars[p])
        invariant
            pos <= p <= chars.len(),
            p + spaces(chars@, p as nat) == pos + spaces(chars@, pos as nat),
        decreases chars.len() - p,
    {
        reveal(spaces);
        p += 1;
    }
    p
}

/// The length of the run of name characters at `pos`.
fn name_run(chars: &Vec<char>, pos: usize) -> (n: usize)
    requires
        pos <= chars.len(),
    ensures
        n == name_len(chars@, pos as nat),
        pos + n <= chars.len(),
{
    reveal(name_len);
    let mut p = pos;
    while p < chars.len() && name_char(chars[p])
        invariant
            pos <= p <= chars.len(),
            p + name_len(chars@, p as nat) == pos + name_len(chars@, pos as nat),
        decreases chars.len() - p,
    {
        reveal(name_len);
        p += 1;
    }
    p - pos
}

/// The number of characters at `pos` before the next double quote.
fn quoted_run(chars: &Vec<char>, pos: usize) -> (n: usize)
    requires
        pos <= chars.len(),
    ensures
        n == quoted_len(chars@, pos as nat),
        pos + n <= chars.len(),
{
    reveal(quoted_len);
    let mut p = pos;
    while p < chars.len() && chars[p] != '"'
        invariant
            pos <= p <= chars.len(),
            p + quoted_len(chars@, p as nat) == pos + quoted_len(chars@, pos as nat),
        decreases chars.len() - p,
    {
        reveal(quoted_len);
        p += 1;
    }
    p - pos
}

/// A name read by the parser.
pub struct Word {
    /// The name, without quotes.
    pub text: String,
    /// How many characters the name takes in the text, quotes included.
    pub used: usize,
}

/// Reads the name that starts at `p`.
fn read_name(text: &str, chars: &Vec<char>, p: usize) -> (r: Option<Word>)
    requires
        chars@ == text@,
        p <= chars.len(),
    ensures
        r is Some == name_at(chars@, p as nat) is Some,
        r is Some ==> r->0.text@ == name_at(chars@, p as nat)->0.text,
        r is Some ==> r->0.used == name_at(chars@, p as nat)->0.used,
        r is Some ==> r->0.used > 0,
        r is Some ==> p + r->0.used <= chars.len(),
{
    reveal(name_at);
    reveal(name_len);
    if p < chars.len() && chars[p] == '"' {
        let n = quoted_run(chars, p + 1);
        if n > 0 && p + 1 + n < chars.len() {
            let name = text.substring_char(p + 1, p + 1 + n).to_owned();
            Some(Word { text: name, used: n + 2 })
        } else {
            None
        }
    } else if p < chars.len() && name_char(chars[p]) {
        let n = name_run(chars, p);
        let name = text.substring_char(p, p + n).to_owned();
        Some(Word { text: name, used: n })
    } else {
        None
    }
}

/// The refusal for a place at which a name is required and none starts.
fn name_failure(chars: &Vec<char>, p: usize) -> (e: SelectorError)
    requires
        p <= chars.len(),
    ensures
        e == name_error(chars@, p as nat),
{
    reveal(name_error);
    reveal(quoted_len);
    if p >= chars.len() {
        return SelectorError { kind: ErrorKind::UnexpectedEnd, offset: chars.len() };
    }
    if chars[p] == '"' {
        let n = quoted_run(chars, p + 1);
        if p + 1 + n >= chars.len() {
            return SelectorError { kind: ErrorKind::UnexpectedEnd, offset: chars.len() };
        }
    }
    SelectorError { kind: ErrorKind::UnexpectedToken, offset: p }
}

/// Whether the name is among the capture names met so far.
fn seen_before(seen: &Vec<String>, name: &str) -> (r: bool)
    ensures
        r == texts(seen@).contains(name@),
{
    let mut i: usize = 0;
    while i < seen.len()
        invariant
            i <= seen.len(),
            forall|j: int| 0 <= j < i ==> texts(seen@)[j] != name@,
        decreases seen.len() - i,
    {
        if same_text(seen[i].as_str(), name) {
            assert(texts(seen@)[i as int] == name@);
            return true;
        }
        i += 1;
    }
    false
}

/// Reads a `primary` at `pos`.
fn parse_primary(text: &str, chars: &Vec<char>, pos: usize, seen: Vec<String>) -> (r: Result<
    Step,
    SelectorError,
>)
    requires
        chars@ == text@,
        pos <= chars.len(),
    ensures
        agrees(r, primary(chars@, pos as nat, texts(seen@)), pos, chars.len()),
    decreases rest(chars@, pos as nat), 0nat,
{
    proof {
        crate::selector::grammar::lemma_primary(chars@, pos as nat, texts(seen@));
    }
    let p = skip_spaces(chars, pos);
    if p >= chars.len() {
        Err(SelectorError { kind: ErrorKind::UnexpectedEnd, offset: chars.len() })
    } else if chars[p] == '*' {
        Ok(Step { node: Expr::Wildcard, next: p + 1, seen })
    } else if chars[p] == '(' {
        match parse_relation(text, chars, p + 1, seen) {
            Ok(inner) => {
                let r = skip_spaces(chars, inner.next);
                if r >= chars.len() {
                    Err(SelectorError { kind: ErrorKind::UnbalancedParens, offset: p })
                } else if chars[r] == ')' {
                    Ok(Step { node: inner.node, next: r + 1, seen: inner.seen })
                } else {
                    Err(SelectorError { kind: ErrorKind::UnexpectedToken, offset: r })
                }
            },
            Err(e) => Err(e),
        }
    } else if name_char(chars[p]) {
        let n = name_run(chars, p);
        match type_by_name(chars, p, p + n) {
            Some(t) => Ok(Step { node: Expr::Type(t), next: p + n, seen }),
            None => Err(SelectorError { kind: ErrorKind::UnknownEntryType, offset: p }),
        }
    } else {
        Err(SelectorError { kind: ErrorKind::UnexpectedToken, offset: p })
    }
}

/// Reads a `captured` at `pos`.
fn parse_captured(text: &str, chars: &Vec<char>, pos: usize, seen: Vec<String>) -> (r: Result<
    Step,
    SelectorError,
>)
    requires
        chars@ == text@,
        pos <= chars.len(),
    ensures
        agrees(r, captured(chars@, pos as nat, texts(seen@)), pos, chars.len()),
    decreases rest(chars@, pos as nat), 1nat,
{
    proof {
        crate::selector::grammar::lemma_captured(chars@, pos as nat, texts(seen@));
    }
    let p = skip_spaces(chars, pos);
    match read_name(text, chars, p) {
        Some(word) => {
            let used = word.used;
            let name = word.text;
            let r = skip_spaces(chars, p + used);
            if r < chars.len() && chars[r] == ':' {
                if seen_before(&seen, name.as_str()) {
                    Err(SelectorError { kind: ErrorKind::DuplicateCapture, offset: p })
                } else {
                    let mut seen = seen;
                    let ghost before = texts(seen@);
                    seen.push(name.clone());
                    assert(texts(seen@) =~= before.push(name@));
                    match parse_primary(text, chars, r + 1, seen) {
                        Ok(inner) => Ok(
                            Step {
                                node: Expr::Capture(name, Box::new(inner.node)),
                                next: inner.next,
                                seen: inner.seen,
                            },
                        ),
                        Err(e) => Err(e),
                    }
                }
            } else {
                parse_primary(text, chars, pos, seen)
            }
        },
        None => parse_primary(text, chars, pos, seen),
    }
}

/// Reads the filters that follow the expression `node` at `pos`.
fn parse_filters(text: &str, chars: &Vec<char>, pos: usize, node: Expr, seen: Vec<String>) -> (r:
    Result<Step, SelectorError>)
    requires
        chars@ == text@,
        pos <= chars.len(),
    ensures
        agrees(r, filters(chars@, pos as nat, node@, texts(seen@)), pos, chars.len()),
    decreases rest(chars@, pos as nat), 2nat,
{
    proof {
        crate::selector::grammar::lemma_filters(chars@, pos as nat, node@, texts(seen@));
    }
    let p = skip_spaces(chars, pos);
    if p < chars.len() && chars[p] == '[' {
        let q = skip_spaces(chars, p + 1);
        match read_name(text, chars, q) {
            Some(word) => {
                let used = word.used;
                let name = word.text;
                let r = skip_spaces(chars, q + used);
                if r >= chars.len() {
                    Err(SelectorError { kind: ErrorKind::UnexpectedEnd, offset: chars.len() })
                } else if chars[r] == ']' {
                    parse_filters(text, chars, r + 1, Expr::AttrFilter(Box::new(node), name), seen)
                } else {
                    Err(SelectorError { kind: ErrorKind::UnexpectedToken, offset: r })
                }
            },
            None => Err(name_failure(chars, q)),
        }
    } else {
        Ok(Step { node, next: pos, seen })
    }
}

/// Reads a `filtered` at `pos`.
fn parse_filtered(text: &str, chars: &Vec<char>, pos: usize, seen: Vec<String>) -> (r: Result<
    Step,
    SelectorError,
>)
    requires
        chars@ == text@,
        pos <= chars.len(),
    ensures
        agrees(r, filtered(chars@, pos as nat, texts(seen@)), pos, chars.len()),
    decreases rest(chars@, pos as nat), 3nat,
{
    proof {
        crate::selector::grammar::lemma_filtered(chars@, pos as nat, texts(seen@));
    }
    match parse_captured(text, chars, pos, seen) {
        Ok(c) => parse_filters(text, chars, c.next, c.node, c.seen),
        Err(e) => Err(e),
    }
}

/// Reads a `negated` at `pos`.
fn parse_negated(text: &str, chars: &Vec<char>, pos: usize, seen: Vec<String>) -> (r: Result<
    Step,
    SelectorError,
>)
    requires
        chars@ == text@,
        pos <= chars.len(),
    ensures
        agrees(r, negated(chars@, pos as nat, texts(seen@)), pos, chars.len()),
    decreases rest(chars@, pos as nat), 4nat,
{
    proof {
        crate::selector::grammar::lemma_negated(chars@, pos as nat, texts(seen@));
    }
    let p = skip_spaces(chars, pos);
    if p < chars.len() && chars[p] == '!' {
        match parse_filtered(text, chars, p + 1, seen) {
            Ok(f) => Ok(Step { node: Expr::Not(Box::new(f.node)), next: f.next, seen: f.seen }),
            Err(e) => Err(e),
        }
    } else {
        parse_filtered(text, chars, pos, seen)
    }
}

/// Reads the conjuncts that follow the expression `lhs` at `pos`.
fn parse_conjuncts(text: &str, chars: &Vec<char>, pos: usize, lhs: Expr, seen: Vec<String>) -> (r:
    Result<Step, SelectorError>)
    requires
        chars@ == text@,
        pos <= chars.len(),
    ensures
        agrees(r, conjuncts(chars@, pos as nat, lhs@, texts(seen@)), pos, chars.len()),
    decreases rest(chars@, pos as nat), 5nat,
{
    proof {
        crate::selector::grammar::lemma_conjuncts(chars@, pos as nat, lhs@, texts(seen@));
    }
    let p = skip_spaces(chars, pos);
    if p < chars.len() && chars[p] == '&' {
        match parse_negated(text, chars, p + 1, seen) {
            Ok(rhs) => parse_conjuncts(
                text,
                chars,
                rhs.next,
                Expr::And(Box::new(lhs), Box::new(rhs.node)),
                rhs.seen,
            ),
            Err(e) => Err(e),
        }
    } else {
        Ok(Step { node: lhs, next: pos, seen })
    }
}

/// Reads a `conjunction` at `pos`.
fn parse_conjunction(text: &str, chars: &Vec<char>, pos: usize, seen: Vec<String>) -> (r: Result<
    Step,
    SelectorError,
>)
    requires
        chars@ == text@,
        pos <= chars.len(),
    ensures
        agrees(r, conjunction(chars@, pos as nat, texts(seen@)), pos, chars.len()),
    decreases rest(chars@, pos as nat), 6nat,
{
    proof {
        crate::selector::grammar::lemma_conjunction(chars@, pos as nat, texts(seen@));
    }
    match parse_negated(text, chars, pos, seen) {
        Ok(lhs) => parse_conjuncts(text, chars, lhs.next, lhs.node, lhs.seen),
        Err(e) => Err(e),
    }
}

/// Reads the alternatives that follow the expression `lhs` at `pos`.
fn parse_alternatives(
    text: &str,
    chars: &Vec<char>,
    pos: usize,
    lhs: Expr,
    seen: Vec<String>,
) -> (r: Result<Step, SelectorError>)
    requires
        chars@ == text@,
        pos <= chars.len(),
    ensures
        agrees(r, alternatives(chars@, pos as nat, lhs@, texts(seen@)), pos, chars.len()),
    decreases rest(chars@, pos as nat), 7nat,
{
    proof {
        crate::selector::grammar::lemma_alternatives(chars@, pos as nat, lhs@, texts(seen@));
    }
    let p = skip_spaces(chars, pos);
    if p < chars.len() && chars[p] == '|' {
        match parse_conjunction(text, chars, p + 1, seen) {
            Ok(rhs) => parse_alternatives(
                text,
                chars,
                rhs.next,
                Expr::Or(Box::new(lhs), Box::new(rhs.node)),
                rhs.seen,
            ),
            Err(e) => Err(e),
        }
    } else {
        Ok(Step { node: lhs, next: pos, seen })
    }
}

/// Reads an `alternation` at `pos`.
fn parse_alternation(text: &str, chars: &Vec<char>, pos: usize, seen: Vec<String>) -> (r: Result<
    Step,
    SelectorError,
>)
    requires
        chars@ == text@,
        pos <= chars.len(),
    ensures
        agrees(r, alternation(chars@, pos as nat, texts(seen@)), pos, chars.len()),
    decreases rest(chars@, pos as nat), 8nat,
{
    proof {
        crate::selector::grammar::lemma_alternation(chars@, pos as nat, texts(seen@));
    }
    match parse_conjunction(text, chars, pos, seen) {
        Ok(lhs) => parse_alternatives(text, chars, lhs.next, lhs.node, lhs.seen),
        Err(e) => Err(e),
    }
}

/// Reads a `relation` at `pos`.
fn parse_relation(text: &str, chars: &Vec<char>, pos: usize, seen: Vec<String>) -> (r: Result<
    Step,
    SelectorError,
>)
    requires
        chars@ == text@,
        pos <= chars.len(),
    ensures
        agrees(r, relation(chars@, pos as nat, texts(seen@)), pos, chars.len()),
    decreases rest(chars@, pos as nat), 9nat,
{
    proof {
        crate::selector::grammar::lemma_relation(chars@, pos as nat, texts(seen@));
    }
    match parse_alternation(text, chars, pos, seen) {
        Ok(child) => {
            let p = skip_spaces(chars, child.next);
            if p < chars.len() && chars[p] == '>' {
                match parse_relation(text, chars, p + 1, child.seen) {
                    Ok(anc) => Ok(
                        Step {
                            node: Expr::Parent(Box::new(child.node), Box::new(anc.node)),
                            next: anc.next,
                            seen: anc.seen,
                        },
                    ),
                    Err(e) => Err(e),
                }
            } else {
                Ok(child)
            }
        },
        Err(e) => Err(e),
    }
}

/// Whether the character is an operator character.
fn operator_char(c: char) -> (r: bool)
    ensures
        r == is_operator(c),
{
    c == '(' || c == '!' || c == '&' || c == '|' || c == '>' || c == '[' || c == ':'
}

/// The offset of the operator character with which the text comes to hold
/// too many of them.
fn find_excess(chars: &Vec<char>) -> (r: Option<usize>)
    ensures
        match r {
            Some(p) => excess(chars@, chars.len() as int) == Some(p as int),
            None => excess(chars@, chars.len() as int) is None,
        },
{
    let mut count: usize = 0;
    let mut i: usize = 0;
    while i < chars.len()
        invariant
            i <= chars.len(),
            count == operators(chars@, 0, i as int),
            count <= MAX_OPERATORS,
            excess(chars@, i as int) is None,
        decreases chars.len() - i,
    {
        if operator_char(chars[i]) {
            if count == MAX_OPERATORS {
                proof {
                    lemma_excess_stays(chars@, i as int + 1, chars.len() as int);
                }
                return Some(i);
            }
            count += 1;
        }
        i += 1;
    }
    None
}

/// An excess stays where it is when more characters follow.
pub proof fn lemma_excess_stays(s: Seq<char>, n: int, m: int)
    requires
        0 <= n <= m <= s.len(),
        excess(s, n) is Some,
    ensures
        excess(s, m) == excess(s, n),
    decreases m,
{
    if n < m {
        lemma_excess_stays(s, n, m - 1);
    }
}

/// Parses a selector text into the expression it denotes, or refuses it with
/// the place of the first fault.
pub fn parse_expr(text: &str) -> (r: Result<Expr, SelectorError>)
    ensures
        match r {
            Ok(e) => parse_text(text@) == Ok::<Ast, SelectorError>(e@),
            Err(e) => parse_text(text@) == Err::<Ast, SelectorError>(e),
        },
{
    let chars = chars_of(text);
    match find_excess(&chars) {
        Some(p) => {
            return Err(SelectorError { kind: ErrorKind::TooComplex, offset: p });
        },
        None => {},
    }
    let seen: Vec<String> = Vec::new();
    assert(texts(seen@) =~= Seq::<Seq<char>>::empty());
    match parse_relation(text, &chars, 0, seen) {
        Ok(step) => {
            let p = skip_spaces(&chars, step.next);
            if p >= chars.len() {
                Ok(step.node)
            } else if chars[p] == ')' {
                Err(SelectorError { kind: ErrorKind::UnbalancedParens, offset: p })
            } else {
                Err(SelectorError { kind: ErrorKind::UnexpectedToken, offset: p })
            }
        },
        Err(e) => Err(e),
    }
}

} // verus!
