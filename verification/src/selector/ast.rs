//! Selector expressions, as they are evaluated and as mathematical values.

use crate::kind::EntryType;
use crate::selector::grammar::MAX_OPERATORS;
use vstd::prelude::*;

verus! {

/// The most expressions that a selector may be made of: as many as a text
/// with [`MAX_OPERATORS`] operator characters can denote.
pub const MAX_NODES: usize = 2 * MAX_OPERATORS + 1;

/// A selector expression.
#[derive(Debug, PartialEq, Eq)]
pub enum Expr {
    /// Matches an entry of exactly this kind.
    Type(EntryType),
    /// Matches any entry.
    Wildcard,
    /// Matches where the inner expression does not.
    Not(Box<Expr>),
    /// Matches where both expressions do.
    And(Box<Expr>, Box<Expr>),
    /// Matches where at least one of the expressions does.
    Or(Box<Expr>, Box<Expr>),
    /// Matches an entry that the first expression matches and whose parents
    /// satisfy the second.
    Parent(Box<Expr>, Box<Expr>),
    /// Matches where the inner expression does and the entry exposes a
    /// non-empty value for the named field.
    AttrFilter(Box<Expr>, String),
    /// Matches where the inner expression does, and records the matched entry
    /// under the name.
    Capture(String, Box<Expr>),
}

/// A selector expression as a mathematical value.
pub enum Ast {
    /// Matches an entry of exactly this kind.
    Type(EntryType),
    /// Matches any entry.
    Wildcard,
    /// Matches where the inner expression does not.
    Not(Box<Ast>),
    /// Matches where both expressions do.
    And(Box<Ast>, Box<Ast>),
    /// Matches where at least one of the expressions does.
    Or(Box<Ast>, Box<Ast>),
    /// Matches an entry that the first expression matches and whose parents
    /// satisfy the second.
    Parent(Box<Ast>, Box<Ast>),
    /// Matches where the inner expression does and the entry exposes a
    /// non-empty value for the named field.
    AttrFilter(Box<Ast>, Seq<char>),
    /// Matches where the inner expression does, and records the matched entry
    /// under the name.
    Capture(Seq<char>, Box<Ast>),
}

/// The mathematical value of an expression.
pub open spec fn ast_of(e: Expr) -> Ast
    decreases e,
{
    match e {
        Expr::Type(t) => Ast::Type(t),
        Expr::Wildcard => Ast::Wildcard,
        Expr::Not(a) => Ast::Not(Box::new(ast_of(*a))),
        Expr::And(a, b) => Ast::And(Box::new(ast_of(*a)), Box::new(ast_of(*b))),
        Expr::Or(a, b) => Ast::Or(Box::new(ast_of(*a)), Box::new(ast_of(*b))),
        Expr::Parent(a, b) => Ast::Parent(Box::new(ast_of(*a)), Box::new(ast_of(*b))),
        Expr::AttrFilter(a, f) => Ast::AttrFilter(Box::new(ast_of(*a)), f@),
        Expr::Capture(n, a) => Ast::Capture(n@, Box::new(ast_of(*a))),
    }
}

impl View for Expr {
    type V = Ast;

    open spec fn view(&self) -> Ast {
        ast_of(*self)
    }
}

impl Clone for Expr {
    fn clone(&self) -> (r: Self)
        ensures
            r@ == self@,
        decreases self,
    {
        match self {
            Expr::Type(t) => Expr::Type(*t),
            Expr::Wildcard => Expr::Wildcard,
            Expr::Not(a) => Expr::Not(Box::new((&**a).clone())),
            Expr::And(a, b) => Expr::And(Box::new((&**a).clone()), Box::new((&**b).clone())),
            Expr::Or(a, b) => Expr::Or(Box::new((&**a).clone()), Box::new((&**b).clone())),
            Expr::Parent(a, b) => Expr::Parent(
                Box::new((&**a).clone()),
                Box::new((&**b).clone()),
            ),
            Expr::AttrFilter(a, f) => Expr::AttrFilter(Box::new((&**a).clone()), f.clone()),
            Expr::Capture(n, a) => Expr::Capture(n.clone(), Box::new((&**a).clone())),
        }
    }
}

impl Ast {
    /// The capture names of the expression, in the order in which they are
    /// written.
    pub open spec fn captures(self) -> Seq<Seq<char>>
        decreases self,
    {
        match self {
            Ast::Type(_) => Seq::empty(),
            Ast::Wildcard => Seq::empty(),
            Ast::Not(a) => a.captures(),
            Ast::And(a, b) => a.captures() + b.captures(),
            Ast::Or(a, b) => a.captures() + b.captures(),
            Ast::Parent(a, b) => a.captures() + b.captures(),
            Ast::AttrFilter(a, _) => a.captures(),
            Ast::Capture(n, a) => seq![n] + a.captures(),
        }
    }

    /// The number of expressions that the expression is made of, itself
    /// included.
    pub open spec fn nodes(self) -> nat
        decreases self,
    {
        match self {
            Ast::Type(_) => 1,
            Ast::Wildcard => 1,
            Ast::Not(a) => 1 + a.nodes(),
            Ast::And(a, b) => 1 + a.nodes() + b.nodes(),
            Ast::Or(a, b) => 1 + a.nodes() + b.nodes(),
            Ast::Parent(a, b) => 1 + a.nodes() + b.nodes(),
            Ast::AttrFilter(a, _) => 1 + a.nodes(),
            Ast::Capture(_, a) => 1 + a.nodes(),
        }
    }

    /// Whether no capture name is used twice and the expression is made of
    /// no more than [`MAX_NODES`] expressions.
    pub open spec fn well_formed(self) -> bool {
        self.captures().no_duplicates() && self.nodes() <= MAX_NODES
    }
}

} // verus!
