//! Expressions, and the traversal of them by a visitor.

use vstd::prelude::*;
use crate::token::{Object, Token};

verus! {

/// An expression: the closed set of node kinds.
#[derive(Debug, PartialEq)]
pub enum Expr {
    Binary(BinaryExpr),
    Grouping(GroupingExpr),
    Unary(UnaryExpr),
    Literal(LiteralExpr),
}

/// Two operands joined by an infix operator.
#[derive(Debug, PartialEq)]
pub struct BinaryExpr {
    pub left: Box<Expr>,
    pub operator: Token,
    pub right: Box<Expr>,
}

/// An expression in parentheses.
#[derive(Debug, PartialEq)]
pub struct GroupingExpr {
    pub expr: Box<Expr>,
}

/// An operand under a prefix operator.
#[derive(Debug, PartialEq)]
pub struct UnaryExpr {
    pub operator: Token,
    pub right: Box<Expr>,
}

/// A literal value.
#[derive(Debug, PartialEq)]
pub struct LiteralExpr {
    pub value: Object,
}

/// A traversal of expressions that yields a `T`: one operation for each kind
/// of node.
///
/// For each operation a visitor may say which nodes it accepts and which
/// results it may yield for a node; one that does not say so accepts every
/// node and promises nothing of its results.
pub trait ExprVisitor<T> {
    open spec fn accepts_binary(&self, binary: &BinaryExpr) -> bool {
        true
    }

    open spec fn yields_binary(&self, binary: &BinaryExpr, result: T) -> bool {
        true
    }

    open spec fn accepts_grouping(&self, grouping: &GroupingExpr) -> bool {
        true
    }

    open spec fn yields_grouping(&self, grouping: &GroupingExpr, result: T) -> bool {
        true
    }

    open spec fn accepts_unary(&self, unary: &UnaryExpr) -> bool {
        true
    }

    open spec fn yields_unary(&self, unary: &UnaryExpr, result: T) -> bool {
        true
    }

    open spec fn accepts_literal(&self, literal: &LiteralExpr) -> bool {
        true
    }

    open spec fn yields_literal(&self, literal: &LiteralExpr, result: T) -> bool {
        true
    }

    fn visit_binary(&self, binary: &BinaryExpr) -> (result: T)
        requires
            self.accepts_binary(binary),
        ensures
            self.yields_binary(binary, result),
    ;

    fn visit_grouping(&self, grouping: &GroupingExpr) -> (result: T)
        requires
            self.accepts_grouping(grouping),
        ensures
            self.yields_grouping(grouping, result),
    ;

    fn visit_unary(&self, unary: &UnaryExpr) -> (result: T)
        requires
            self.accepts_unary(unary),
        ensures
            self.yields_unary(unary, result),
    ;

    fn visit_literal(&self, literal: &LiteralExpr) -> (result: T)
        requires
            self.accepts_literal(literal),
        ensures
            self.yields_literal(literal, result),
    ;
}

/// `visitor` accepts `expr`: the operation for its kind accepts the node.
pub open spec fn accepts<T, V: ExprVisitor<T>>(visitor: &V, expr: &Expr) -> bool {
    match expr {
        Expr::Binary(binary) => visitor.accepts_binary(binary),
        Expr::Grouping(grouping) => visitor.accepts_grouping(grouping),
        Expr::Unary(unary) => visitor.accepts_unary(unary),
        Expr::Literal(literal) => visitor.accepts_literal(literal),
    }
}

/// `visitor` may yield `result` for `expr`: the operation for its kind may
/// yield it for the node.
pub open spec fn yields<T, V: ExprVisitor<T>>(visitor: &V, expr: &Expr, result: T) -> bool {
    match expr {
        Expr::Binary(binary) => visitor.yields_binary(binary, result),
        Expr::Grouping(grouping) => visitor.yields_grouping(grouping, result),
        Expr::Unary(unary) => visitor.yields_unary(unary, result),
        Expr::Literal(literal) => visitor.yields_literal(literal, result),
    }
}

impl BinaryExpr {
    pub fn accept<T, V: ExprVisitor<T>>(&self, visitor: &V) -> (result: T)
        requires
            visitor.accepts_binary(self),
        ensures
            visitor.yields_binary(self, result),
    {
        visitor.visit_binary(self)
    }
}

impl GroupingExpr {
    pub fn accept<T, V: ExprVisitor<T>>(&self, visitor: &V) -> (result: T)
        requires
            visitor.accepts_grouping(self),
        ensures
            visitor.yields_grouping(self, result),
    {
        visitor.visit_grouping(self)
    }
}

impl UnaryExpr {
    pub fn accept<T, V: ExprVisitor<T>>(&self, visitor: &V) -> (result: T)
        requires
            visitor.accepts_unary(self),
        ensures
            visitor.yields_unary(self, result),
    {
        visitor.visit_unary(self)
    }
}

impl LiteralExpr {
    pub fn accept<T, V: ExprVisitor<T>>(&self, visitor: &V) -> (result: T)
        requires
            visitor.accepts_literal(self),
        ensures
            visitor.yields_literal(self, result),
    {
        visitor.visit_literal(self)
    }
}

impl Expr {
    /// Invokes the operation of `visitor` that matches the kind of this node.
    pub fn accept<T, V: ExprVisitor<T>>(&self, visitor: &V) -> (result: T)
        requires
            accepts(visitor, self),
        ensures
            yields(visitor, self, result),
    {
        match self {
            Expr::Binary(binary) => binary.accept(visitor),
            Expr::Grouping(grouping) => grouping.accept(visitor),
            Expr::Unary(unary) => unary.accept(visitor),
            Expr::Literal(literal) => literal.accept(visitor),
        }
    }
}

} // verus!
