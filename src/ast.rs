//! The syntax tree and its model.

use vstd::prelude::*;

use crate::scan::{Token, TokenView};

verus! {

/// A node of the syntax tree. Each node owns its operands; tokens keep the
/// exact lexemes of the source.
#[derive(Debug, PartialEq)]
pub enum Expr {
    /// A numeric constant.
    Literal { literal: Token },
    /// An identifier that is no keyword.
    Variable { name: Token },
    /// One of the reserved identifiers `theta`, `dx`, `dy`, `dtheta`.
    SpecialVariable { name: Token },
    /// Prefix negation (`op` is `Minus`) or postfix factorial (`op` is `Factorial`).
    Unary { op: Token, rhs: Box<Expr> },
    /// An infix operation; implicit multiplication has a `*` operator here.
    Binary { lhs: Box<Expr>, op: Token, rhs: Box<Expr> },
    /// A builtin function applied to arguments.
    Call { name: Token, args: Vec<Expr> },
}

/// The shape of a syntax tree, with each token seen as its kind and lexeme.
pub enum ExprModel {
    Literal(TokenView),
    Variable(TokenView),
    SpecialVariable(TokenView),
    Unary(TokenView, Box<ExprModel>),
    Binary(Box<ExprModel>, TokenView, Box<ExprModel>),
    Call(TokenView, Seq<ExprModel>),
}

impl View for Expr {
    type V = ExprModel;

    open spec fn view(&self) -> ExprModel
        decreases self,
    {
        match self {
            Expr::Literal { literal } => ExprModel::Literal(literal@),
            Expr::Variable { name } => ExprModel::Variable(name@),
            Expr::SpecialVariable { name } => ExprModel::SpecialVariable(name@),
            Expr::Unary { op, rhs } => ExprModel::Unary(op@, Box::new((**rhs).view())),
            Expr::Binary { lhs, op, rhs } => ExprModel::Binary(
                Box::new((**lhs).view()),
                op@,
                Box::new((**rhs).view()),
            ),
            Expr::Call { name, args } => ExprModel::Call(
                name@,
                Seq::new(
                    args@.len(),
                    |i: int|
                        if 0 <= i < args@.len() {
                            args@[i].view()
                        } else {
                            ExprModel::Call(name@, Seq::empty())
                        },
                ),
            ),
        }
    }
}

/// A node without operands.
pub open spec fn is_leaf(e: ExprModel) -> bool {
    e is Literal || e is Variable || e is SpecialVariable
}

/// A unary or binary node with an operand that is not a leaf.
pub open spec fn is_deep(e: ExprModel) -> bool {
    match e {
        ExprModel::Unary(_, rhs) => !is_leaf(*rhs),
        ExprModel::Binary(lhs, _, rhs) => !is_leaf(*rhs) || !is_leaf(*lhs),
        _ => false,
    }
}

impl Expr {
    /// Whether this node has no operands.
    pub fn is_leaf(&self) -> (r: bool)
        ensures
            r == is_leaf(self@),
    {
        match self {
            Expr::Literal { .. } | Expr::Variable { .. } | Expr::SpecialVariable { .. } => true,
            _ => false,
        }
    }

    /// Whether this node has an operand that is itself an operation; a
    /// printer puts such a node in parentheses.
    pub fn deep(&self) -> (r: bool)
        ensures
            r == is_deep(self@),
    {
        match self {
            Expr::Unary { rhs, .. } => !rhs.is_leaf(),
            Expr::Binary { rhs, lhs, .. } => !rhs.is_leaf() || !lhs.is_leaf(),
            _ => false,
        }
    }
}

} // verus!
