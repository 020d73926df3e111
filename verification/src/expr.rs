use crate::value::Value;
use vstd::prelude::*;

verus! {

/// Where a path starts: the event payload or the event metadata.
#[derive(Clone, Copy, PartialEq, Eq, Debug)]
pub enum PathRoot {
    Data,
    Meta,
}

/// A binary operator of the guard expression language. Both operands are
/// always evaluated before the operator is applied.
#[derive(Clone, Copy, PartialEq, Eq, Debug)]
pub enum BinOp {
    And,
    Or,
    Eq,
    Ne,
    Gt,
    Ge,
    Lt,
    Le,
}

/// One node of a guard expression: the tagged sum over node kinds that
/// evaluation dispatches on exhaustively.
#[derive(PartialEq, Debug)]
pub enum Expr {
    /// A literal value.
    Literal(Value),
    /// A reference into the statement's constant table, by position.
    Const(usize),
    /// A dotted path from a root through nested objects.
    Path(PathRoot, Vec<String>),
    /// The context builtin: the event's ingest timestamp.
    Ingest,
    /// Boolean negation.
    Not(Box<Expr>),
    /// A binary operator applied to two sub-expressions.
    Binary(BinOp, Box<Expr>, Box<Expr>),
}

} // verus!
