use crate::errors::Error;
use crate::expr::Expr;
use crate::value::Value;
use vstd::prelude::*;

verus! {

/// The select part of a statement. The projection target is always the event
/// itself on this fast path, so only the two optional guard clauses remain.
#[derive(PartialEq, Debug)]
pub struct Select {
    pub maybe_where: Option<Expr>,
    pub maybe_having: Option<Expr>,
}

/// The source span of one AST node, kept for diagnostics.
#[derive(Clone, Copy, PartialEq, Eq, Debug)]
pub struct NodeMeta {
    pub start: u64,
    pub end: u64,
}

/// A parsed select statement together with the owned data its AST refers
/// into: the constant table, addressed by `Expr::Const` by position, and the
/// per-node source metadata.
#[derive(PartialEq, Debug)]
pub struct SelectStmt {
    pub stmt: Select,
    pub consts: Vec<Value>,
    pub node_meta: Vec<NodeMeta>,
}

/// A generically-parsed statement, as the planner hands it over.
#[derive(PartialEq, Debug)]
pub enum Stmt {
    Select(SelectStmt),
    Stream,
    Script,
}

/// Owns a select statement's AST together with the data the AST refers
/// into. Every AST reference into that data is an index (constants by
/// position in the owned table), so no node can hold a dangling reference;
/// reading happens through `rent`, which loans the statement to a
/// caller-supplied closure for the duration of a single call, and the
/// closure's result is an owned value that cannot retain the loan.
#[derive(Debug)]
pub struct SelectContainer {
    select_stmt: SelectStmt,
}

impl SelectContainer {
    /// The contained statement, for specification purposes.
    pub closed spec fn stmt_spec(&self) -> SelectStmt {
        self.select_stmt
    }

    /// Converts a generically-parsed statement into the container's
    /// representation; fails if and only if the statement is not a select.
    /// Whether the statement is free of grouping and windowing is the
    /// planner's precondition and is not re-checked here.
    pub fn try_new_from_stmt(stmt: Stmt) -> (r: Result<SelectContainer, Error>)
        ensures
            match stmt {
                Stmt::Select(s) => r matches Ok(c) && c.stmt_spec() == s,
                _ => r == Err::<SelectContainer, Error>(Error::NotSelect),
            },
    {
        match stmt {
            Stmt::Select(s) => Ok(SelectContainer { select_stmt: s }),
            _ => Err(Error::NotSelect),
        }
    }

    /// The scoped loan, the sole read path: invokes the callback with a
    /// borrowed view of the statement, valid for this call alone, and hands
    /// its owned result back.
    pub fn rent<R, F: FnOnce(&SelectStmt) -> R>(&self, f: F) -> (r: R)
        requires
            call_requires(f, (&self.stmt_spec(),)),
        ensures
            call_ensures(f, (&self.stmt_spec(),), r),
    {
        f(&self.select_stmt)
    }

    /// The borrowed statement, for this crate's own per-event gate.
    pub(crate) fn parts(&self) -> (r: &SelectStmt)
        ensures
            *r == self.stmt_spec(),
    {
        &self.select_stmt
    }
}

} // verus!
