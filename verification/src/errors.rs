use crate::value::Value;
use vstd::prelude::*;

verus! {

/// Which guard clause of a select statement an error refers to.
#[derive(Clone, Copy, PartialEq, Eq, Debug)]
pub enum Clause {
    Where,
    Having,
}

/// Everything this operator can fail with.
///
/// Construction fails only with `NotSelect`; all other variants are per-event
/// evaluation failures and leave the operator usable for the next event.
#[derive(PartialEq, Debug)]
pub enum Error {
    /// The planner handed over a statement that is not a select.
    NotSelect,
    /// A guard clause evaluated to a non-boolean value; carries the statement
    /// identifier, the offending clause and the actual value.
    GuardNotBool { id: String, clause: Clause, value: Value },
    /// Expression nesting exceeded the configured recursion limit.
    RecursionLimit,
    /// A path names a key that the object it reaches does not hold.
    MissingKey,
    /// An operator or a path was applied to values of the wrong kind.
    TypeMismatch,
    /// An expression references a constant outside the statement's table.
    UnknownConst,
    /// A numeric value does not fit the value range of the expression
    /// language.
    Overflow,
}

} // verus!
