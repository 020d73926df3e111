//! A fast-path filter operator for a streaming event pipeline.
//!
//! Given a parsed select statement with no grouping and no windowing, the
//! operator decides per event whether the event passes an optional where
//! clause and an optional having clause, forwarding the event unchanged when
//! both pass and suppressing it otherwise.

mod context;
mod errors;
mod eval;
mod event;
mod expr;
mod laws;
mod op;
mod stmt;
mod value;

pub use context::EventContext;
pub use errors::{Clause, Error};
pub use eval::{
    apply_binop, eval_spec, evaluate, path_root_value, walk_from, AggrType, ExecOpts, LocalStack,
};
pub use event::{Event, EventAndInsights};
pub use expr::{BinOp, Expr, PathRoot};
pub use laws::{
    lemma_both_guards_true_forwards, lemma_having_false_drops, lemma_having_not_bool_fails,
    lemma_no_guards_is_pass_through, lemma_where_false_drops, lemma_where_not_bool_fails,
};
pub use op::{clause_outcome, having_outcome, select_outcome, Outcome, SimpleSelect};
pub use stmt::{NodeMeta, Select, SelectContainer, SelectStmt, Stmt};
pub use value::{obj_equiv, obj_get, obj_lookup, val_equiv, value_eq, Obj, Value};
