use crate::context::EventContext;
use crate::errors::{Clause, Error};
use crate::eval::{eval_spec, evaluate, AggrType, ExecOpts, LocalStack};
use crate::event::{Event, EventAndInsights};
use crate::expr::Expr;
use crate::stmt::{Select, SelectContainer, SelectStmt, Stmt};
use crate::value::Value;
use vstd::prelude::*;

verus! {

/// What handling one event comes to: forwarded unchanged, silently dropped,
/// stopped by a guard that evaluated to a non-boolean value, or failed
/// during evaluation.
#[derive(PartialEq, Debug)]
pub enum Outcome {
    Forwarded,
    Dropped,
    BadGuard(Clause, Value),
    Failed(Error),
}

/// What one guard clause decides: `None` to continue with the event, or the
/// outcome that stops its processing.
pub open spec fn clause_outcome(
    g: Expr,
    clause: Clause,
    ingest_ns: u64,
    consts: Seq<Value>,
    data: Value,
    meta: Value,
    limit: nat,
) -> Option<Outcome> {
    match eval_spec(g, ingest_ns, consts, data, meta, limit) {
        Ok(Value::Bool(true)) => None,
        Ok(Value::Bool(false)) => Some(Outcome::Dropped),
        Ok(v) => Some(Outcome::BadGuard(clause, v)),
        Err(e) => Some(Outcome::Failed(e)),
    }
}

/// The outcome of the having gate alone: pass when the clause is absent or
/// evaluates to boolean true.
pub open spec fn having_outcome(
    sel: Select,
    ingest_ns: u64,
    consts: Seq<Value>,
    data: Value,
    meta: Value,
    limit: nat,
) -> Outcome {
    match sel.maybe_having {
        Some(h) => match clause_outcome(h, Clause::Having, ingest_ns, consts, data, meta, limit) {
            Some(o) => o,
            None => Outcome::Forwarded,
        },
        None => Outcome::Forwarded,
    }
}

/// The outcome of one event under a select statement: the where gate first,
/// then the having gate; an absent clause passes, a false clause drops the
/// event, a non-boolean clause stops with its value, an evaluation error
/// stops with that error.
pub open spec fn select_outcome(
    sel: Select,
    ingest_ns: u64,
    consts: Seq<Value>,
    data: Value,
    meta: Value,
    limit: nat,
) -> Outcome {
    match sel.maybe_where {
        Some(w) => match clause_outcome(w, Clause::Where, ingest_ns, consts, data, meta, limit) {
            Some(o) => o,
            None => having_outcome(sel, ingest_ns, consts, data, meta, limit),
        },
        None => having_outcome(sel, ingest_ns, consts, data, meta, limit),
    }
}

/// The fast-path filter operator for a select of the form
/// `select event from in [where ...] into out [having ...]`:
/// no grouping, no windows, no projection beyond the event itself.
#[derive(Debug)]
pub struct SimpleSelect {
    pub id: String,
    pub(crate) select: SelectContainer,
    recursion_limit: u32,
}

impl SimpleSelect {
    /// The contained statement, for specification purposes.
    pub closed spec fn stmt_spec(&self) -> SelectStmt {
        self.select.stmt_spec()
    }

    /// The evaluator's recursion bound, for specification purposes.
    pub closed spec fn recursion_limit_spec(&self) -> u32 {
        self.recursion_limit
    }

    /// The operator's statement identifier, for specification purposes.
    pub closed spec fn id_spec(&self) -> String {
        self.id
    }

    /// Builds the operator from a planner-supplied statement and the
    /// configured recursion limit; fails if and only if the statement is not
    /// a select.
    pub fn with_stmt(id: String, stmt: Stmt, recursion_limit: u32) -> (r: Result<
        SimpleSelect,
        Error,
    >)
        ensures
            match stmt {
                Stmt::Select(s) => r matches Ok(op) && op.stmt_spec() == s && op.id_spec() == id
                    && op.recursion_limit_spec() == recursion_limit,
                _ => r == Err::<SimpleSelect, Error>(Error::NotSelect),
            },
    {
        match SelectContainer::try_new_from_stmt(stmt) {
            Ok(select) => Ok(SimpleSelect { id, select, recursion_limit }),
            Err(e) => Err(e),
        }
    }

    /// The evaluation options every guard runs under.
    fn opts() -> (r: ExecOpts)
        ensures
            r.result_needed,
            r.aggr == AggrType::Emit,
    {
        ExecOpts { result_needed: true, aggr: AggrType::Emit }
    }

    /// Handles one event: builds the context, runs the where gate and then
    /// the having gate inside a loan of the statement, and forwards the
    /// unchanged event exactly when both pass. The shared state is plumbed
    /// through untouched, and no insight signal is ever attached.
    pub fn on_event(&mut self, _uid: u64, _port: &str, state: &mut Value, event: Event) -> (r: Result<
        EventAndInsights,
        Error,
    >)
        ensures
            *final(self) == *old(self),
            *final(state) == *old(state),
            ({
                let oc = select_outcome(
                    old(self).stmt_spec().stmt,
                    event.ingest_ns,
                    old(self).stmt_spec().consts@,
                    event.data,
                    event.meta,
                    old(self).recursion_limit_spec() as nat,
                );
                match oc {
                    Outcome::Forwarded => r matches Ok(out) && out.events@ == seq![event]
                        && out.insights@ == Seq::<Event>::empty(),
                    Outcome::Dropped => r matches Ok(out) && out.events@ == Seq::<Event>::empty()
                        && out.insights@ == Seq::<Event>::empty(),
                    Outcome::BadGuard(c, v) => r == Err::<EventAndInsights, Error>(
                        (Error::GuardNotBool { id: old(self).id_spec(), clause: c, value: v }),
                    ),
                    Outcome::Failed(e) => r == Err::<EventAndInsights, Error>(e),
                }
            }),
    {
        let opts = Self::opts();
        let sel: &SelectStmt = self.select.parts();

        // Guard clauses cannot reference statement-local variables.
        let local_stack = LocalStack::with_size(0);

        let ctx = EventContext::new(event.ingest_ns, &event.origin_uri);

        // Before anything else the event is filtered by the where clause.
        if let Some(guard) = &sel.stmt.maybe_where {
            let (data, meta) = event.parts();
            let test = match evaluate(
                guard,
                opts,
                &ctx,
                &sel.consts,
                data,
                state,
                meta,
                &local_stack,
                self.recursion_limit,
            ) {
                Ok(t) => t,
                Err(e) => return Err(e),
            };
            match test {
                Value::Bool(b) => if !b {
                    return Ok(EventAndInsights::none());
                },
                v => return Err(
                    (Error::GuardNotBool { id: self.id.clone(), clause: Clause::Where, value: v }),
                ),
            }
        }

        // Then, still within the loan, by the having clause.
        if let Some(guard) = &sel.stmt.maybe_having {
            let (data, meta) = event.parts();
            let test = match evaluate(
                guard,
                opts,
                &ctx,
                &sel.consts,
                data,
                state,
                meta,
                &local_stack,
                self.recursion_limit,
            ) {
                Ok(t) => t,
                Err(e) => return Err(e),
            };
            match test {
                Value::Bool(b) => if !b {
                    return Ok(EventAndInsights::none());
                },
                v => return Err(
                    (Error::GuardNotBool { id: self.id.clone(), clause: Clause::Having, value: v }),
                ),
            }
        }

        Ok(EventAndInsights::just(event))
    }
}

} // verus!
