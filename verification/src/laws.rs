use crate::errors::{Clause, Error};
use crate::eval::eval_spec;
use crate::op::{select_outcome, Outcome};
use crate::stmt::Select;
use crate::value::Value;
use vstd::prelude::*;

verus! {

/// Law: for every event whose where clause evaluates to boolean false, the
/// outcome is a clean drop — no output and no error. Together with
/// `SimpleSelect::on_event`'s contract this gives an `Ok` result carrying no
/// event.
pub proof fn lemma_where_false_drops(
    sel: Select,
    ingest_ns: u64,
    consts: Seq<Value>,
    data: Value,
    meta: Value,
    limit: nat,
)
    requires
        sel.maybe_where matches Some(w) && eval_spec(w, ingest_ns, consts, data, meta, limit)
            == Ok::<Value, Error>(Value::Bool(false)),
    ensures
        select_outcome(sel, ingest_ns, consts, data, meta, limit) == Outcome::Dropped,
{
}

/// Law: for every event whose where clause passes (or is absent) and whose
/// having clause evaluates to boolean false, the outcome is a clean drop —
/// no output and no error.
pub proof fn lemma_having_false_drops(
    sel: Select,
    ingest_ns: u64,
    consts: Seq<Value>,
    data: Value,
    meta: Value,
    limit: nat,
)
    requires
        match sel.maybe_where {
            Some(w) => eval_spec(w, ingest_ns, consts, data, meta, limit) == Ok::<Value, Error>(
                Value::Bool(true),
            ),
            None => true,
        },
        sel.maybe_having matches Some(h) && eval_spec(h, ingest_ns, consts, data, meta, limit)
            == Ok::<Value, Error>(Value::Bool(false)),
    ensures
        select_outcome(sel, ingest_ns, consts, data, meta, limit) == Outcome::Dropped,
{
}

/// Law: for every event where both clauses evaluate to boolean true (or are
/// absent), the outcome is to forward; `SimpleSelect::on_event`'s contract
/// then makes the single output exactly the unchanged input event.
pub proof fn lemma_both_guards_true_forwards(
    sel: Select,
    ingest_ns: u64,
    consts: Seq<Value>,
    data: Value,
    meta: Value,
    limit: nat,
)
    requires
        match sel.maybe_where {
            Some(w) => eval_spec(w, ingest_ns, consts, data, meta, limit) == Ok::<Value, Error>(
                Value::Bool(true),
            ),
            None => true,
        },
        match sel.maybe_having {
            Some(h) => eval_spec(h, ingest_ns, consts, data, meta, limit) == Ok::<Value, Error>(
                Value::Bool(true),
            ),
            None => true,
        },
    ensures
        select_outcome(sel, ingest_ns, consts, data, meta, limit) == Outcome::Forwarded,
{
}

/// Law: a where clause that evaluates to a non-boolean value stops the event
/// with a guard type error naming the where clause and that value, and
/// produces no output.
pub proof fn lemma_where_not_bool_fails(
    sel: Select,
    ingest_ns: u64,
    consts: Seq<Value>,
    data: Value,
    meta: Value,
    limit: nat,
    v: Value,
)
    requires
        sel.maybe_where matches Some(w) && eval_spec(w, ingest_ns, consts, data, meta, limit)
            == Ok::<Value, Error>(v),
        !(v matches Value::Bool(_)),
    ensures
        select_outcome(sel, ingest_ns, consts, data, meta, limit) == Outcome::BadGuard(
            Clause::Where,
            v,
        ),
{
}

/// Law: when the where clause passes (or is absent) and the having clause
/// evaluates to a non-boolean value, the event stops with a guard type error
/// naming the having clause and that value, and produces no output.
pub proof fn lemma_having_not_bool_fails(
    sel: Select,
    ingest_ns: u64,
    consts: Seq<Value>,
    data: Value,
    meta: Value,
    limit: nat,
    v: Value,
)
    requires
        match sel.maybe_where {
            Some(w) => eval_spec(w, ingest_ns, consts, data, meta, limit) == Ok::<Value, Error>(
                Value::Bool(true),
            ),
            None => true,
        },
        sel.maybe_having matches Some(h) && eval_spec(h, ingest_ns, consts, data, meta, limit)
            == Ok::<Value, Error>(v),
        !(v matches Value::Bool(_)),
    ensures
        select_outcome(sel, ingest_ns, consts, data, meta, limit) == Outcome::BadGuard(
            Clause::Having,
            v,
        ),
{
}

/// Law: with both clauses absent, the operator is a strict pass-through —
/// the outcome is to forward for every event, every constant table and every
/// recursion limit.
pub proof fn lemma_no_guards_is_pass_through(
    sel: Select,
    ingest_ns: u64,
    consts: Seq<Value>,
    data: Value,
    meta: Value,
    limit: nat,
)
    requires
        sel.maybe_where is None,
        sel.maybe_having is None,
    ensures
        select_outcome(sel, ingest_ns, consts, data, meta, limit) == Outcome::Forwarded,
{
}

} // verus!
