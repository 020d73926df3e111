use crate::context::EventContext;
use crate::errors::Error;
use crate::expr::{BinOp, Expr, PathRoot};
use crate::value::{obj_get, obj_lookup, val_equiv, value_eq, Value};
use vstd::prelude::*;

verus! {

/// Evaluation options, as the shared evaluator contract takes them. A guard
/// always needs its result and never runs in an aggregate position.
#[derive(Clone, Copy, PartialEq, Eq, Debug)]
pub struct ExecOpts {
    pub result_needed: bool,
    pub aggr: AggrType,
}

/// Whether evaluation emits a value or ticks an aggregate window.
#[derive(Clone, Copy, PartialEq, Eq, Debug)]
pub enum AggrType {
    Emit,
    Tick,
}

/// The statement-local variable frame. Guard clauses never bind locals, so
/// the operator always passes a frame of size zero.
#[derive(PartialEq, Eq, Debug)]
pub struct LocalStack {
    pub len: usize,
}

impl LocalStack {
    /// A local frame of the given size.
    pub fn with_size(len: usize) -> (r: LocalStack)
        ensures
            r.len == len,
    {
        LocalStack { len }
    }
}

/// The value a path starts from.
pub open spec fn path_root_value(root: PathRoot, data: Value, meta: Value) -> Value {
    match root {
        PathRoot::Data => data,
        PathRoot::Meta => meta,
    }
}

/// Walks `segs[i..]` down from `v` through nested objects: the value that a
/// dotted path denotes, a `MissingKey` error on an absent key, and a
/// `TypeMismatch` error when a path steps into a non-object.
pub open spec fn walk_from(v: Value, segs: Seq<String>, i: int) -> Result<Value, Error>
    decreases segs.len() - i,
{
    if i >= segs.len() {
        Ok(v)
    } else {
        match v {
            Value::Obj(o) => match obj_lookup(*o, segs[i]@) {
                Some(v2) => walk_from(v2, segs, i + 1),
                None => Err(Error::MissingKey),
            },
            _ => Err(Error::TypeMismatch),
        }
    }
}

/// The meaning of one binary operator on two already-evaluated operands.
/// `And`/`Or` take booleans, the orderings take integers, and equality
/// compares any two values structurally.
pub open spec fn apply_binop(op: BinOp, a: Value, b: Value) -> Result<Value, Error> {
    match op {
        BinOp::And => match (a, b) {
            (Value::Bool(x), Value::Bool(y)) => Ok(Value::Bool(x && y)),
            _ => Err(Error::TypeMismatch),
        },
        BinOp::Or => match (a, b) {
            (Value::Bool(x), Value::Bool(y)) => Ok(Value::Bool(x || y)),
            _ => Err(Error::TypeMismatch),
        },
        BinOp::Eq => Ok(Value::Bool(val_equiv(a, b))),
        BinOp::Ne => Ok(Value::Bool(!val_equiv(a, b))),
        BinOp::Gt => match (a, b) {
            (Value::Int(x), Value::Int(y)) => Ok(Value::Bool(x > y)),
            _ => Err(Error::TypeMismatch),
        },
        BinOp::Ge => match (a, b) {
            (Value::Int(x), Value::Int(y)) => Ok(Value::Bool(x >= y)),
            _ => Err(Error::TypeMismatch),
        },
        BinOp::Lt => match (a, b) {
            (Value::Int(x), Value::Int(y)) => Ok(Value::Bool(x < y)),
            _ => Err(Error::TypeMismatch),
        },
        BinOp::Le => match (a, b) {
            (Value::Int(x), Value::Int(y)) => Ok(Value::Bool(x <= y)),
            _ => Err(Error::TypeMismatch),
        },
    }
}

/// The meaning of evaluating `e` against the constant table, the event's
/// payload/metadata split and the ingest timestamp, with a recursion budget
/// of `depth`: evaluation is total over the expression tree and yields
/// exactly one value or one error per invocation.
pub open spec fn eval_spec(
    e: Expr,
    ingest_ns: u64,
    consts: Seq<Value>,
    data: Value,
    meta: Value,
    depth: nat,
) -> Result<Value, Error>
    decreases e,
{
    if depth == 0 {
        Err(Error::RecursionLimit)
    } else {
        match e {
            Expr::Literal(v) => Ok(v),
            Expr::Const(i) => if i < consts.len() {
                Ok(consts[i as int])
            } else {
                Err(Error::UnknownConst)
            },
            Expr::Path(root, segs) => walk_from(path_root_value(root, data, meta), segs@, 0),
            Expr::Ingest => if ingest_ns <= i64::MAX {
                Ok(Value::Int(ingest_ns as i64))
            } else {
                Err(Error::Overflow)
            },
            Expr::Not(inner) => match eval_spec(
                *inner,
                ingest_ns,
                consts,
                data,
                meta,
                (depth - 1) as nat,
            ) {
                Ok(Value::Bool(b)) => Ok(Value::Bool(!b)),
                Ok(_) => Err(Error::TypeMismatch),
                Err(err) => Err(err),
            },
            Expr::Binary(op, l, r) => match eval_spec(
                *l,
                ingest_ns,
                consts,
                data,
                meta,
                (depth - 1) as nat,
            ) {
                Ok(a) => match eval_spec(*r, ingest_ns, consts, data, meta, (depth - 1) as nat) {
                    Ok(b) => apply_binop(op, a, b),
                    Err(err) => Err(err),
                },
                Err(err) => Err(err),
            },
        }
    }
}

/// A borrowed evaluation result as an owned one, for stating contracts.
pub open spec fn deref_result(r: Result<&Value, Error>) -> Result<Value, Error> {
    match r {
        Ok(v) => Ok(*v),
        Err(e) => Err(e),
    }
}

/// Walks the path tail `segs[i..]` down from `v`.
fn walk<'a>(v: &'a Value, segs: &Vec<String>, i: usize) -> (r: Result<&'a Value, Error>)
    requires
        i <= segs.len(),
    ensures
        deref_result(r) == walk_from(*v, segs@, i as int),
    decreases segs.len() - i,
{
    if i == segs.len() {
        return Ok(v);
    }
    match v {
        Value::Obj(o) => match obj_get(o, &segs[i]) {
            Some(v2) => walk(v2, segs, i + 1),
            None => Err(Error::MissingKey),
        },
        _ => Err(Error::TypeMismatch),
    }
}

/// Applies one binary operator to two evaluated operands.
fn run_binop(op: BinOp, a: Value, b: Value) -> (r: Result<Value, Error>)
    ensures
        r == apply_binop(op, a, b),
{
    match op {
        BinOp::And => match (a, b) {
            (Value::Bool(x), Value::Bool(y)) => Ok(Value::Bool(x && y)),
            _ => Err(Error::TypeMismatch),
        },
        BinOp::Or => match (a, b) {
            (Value::Bool(x), Value::Bool(y)) => Ok(Value::Bool(x || y)),
            _ => Err(Error::TypeMismatch),
        },
        BinOp::Eq => Ok(Value::Bool(value_eq(&a, &b))),
        BinOp::Ne => Ok(Value::Bool(!value_eq(&a, &b))),
        BinOp::Gt => match (a, b) {
            (Value::Int(x), Value::Int(y)) => Ok(Value::Bool(x > y)),
            _ => Err(Error::TypeMismatch),
        },
        BinOp::Ge => match (a, b) {
            (Value::Int(x), Value::Int(y)) => Ok(Value::Bool(x >= y)),
            _ => Err(Error::TypeMismatch),
        },
        BinOp::Lt => match (a, b) {
            (Value::Int(x), Value::Int(y)) => Ok(Value::Bool(x < y)),
            _ => Err(Error::TypeMismatch),
        },
        BinOp::Le => match (a, b) {
            (Value::Int(x), Value::Int(y)) => Ok(Value::Bool(x <= y)),
            _ => Err(Error::TypeMismatch),
        },
    }
}

/// Evaluates a guard expression against the context, the shared state, and
/// the event's payload/metadata split, with a recursion budget of `depth`.
///
/// Evaluation is pure: the shared state is threaded through for the
/// evaluator contract's sake but left untouched, and the result is exactly
/// what `eval_spec` denotes.
pub fn evaluate(
    e: &Expr,
    opts: ExecOpts,
    ctx: &EventContext,
    consts: &Vec<Value>,
    data: &Value,
    state: &mut Value,
    meta: &Value,
    local: &LocalStack,
    depth: u32,
) -> (r: Result<Value, Error>)
    ensures
        r == eval_spec(*e, ctx.ingest_ns, consts@, *data, *meta, depth as nat),
        *final(state) == *old(state),
    decreases *e,
{
    if depth == 0 {
        return Err(Error::RecursionLimit);
    }
    match e {
        Expr::Literal(v) => Ok(v.duplicate()),
        Expr::Const(i) => if *i < consts.len() {
            Ok(consts[*i].duplicate())
        } else {
            Err(Error::UnknownConst)
        },
        Expr::Path(root, segs) => {
            let start: &Value = match root {
                PathRoot::Data => data,
                PathRoot::Meta => meta,
            };
            match walk(start, segs, 0) {
                Ok(v) => Ok(v.duplicate()),
                Err(err) => Err(err),
            }
        },
        Expr::Ingest => if ctx.ingest_ns <= (i64::MAX as u64) {
            Ok(Value::Int(ctx.ingest_ns as i64))
        } else {
            Err(Error::Overflow)
        },
        Expr::Not(inner) => match evaluate(
            inner,
            opts,
            ctx,
            consts,
            data,
            state,
            meta,
            local,
            depth - 1,
        ) {
            Ok(Value::Bool(b)) => Ok(Value::Bool(!b)),
            Ok(_) => Err(Error::TypeMismatch),
            Err(err) => Err(err),
        },
        Expr::Binary(op, l, r) => match evaluate(
            l,
            opts,
            ctx,
            consts,
            data,
            state,
            meta,
            local,
            depth - 1,
        ) {
            Ok(a) => match evaluate(r, opts, ctx, consts, data, state, meta, local, depth - 1) {
                Ok(b) => run_binop(*op, a, b),
                Err(err) => Err(err),
            },
            Err(err) => Err(err),
        },
    }
}

} // verus!
