use simple_select::{
    evaluate, AggrType, BinOp, Error, EventContext, EventAndInsights, Event, ExecOpts, Expr,
    LocalStack, Obj, PathRoot, Select, SelectContainer, SelectStmt, Stmt, Value, obj_get,
    value_eq,
};

fn opts() -> ExecOpts {
    ExecOpts {
        result_needed: true,
        aggr: AggrType::Emit,
    }
}

fn ctx() -> EventContext {
    EventContext::new(42, &Some("stream://localhost".to_string()))
}

fn run(e: &Expr, data: &Value, meta: &Value) -> Result<Value, Error> {
    let consts: Vec<Value> = vec![];
    let mut state = Value::Obj(Box::new(Obj::Nil));
    let local = LocalStack::with_size(0);
    evaluate(e, opts(), &ctx(), &consts, data, &mut state, meta, &local, 100)
}

fn nested_payload() -> Value {
    // {"outer": {"inner": 5}, "flag": true}
    Value::Obj(Box::new(Obj::Cons(
        "outer".to_string(),
        Value::Obj(Box::new(Obj::Cons(
            "inner".to_string(),
            Value::Int(5),
            Box::new(Obj::Nil),
        ))),
        Box::new(Obj::Cons(
            "flag".to_string(),
            Value::Bool(true),
            Box::new(Obj::Nil),
        )),
    )))
}

#[test]
fn literal_evaluates_to_itself() {
    let data = nested_payload();
    let meta = Value::Obj(Box::new(Obj::Nil));
    let r = run(&Expr::Literal(Value::Str("hi".to_string())), &data, &meta);
    assert_eq!(r.unwrap(), Value::Str("hi".to_string()));
}

#[test]
fn nested_path_resolves() {
    let data = nested_payload();
    let meta = Value::Obj(Box::new(Obj::Nil));
    let path = Expr::Path(
        PathRoot::Data,
        vec!["outer".to_string(), "inner".to_string()],
    );
    assert_eq!(run(&path, &data, &meta).unwrap(), Value::Int(5));
}

#[test]
fn path_through_non_object_mismatches() {
    let data = nested_payload();
    let meta = Value::Obj(Box::new(Obj::Nil));
    let path = Expr::Path(PathRoot::Data, vec!["flag".to_string(), "x".to_string()]);
    assert_eq!(run(&path, &data, &meta).unwrap_err(), Error::TypeMismatch);
}

#[test]
fn ingest_builtin_yields_timestamp() {
    let data = nested_payload();
    let meta = Value::Obj(Box::new(Obj::Nil));
    assert_eq!(run(&Expr::Ingest, &data, &meta).unwrap(), Value::Int(42));
}

#[test]
fn not_negates_booleans_only() {
    let data = nested_payload();
    let meta = Value::Obj(Box::new(Obj::Nil));
    let e = Expr::Not(Box::new(Expr::Literal(Value::Bool(false))));
    assert_eq!(run(&e, &data, &meta).unwrap(), Value::Bool(true));
    let bad = Expr::Not(Box::new(Expr::Literal(Value::Int(1))));
    assert_eq!(run(&bad, &data, &meta).unwrap_err(), Error::TypeMismatch);
}

#[test]
fn boolean_connectives() {
    let data = nested_payload();
    let meta = Value::Obj(Box::new(Obj::Nil));
    let t = || Box::new(Expr::Literal(Value::Bool(true)));
    let f = || Box::new(Expr::Literal(Value::Bool(false)));
    assert_eq!(
        run(&Expr::Binary(BinOp::And, t(), f()), &data, &meta).unwrap(),
        Value::Bool(false)
    );
    assert_eq!(
        run(&Expr::Binary(BinOp::Or, t(), f()), &data, &meta).unwrap(),
        Value::Bool(true)
    );
}

#[test]
fn comparisons_on_integers() {
    let data = nested_payload();
    let meta = Value::Obj(Box::new(Obj::Nil));
    let one = || Box::new(Expr::Literal(Value::Int(1)));
    let two = || Box::new(Expr::Literal(Value::Int(2)));
    assert_eq!(
        run(&Expr::Binary(BinOp::Lt, one(), two()), &data, &meta).unwrap(),
        Value::Bool(true)
    );
    assert_eq!(
        run(&Expr::Binary(BinOp::Ge, one(), two()), &data, &meta).unwrap(),
        Value::Bool(false)
    );
    assert_eq!(
        run(&Expr::Binary(BinOp::Le, one(), one()), &data, &meta).unwrap(),
        Value::Bool(true)
    );
}

#[test]
fn equality_is_structural() {
    let data = nested_payload();
    let meta = Value::Obj(Box::new(Obj::Nil));
    let lhs = || Box::new(Expr::Path(PathRoot::Data, vec!["outer".to_string()]));
    let rhs = || {
        Box::new(Expr::Literal(Value::Obj(Box::new(Obj::Cons(
            "inner".to_string(),
            Value::Int(5),
            Box::new(Obj::Nil),
        )))))
    };
    assert_eq!(
        run(&Expr::Binary(BinOp::Eq, lhs(), rhs()), &data, &meta).unwrap(),
        Value::Bool(true)
    );
    assert_eq!(
        run(&Expr::Binary(BinOp::Ne, lhs(), rhs()), &data, &meta).unwrap(),
        Value::Bool(false)
    );
}

#[test]
fn depth_zero_hits_recursion_limit() {
    let consts: Vec<Value> = vec![];
    let mut state = Value::Obj(Box::new(Obj::Nil));
    let local = LocalStack::with_size(0);
    let data = Value::Int(0);
    let meta = Value::Int(0);
    let r = evaluate(
        &Expr::Literal(Value::Bool(true)),
        opts(),
        &ctx(),
        &consts,
        &data,
        &mut state,
        &meta,
        &local,
        0,
    );
    assert_eq!(r.unwrap_err(), Error::RecursionLimit);
}

#[test]
fn evaluation_leaves_state_untouched() {
    let consts: Vec<Value> = vec![];
    let mut state = Value::Str("keep me".to_string());
    let local = LocalStack::with_size(0);
    let data = nested_payload();
    let meta = Value::Obj(Box::new(Obj::Nil));
    let e = Expr::Path(PathRoot::Data, vec!["flag".to_string()]);
    let r = evaluate(
        &e, opts(), &ctx(), &consts, &data, &mut state, &meta, &local, 100,
    );
    assert_eq!(r.unwrap(), Value::Bool(true));
    assert_eq!(state, Value::Str("keep me".to_string()));
}

#[test]
fn context_builder_wraps_its_inputs() {
    let origin = Some("stream://example".to_string());
    let c = EventContext::new(7, &origin);
    assert_eq!(c.ingest_ns, 7);
    assert_eq!(c.origin_uri, origin);
    let none_ctx = EventContext::new(8, &None);
    assert_eq!(none_ctx.ingest_ns, 8);
    assert_eq!(none_ctx.origin_uri, None);
}

#[test]
fn first_binding_wins_on_duplicate_keys() {
    let o = Obj::Cons(
        "k".to_string(),
        Value::Int(1),
        Box::new(Obj::Cons(
            "k".to_string(),
            Value::Int(2),
            Box::new(Obj::Nil),
        )),
    );
    assert_eq!(obj_get(&o, &"k".to_string()), Some(&Value::Int(1)));
    assert_eq!(obj_get(&o, &"absent".to_string()), None);
}

#[test]
fn value_eq_compares_structurally() {
    let a = nested_payload();
    let b = nested_payload();
    assert!(value_eq(&a, &b));
    let c = Value::Str("x".to_string());
    let d = Value::Str("y".to_string());
    assert!(!value_eq(&c, &d));
    assert!(!value_eq(&a, &c));
}

#[test]
fn duplicate_is_equal_to_the_original() {
    let a = nested_payload();
    assert_eq!(a.duplicate(), a);
    let e = Event {
        ingest_ns: 1,
        origin_uri: None,
        data: nested_payload(),
        meta: Value::Obj(Box::new(Obj::Nil)),
    };
    assert_eq!(e.duplicate(), e);
}

#[test]
fn result_constructors() {
    let none = EventAndInsights::none();
    assert_eq!(none.events.len(), 0);
    assert_eq!(none.insights.len(), 0);
    let e = Event {
        ingest_ns: 1,
        origin_uri: None,
        data: Value::Int(1),
        meta: Value::Int(2),
    };
    let expected = e.duplicate();
    let one = EventAndInsights::just(e);
    assert_eq!(one.events, vec![expected]);
    assert_eq!(one.insights.len(), 0);
}

#[test]
fn container_loans_the_statement() {
    let s = SelectStmt {
        stmt: Select {
            maybe_where: Some(Expr::Literal(Value::Bool(true))),
            maybe_having: None,
        },
        consts: vec![Value::Int(3)],
        node_meta: vec![],
    };
    let c = SelectContainer::try_new_from_stmt(Stmt::Select(s)).unwrap();
    let has_where = c.rent(|loaned: &SelectStmt| loaned.stmt.maybe_where.is_some());
    assert!(has_where);
    let n_consts = c.rent(|loaned: &SelectStmt| loaned.consts.len());
    assert_eq!(n_consts, 1);
}

#[test]
fn container_rejects_non_selects() {
    assert_eq!(
        SelectContainer::try_new_from_stmt(Stmt::Stream).unwrap_err(),
        Error::NotSelect
    );
}

#[test]
fn local_stack_has_the_requested_size() {
    let l = LocalStack::with_size(0);
    assert_eq!(l.len, 0);
}
