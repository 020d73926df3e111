use vstd::prelude::*;

verus! {

/// A runtime value: the payload or metadata of an event, a constant of a
/// statement, or the result of evaluating a guard expression.
///
/// Objects are ordered key/value lists: key order is significant, and lookup
/// returns the first binding of a key.
#[derive(PartialEq, Debug)]
pub enum Value {
    Bool(bool),
    Int(i64),
    Str(String),
    Obj(Box<Obj>),
}

/// The bindings of an object value, outermost binding first.
#[derive(PartialEq, Debug)]
pub enum Obj {
    Nil,
    Cons(String, Value, Box<Obj>),
}

/// The first value bound to `key` in `o`, comparing keys by their characters.
pub open spec fn obj_lookup(o: Obj, key: Seq<char>) -> Option<Value>
    decreases o,
{
    match o {
        Obj::Nil => None,
        Obj::Cons(k, v, rest) => if k@ == key {
            Some(v)
        } else {
            obj_lookup(*rest, key)
        },
    }
}

/// Looks `key` up in `o`; the first binding wins.
pub fn obj_get<'a>(o: &'a Obj, key: &String) -> (r: Option<&'a Value>)
    ensures
        match r {
            Some(v) => obj_lookup(*o, key@) == Some(*v),
            None => obj_lookup(*o, key@) is None,
        },
    decreases *o,
{
    match o {
        Obj::Nil => None,
        Obj::Cons(k, v, rest) => if *k == *key {
            Some(v)
        } else {
            obj_get(rest, key)
        },
    }
}

/// Structural equivalence of two values: strings compare by their characters,
/// objects binding by binding.
pub open spec fn val_equiv(a: Value, b: Value) -> bool
    decreases a,
{
    match a {
        Value::Bool(x) => b matches Value::Bool(y) && x == y,
        Value::Int(x) => b matches Value::Int(y) && x == y,
        Value::Str(x) => b matches Value::Str(y) && x@ == y@,
        Value::Obj(x) => b matches Value::Obj(y) && obj_equiv(*x, *y),
    }
}

/// Structural equivalence of two object bodies, binding by binding.
pub open spec fn obj_equiv(a: Obj, b: Obj) -> bool
    decreases a,
{
    match a {
        Obj::Nil => b matches Obj::Nil,
        Obj::Cons(ka, va, ra) => b matches Obj::Cons(kb, vb, rb) && ka@ == kb@ && val_equiv(
            va,
            vb,
        ) && obj_equiv(*ra, *rb),
    }
}

/// Decides structural equivalence of two values.
pub fn value_eq(a: &Value, b: &Value) -> (r: bool)
    ensures
        r == val_equiv(*a, *b),
    decreases *a,
{
    match a {
        Value::Bool(x) => match b {
            Value::Bool(y) => *x == *y,
            _ => false,
        },
        Value::Int(x) => match b {
            Value::Int(y) => *x == *y,
            _ => false,
        },
        Value::Str(x) => match b {
            Value::Str(y) => *x == *y,
            _ => false,
        },
        Value::Obj(x) => match b {
            Value::Obj(y) => obj_eq(x, y),
            _ => false,
        },
    }
}

/// Decides structural equivalence of two object bodies.
fn obj_eq(a: &Obj, b: &Obj) -> (r: bool)
    ensures
        r == obj_equiv(*a, *b),
    decreases *a,
{
    match a {
        Obj::Nil => match b {
            Obj::Nil => true,
            _ => false,
        },
        Obj::Cons(ka, va, ra) => match b {
            Obj::Cons(kb, vb, rb) => *ka == *kb && value_eq(va, vb) && obj_eq(ra, rb),
            _ => false,
        },
    }
}

impl Value {
    /// A structurally equal copy of the value, equal to the original.
    pub fn duplicate(&self) -> (r: Value)
        ensures
            r == *self,
        decreases *self,
    {
        match self {
            Value::Bool(b) => Value::Bool(*b),
            Value::Int(i) => Value::Int(*i),
            Value::Str(s) => Value::Str(s.clone()),
            Value::Obj(o) => Value::Obj(Box::new(o.duplicate())),
        }
    }
}

impl Obj {
    /// A structurally equal copy of the object body, equal to the original.
    pub fn duplicate(&self) -> (r: Obj)
        ensures
            r == *self,
        decreases *self,
    {
        match self {
            Obj::Nil => Obj::Nil,
            Obj::Cons(k, v, rest) => Obj::Cons(k.clone(), v.duplicate(), Box::new(rest.duplicate())),
        }
    }
}

} // verus!
