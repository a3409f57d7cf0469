use vstd::prelude::*;

verus! {

/// A handle to a user-defined function of the markup layer.
///
/// The library never runs such a function itself: whoever evaluates markup
/// is handed the handle together with the argument.
#[derive(Debug, Clone, Copy, PartialEq, Eq, Hash, Structural)]
pub struct Func {
    pub id: u64,
}

impl Func {
    /// Creates a handle for the function with the given identifier.
    pub fn new(id: u64) -> (r: Func)
        ensures
            r.id == id,
    {
        Func { id }
    }
}

/// A value of the markup layer, as far as introspection needs to see it.
#[derive(Debug, Clone, PartialEq, Eq, Hash)]
pub enum Value {
    Empty,
    Auto,
    Bool(bool),
    Int(i64),
    Str(String),
    Func(Func),
}

impl Value {
    /// Equality of values, strings compared by their characters.
    pub open spec fn same_as(self, other: Value) -> bool {
        match (self, other) {
            (Value::Str(a), Value::Str(b)) => a@ == b@,
            _ => self == other,
        }
    }

    /// Equality of values is an equivalence.
    pub proof fn lemma_same_as(a: Value, b: Value, c: Value)
        ensures
            a.same_as(a),
            a.same_as(b) ==> b.same_as(a),
            a.same_as(c) && b.same_as(c) ==> a.same_as(b),
            a.same_as(b) && b.same_as(c) ==> a.same_as(c),
    {
    }

    /// A copy of this value.
    pub fn duplicate(&self) -> (r: Value)
        ensures
            r == *self,
    {
        match self {
            Value::Empty => Value::Empty,
            Value::Auto => Value::Auto,
            Value::Bool(b) => Value::Bool(*b),
            Value::Int(i) => Value::Int(*i),
            Value::Str(s) => Value::Str(s.clone()),
            Value::Func(f) => Value::Func(*f),
        }
    }

    /// Whether two values are equal.
    pub fn same(&self, other: &Value) -> (r: bool)
        ensures
            r == self.same_as(*other),
    {
        match (self, other) {
            (Value::Empty, Value::Empty) => true,
            (Value::Auto, Value::Auto) => true,
            (Value::Bool(a), Value::Bool(b)) => *a == *b,
            (Value::Int(a), Value::Int(b)) => *a == *b,
            (Value::Str(a), Value::Str(b)) => (*a).eq(b),
            (Value::Func(a), Value::Func(b)) => a.id == b.id,
            _ => false,
        }
    }
}

/// A copy of a sequence of values.
pub fn duplicate_values(v: &Vec<Value>) -> (r: Vec<Value>)
    ensures
        r@ == v@,
{
    let mut r: Vec<Value> = Vec::new();
    let mut i: usize = 0;
    while i < v.len()
        invariant
            i <= v@.len(),
            r@ == v@.subrange(0, i as int),
        decreases v@.len() - i,
    {
        r.push(v[i].duplicate());
        i = i + 1;
        assert(r@ =~= v@.subrange(0, i as int));
    }
    assert(r@ =~= v@);
    r
}

} // verus!
