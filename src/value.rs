//! The value model that commands consume and produce.

use vstd::prelude::*;

verus! {

/// The static type of a value.
pub enum ValueType {
    Empty,
    Bool,
    Integer,
    String,
    Type,
    Dict(Box<ValueType>, Box<ValueType>),
}

impl ValueType {
    /// Whether values of this type may serve as dictionary keys.
    pub open spec fn hashable(&self) -> bool {
        match self {
            ValueType::Dict(_, _) => false,
            _ => true,
        }
    }

    pub fn is_hashable(&self) -> (r: bool)
        ensures
            r == self.hashable(),
    {
        match self {
            ValueType::Dict(_, _) => false,
            _ => true,
        }
    }

    pub fn copy(&self) -> (r: ValueType)
        ensures
            r == *self,
        decreases self,
    {
        match self {
            ValueType::Empty => ValueType::Empty,
            ValueType::Bool => ValueType::Bool,
            ValueType::Integer => ValueType::Integer,
            ValueType::String => ValueType::String,
            ValueType::Type => ValueType::Type,
            ValueType::Dict(k, v) => ValueType::Dict(Box::new(k.copy()), Box::new(v.copy())),
        }
    }

    /// Structural equality of two types.
    pub fn same(&self, other: &ValueType) -> (r: bool)
        ensures
            r == (*self == *other),
        decreases self,
    {
        match (self, other) {
            (ValueType::Empty, ValueType::Empty) => true,
            (ValueType::Bool, ValueType::Bool) => true,
            (ValueType::Integer, ValueType::Integer) => true,
            (ValueType::String, ValueType::String) => true,
            (ValueType::Type, ValueType::Type) => true,
            (ValueType::Dict(k1, v1), ValueType::Dict(k2, v2)) => k1.same(k2) && v1.same(v2),
            _ => false,
        }
    }

    /// The human-readable name of the type.
    pub open spec fn text(&self) -> Seq<char>
        decreases self,
    {
        match self {
            ValueType::Empty => "empty"@,
            ValueType::Bool => "bool"@,
            ValueType::Integer => "integer"@,
            ValueType::String => "string"@,
            ValueType::Type => "type"@,
            ValueType::Dict(k, v) => "dict "@ + k.text() + " "@ + v.text(),
        }
    }

    pub fn to_text(&self) -> (r: String)
        ensures
            r@ == self.text(),
        decreases self,
    {
        match self {
            ValueType::Empty => text_of("empty"),
            ValueType::Bool => text_of("bool"),
            ValueType::Integer => text_of("integer"),
            ValueType::String => text_of("string"),
            ValueType::Type => text_of("type"),
            ValueType::Dict(k, v) => {
                let mut r = text_of("dict ");
                let kt = k.to_text();
                let vt = v.to_text();
                r.append(kt.as_str());
                r.append(" ");
                r.append(vt.as_str());
                r
            },
        }
    }
}

/// An owned copy of a string literal.
pub fn text_of(s: &str) -> (r: String)
    ensures
        r@ == s@,
{
    s.to_owned()
}

/// The entries of a dictionary, newest first.
pub enum Entries {
    Nil,
    Cons(Box<Value>, Box<Value>, Box<Entries>),
}

/// A dictionary with declared key and value types.
pub struct Dict {
    pub key_type: ValueType,
    pub value_type: ValueType,
    pub entries: Entries,
}

/// A runtime value.
pub enum Value {
    Empty,
    Bool(bool),
    Integer(i128),
    String(String),
    Type(ValueType),
    Dict(Dict),
}

/// Whether two values are the same dictionary key.
pub open spec fn same_key(a: Value, b: Value) -> bool {
    match (a, b) {
        (Value::Empty, Value::Empty) => true,
        (Value::Bool(x), Value::Bool(y)) => x == y,
        (Value::Integer(x), Value::Integer(y)) => x == y,
        (Value::String(x), Value::String(y)) => x@ == y@,
        (Value::Type(x), Value::Type(y)) => x == y,
        _ => false,
    }
}

impl Value {
    pub open spec fn value_type(&self) -> ValueType {
        match self {
            Value::Empty => ValueType::Empty,
            Value::Bool(_) => ValueType::Bool,
            Value::Integer(_) => ValueType::Integer,
            Value::String(_) => ValueType::String,
            Value::Type(_) => ValueType::Type,
            Value::Dict(d) => ValueType::Dict(Box::new(d.key_type), Box::new(d.value_type)),
        }
    }

    pub fn get_type(&self) -> (r: ValueType)
        ensures
            r == self.value_type(),
    {
        match self {
            Value::Empty => ValueType::Empty,
            Value::Bool(_) => ValueType::Bool,
            Value::Integer(_) => ValueType::Integer,
            Value::String(_) => ValueType::String,
            Value::Type(_) => ValueType::Type,
            Value::Dict(d) => ValueType::Dict(Box::new(d.key_type.copy()), Box::new(d.value_type.copy())),
        }
    }

    pub fn key_eq(&self, other: &Value) -> (r: bool)
        ensures
            r == same_key(*self, *other),
    {
        match (self, other) {
            (Value::Empty, Value::Empty) => true,
            (Value::Bool(x), Value::Bool(y)) => *x == *y,
            (Value::Integer(x), Value::Integer(y)) => *x == *y,
            (Value::String(x), Value::String(y)) => x.eq(y),
            (Value::Type(x), Value::Type(y)) => x.same(y),
            _ => false,
        }
    }
}

} // verus!

verus! {

impl Value {
    /// An independent duplicate of the value.
    pub fn copy(&self) -> (r: Value)
        ensures
            r == *self,
        decreases self,
    {
        match self {
            Value::Empty => Value::Empty,
            Value::Bool(b) => Value::Bool(*b),
            Value::Integer(i) => Value::Integer(*i),
            Value::String(s) => Value::String(s.clone()),
            Value::Type(t) => Value::Type(t.copy()),
            Value::Dict(d) => Value::Dict(d.copy()),
        }
    }
}

impl Dict {
    pub fn new(key_type: ValueType, value_type: ValueType) -> (r: Dict)
        ensures
            r == (Dict { key_type, value_type, entries: Entries::Nil }),
    {
        Dict { key_type, value_type, entries: Entries::Nil }
    }

    pub fn copy(&self) -> (r: Dict)
        ensures
            r == *self,
        decreases self,
    {
        Dict {
            key_type: self.key_type.copy(),
            value_type: self.value_type.copy(),
            entries: self.entries.copy(),
        }
    }
}

impl Entries {
    pub open spec fn count(&self) -> nat
        decreases self,
    {
        match self {
            Entries::Nil => 0,
            Entries::Cons(_, _, rest) => 1 + rest.count(),
        }
    }

    /// The value of the newest entry whose key matches `k`.
    pub open spec fn lookup(&self, k: Value) -> Option<Value>
        decreases self,
    {
        match self {
            Entries::Nil => None,
            Entries::Cons(key, v, rest) => if same_key(**key, k) {
                Some(**v)
            } else {
                rest.lookup(k)
            },
        }
    }

    /// The entries without the newest one whose key matches `k`.
    pub open spec fn without(&self, k: Value) -> Entries
        decreases self,
    {
        match self {
            Entries::Nil => Entries::Nil,
            Entries::Cons(key, v, rest) => if same_key(**key, k) {
                **rest
            } else {
                Entries::Cons(*key, *v, Box::new(rest.without(k)))
            },
        }
    }

    pub fn copy(&self) -> (r: Entries)
        ensures
            r == *self,
        decreases self,
    {
        match self {
            Entries::Nil => Entries::Nil,
            Entries::Cons(k, v, rest) => Entries::Cons(
                Box::new(k.copy()),
                Box::new(v.copy()),
                Box::new(rest.copy()),
            ),
        }
    }

    /// The number of entries, saturated at the largest `i128`.
    pub fn len(&self) -> (r: i128)
        ensures
            r as int == if self.count() < i128::MAX { self.count() as int } else { i128::MAX as int },
        decreases self,
    {
        match self {
            Entries::Nil => 0,
            Entries::Cons(_, _, rest) => {
                let n = rest.len();
                if n < i128::MAX { n + 1 } else { n }
            },
        }
    }

    pub fn get(&self, k: &Value) -> (r: Option<Value>)
        ensures
            r == self.lookup(*k),
        decreases self,
    {
        match self {
            Entries::Nil => None,
            Entries::Cons(key, v, rest) => if key.key_eq(k) {
                Some(v.copy())
            } else {
                rest.get(k)
            },
        }
    }

    pub fn remove(self, k: &Value) -> (r: (Entries, Option<Value>))
        ensures
            r.0 == self.without(*k),
            r.1 == self.lookup(*k),
        decreases self,
    {
        match self {
            Entries::Nil => (Entries::Nil, None),
            Entries::Cons(key, v, rest) => if key.key_eq(k) {
                (*rest, Some(*v))
            } else {
                let (rest2, found) = rest.remove(k);
                (Entries::Cons(key, v, Box::new(rest2)), found)
            },
        }
    }
}

} // verus!

verus! {

pub open spec fn digit(d: nat) -> char {
    if d == 0 { '0' } else if d == 1 { '1' } else if d == 2 { '2' } else if d == 3 { '3' } else if d == 4 {
        '4'
    } else if d == 5 { '5' } else if d == 6 { '6' } else if d == 7 { '7' } else if d == 8 { '8' } else { '9' }
}

/// The decimal digits of `n`.
pub open spec fn decimal(n: nat) -> Seq<char>
    decreases n,
{
    if n < 10 {
        seq![digit(n)]
    } else {
        decimal(n / 10).push(digit(n % 10))
    }
}

fn digit_text(d: u128) -> (r: &'static str)
    requires
        d < 10,
    ensures
        r@ == seq![digit(d as nat)],
{
    proof {
        reveal_strlit("0");
        reveal_strlit("1");
        reveal_strlit("2");
        reveal_strlit("3");
        reveal_strlit("4");
        reveal_strlit("5");
        reveal_strlit("6");
        reveal_strlit("7");
        reveal_strlit("8");
        reveal_strlit("9");
    }
    if d == 0 { "0" } else if d == 1 { "1" } else if d == 2 { "2" } else if d == 3 { "3" } else if d == 4 {
        "4"
    } else if d == 5 { "5" } else if d == 6 { "6" } else if d == 7 { "7" } else if d == 8 { "8" } else { "9" }
}

pub fn decimal_text(n: u128) -> (r: String)
    ensures
        r@ == decimal(n as nat),
    decreases n,
{
    if n < 10 {
        text_of(digit_text(n))
    } else {
        let mut s = decimal_text(n / 10);
        s.append(digit_text(n % 10));
        s
    }
}

pub open spec fn abs(n: i128) -> nat {
    if n < 0 { (-n) as nat } else { n as nat }
}

impl Value {
    /// How the value is written.
    pub open spec fn text(&self) -> Seq<char> {
        match self {
            Value::Empty => "empty"@,
            Value::Bool(b) => if *b { "true"@ } else { "false"@ },
            Value::Integer(n) => if *n < 0 { "-"@ + decimal(abs(*n)) } else { decimal(abs(*n)) },
            Value::String(s) => "\""@ + s@ + "\""@,
            Value::Type(t) => t.text(),
            Value::Dict(_) => self.value_type().text(),
        }
    }

    pub fn to_text(&self) -> (r: String)
        ensures
            r@ == self.text(),
    {
        match self {
            Value::Empty => text_of("empty"),
            Value::Bool(b) => if *b { text_of("true") } else { text_of("false") },
            Value::Integer(n) => if *n < 0 {
                let magnitude: u128 = ((-(*n + 1)) as u128) + 1;
                let mut s = text_of("-");
                let digits = decimal_text(magnitude);
                s.append(digits.as_str());
                s
            } else {
                decimal_text(*n as u128)
            },
            Value::String(s) => {
                let mut r = text_of("\"");
                r.append(s.as_str());
                r.append("\"");
                r
            },
            Value::Type(t) => t.to_text(),
            Value::Dict(_) => self.get_type().to_text(),
        }
    }
}

} // verus!

verus! {

impl Entries {
    /// Every key has type `kt` and appears once.
    pub open spec fn keys_fit(&self, kt: ValueType) -> bool
        decreases self,
    {
        match self {
            Entries::Nil => true,
            Entries::Cons(k, _, rest) => k.value_type() == kt && rest.lookup(**k) is None && rest.keys_fit(kt),
        }
    }
}

impl Dict {
    /// A valid dict has a hashable key type, and its keys are of that type
    /// and distinct.
    pub open spec fn wf(&self) -> bool {
        self.key_type.hashable() && self.entries.keys_fit(self.key_type)
    }
}

pub proof fn lemma_same_key_equiv(a: Value, b: Value, c: Value)
    ensures
        same_key(a, b) ==> same_key(b, a),
        same_key(a, b) && same_key(b, c) ==> same_key(a, c),
{
}

/// Removing a key keeps the keys valid, leaves the key absent when the
/// keys were distinct, and leaves every other key's mapping alone.
pub proof fn lemma_without(e: Entries, kt: ValueType, k: Value)
    requires
        e.keys_fit(kt),
    ensures
        e.without(k).keys_fit(kt),
        e.without(k).lookup(k) is None,
        forall|x: Value| !same_key(x, k) ==> #[trigger] e.without(k).lookup(x) == e.lookup(x),
        forall|x: Value| #[trigger] e.lookup(x) is None ==> e.without(k).lookup(x) is None,
    decreases e,
{
    if let Entries::Cons(key, v, rest) = e {
        lemma_without(*rest, kt, k);
        if same_key(*key, k) {
            lemma_lookup_same(*rest, *key, k);
            assert forall|x: Value| !same_key(x, k) implies !same_key(*key, x) by {
                lemma_same_key_equiv(*key, x, k);
                lemma_same_key_equiv(x, *key, k);
            }
            assert forall|x: Value| #[trigger] e.lookup(x) is None implies e.without(k).lookup(x) is None by {
                assert(rest.lookup(x) is None);
            }
        } else {
            assert forall|x: Value| !same_key(x, k) implies #[trigger] e.without(k).lookup(x) == e.lookup(x) by {
                if !same_key(*key, x) {
                    assert(rest.without(k).lookup(x) == rest.lookup(x));
                }
            }
            assert forall|x: Value| #[trigger] e.lookup(x) is None implies e.without(k).lookup(x) is None by {
                assert(rest.lookup(x) is None);
            }
        }
    }
}

/// Lookup gives the same answer for keys that are the same.
pub proof fn lemma_lookup_same(e: Entries, a: Value, b: Value)
    requires
        same_key(a, b),
    ensures
        e.lookup(a) == e.lookup(b),
    decreases e,
{
    if let Entries::Cons(key, _, rest) = e {
        lemma_same_key_equiv(*key, a, b);
        lemma_same_key_equiv(a, b, *key);
        lemma_same_key_equiv(*key, b, a);
        lemma_same_key_equiv(b, a, *key);
        lemma_lookup_same(*rest, a, b);
    }
}

} // verus!
