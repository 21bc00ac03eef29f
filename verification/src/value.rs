use vstd::prelude::*;
use vstd::string::*;

use crate::errors::{ErrorView, InvalidValueTypeError, RangeError, SurrealDbSchemaDeriveQueryError};

verus! {

broadcast use
    vstd::std_specs::vec::axiom_vec_index_decreases,
    vstd::std_specs::vec::axiom_vec_decreases_to_view,
    vstd::seq::axiom_seq_index_decreases;

/// A discriminated record identifier. Currently only numeric identifiers
/// exist, but the representation leaves room for other kinds, and both
/// construction from a raw number and equality are total.
#[derive(Debug, Clone, Copy, PartialEq, Eq, Structural)]
pub enum Id {
    Number(u64),
}

/// The dynamic value model: the tagged union of every value the record
/// store can hold. Integers and floats are distinct variants and are
/// never coerced into one another. `Float` carries the IEEE-754 binary64
/// bit pattern, so float-valued fields travel through this crate exactly,
/// without any float arithmetic. `Reference` is a record address: a table
/// name paired with an identifier.
#[derive(Debug, PartialEq, Eq)]
pub enum Value {
    Null,
    Bool(bool),
    Integer(i64),
    Float(u64),
    Text(String),
    Array(Vec<Value>),
    Object(Vec<Entry>),
    Reference(String, Id),
}

/// One key/value pair of an `Object` value.
#[derive(Debug, PartialEq, Eq)]
pub struct Entry {
    pub key: String,
    pub value: Value,
}

/// The mathematical model of a `Value`: the same tree with strings and
/// vectors replaced by their sequence abstractions. An object is modelled
/// as a sequence of key/value pairs; the order of the pairs carries no
/// meaning, keys are looked up by name with `obj_lookup`.
pub enum ValueView {
    Null,
    Bool(bool),
    Integer(i64),
    Float(u64),
    Text(Seq<char>),
    Array(Seq<ValueView>),
    Object(Seq<(Seq<char>, ValueView)>),
    Reference(Seq<char>, Id),
}

impl View for Value {
    type V = ValueView;

    open spec fn view(&self) -> ValueView
        decreases self,
    {
        match self {
            Value::Null => ValueView::Null,
            Value::Bool(b) => ValueView::Bool(*b),
            Value::Integer(i) => ValueView::Integer(*i),
            Value::Float(bits) => ValueView::Float(*bits),
            Value::Text(s) => ValueView::Text(s@),
            Value::Array(items) => ValueView::Array(
                Seq::new(
                    items@.len(),
                    |i: int|
                        if 0 <= i < items@.len() {
                            items@[i]@
                        } else {
                            ValueView::Null
                        },
                ),
            ),
            Value::Object(pairs) => ValueView::Object(
                Seq::new(
                    pairs@.len(),
                    |i: int|
                        if 0 <= i < pairs@.len() {
                            (pairs@[i].key@, pairs@[i].value@)
                        } else {
                            (Seq::empty(), ValueView::Null)
                        },
                ),
            ),
            Value::Reference(table, id) => ValueView::Reference(table@, *id),
        }
    }
}

/// How the view of an `Object` value relates to its entries.
pub broadcast proof fn lemma_object_view(pairs: Vec<Entry>)
    ensures
        (#[trigger] Value::Object(pairs)@) is Object,
        (Value::Object(pairs)@->Object_0).len() == pairs@.len(),
        forall|i: int| 0 <= i < pairs@.len() ==> (Value::Object(pairs)@->Object_0)[i]
            == (pairs@[i].key@, pairs@[i].value@),
{
    reveal_with_fuel(<Value as View>::view, 2);
}

/// How the view of an `Array` value relates to its elements.
pub broadcast proof fn lemma_array_view(items: Vec<Value>)
    ensures
        (#[trigger] Value::Array(items)@) is Array,
        (Value::Array(items)@->Array_0).len() == items@.len(),
        forall|i: int| 0 <= i < items@.len() ==> (Value::Array(items)@->Array_0)[i]
            == items@[i]@,
{
    reveal_with_fuel(<Value as View>::view, 2);
}

pub broadcast group group_value_view {
    lemma_object_view,
    lemma_array_view,
}

/// First value stored under `key`, if any. Insertion order decides only
/// which of two equally-named pairs is seen; well-formed objects never
/// hold two pairs with one name.
pub open spec fn obj_lookup(pairs: Seq<(Seq<char>, ValueView)>, key: Seq<char>) -> Option<
    ValueView,
>
    decreases pairs.len(),
{
    if pairs.len() == 0 {
        Option::None
    } else if pairs[0].0 == key {
        Option::Some(pairs[0].1)
    } else {
        obj_lookup(pairs.drop_first(), key)
    }
}

/// `obj_lookup` returns the value at the first index whose key matches.
pub proof fn lemma_obj_lookup_at(pairs: Seq<(Seq<char>, ValueView)>, key: Seq<char>, i: int)
    requires
        0 <= i < pairs.len(),
        pairs[i].0 == key,
        forall|j: int| 0 <= j < i ==> pairs[j].0 != key,
    ensures
        obj_lookup(pairs, key) == Option::Some(pairs[i].1),
    decreases i,
{
    if i > 0 {
        lemma_obj_lookup_at(pairs.drop_first(), key, i - 1);
    }
}

/// `obj_lookup` misses exactly when no pair carries the key.
pub proof fn lemma_obj_lookup_none(pairs: Seq<(Seq<char>, ValueView)>, key: Seq<char>)
    requires
        forall|j: int| 0 <= j < pairs.len() ==> pairs[j].0 != key,
    ensures
        obj_lookup(pairs, key) == Option::None::<ValueView>,
    decreases pairs.len(),
{
    if pairs.len() > 0 {
        lemma_obj_lookup_none(pairs.drop_first(), key);
    }
}

/// Appending a pair under a different key leaves a lookup unchanged.
pub proof fn lemma_obj_lookup_push(
    pairs: Seq<(Seq<char>, ValueView)>,
    key: Seq<char>,
    pair: (Seq<char>, ValueView),
)
    requires
        pair.0 != key,
    ensures
        obj_lookup(pairs.push(pair), key) == obj_lookup(pairs, key),
    decreases pairs.len(),
{
    reveal_with_fuel(obj_lookup, 3);
    if pairs.len() == 0 {
        assert(pairs.push(pair)[0] == pair);
        assert(pairs.push(pair).drop_first() =~= Seq::<(Seq<char>, ValueView)>::empty());
    } else {
        assert(pairs.push(pair)[0] == pairs[0]);
        assert(pairs.push(pair).drop_first() =~= pairs.drop_first().push(pair));
        lemma_obj_lookup_push(pairs.drop_first(), key, pair);
    }
}

/// A short, human-readable description of a value's variant, used in
/// `TypeMismatch` reports. A text value is described by its own content.
pub open spec fn spec_describe(v: ValueView) -> Seq<char> {
    match v {
        ValueView::Null => "none"@,
        ValueView::Bool(b) => if b {
            "true"@
        } else {
            "false"@
        },
        ValueView::Integer(_) => "int"@,
        ValueView::Float(_) => "float"@,
        ValueView::Text(s) => s,
        ValueView::Array(_) => "array"@,
        ValueView::Object(_) => "object"@,
        ValueView::Reference(_, _) => "record"@,
    }
}

impl Value {
    /// Describe this value's variant for an error report.
    pub fn describe(&self) -> (r: String)
        ensures
            r@ == spec_describe(self@),
    {
        match self {
            Value::Null => String::from_str("none"),
            Value::Bool(b) => if *b {
                String::from_str("true")
            } else {
                String::from_str("false")
            },
            Value::Integer(_) => String::from_str("int"),
            Value::Float(_) => String::from_str("float"),
            Value::Text(s) => s.clone(),
            Value::Array(_) => String::from_str("array"),
            Value::Object(_) => String::from_str("object"),
            Value::Reference(_, _) => String::from_str("record"),
        }
    }

    /// A structurally equal copy of this value.
    #[verifier::loop_isolation(false)]
    pub fn duplicate(&self) -> (r: Value)
        ensures
            r@ == self@,
        decreases self,
    {
        match self {
            Value::Null => Value::Null,
            Value::Bool(b) => Value::Bool(*b),
            Value::Integer(i) => Value::Integer(*i),
            Value::Float(bits) => Value::Float(*bits),
            Value::Text(s) => Value::Text(s.clone()),
            Value::Array(items) => {
                let mut out: Vec<Value> = Vec::new();
                let mut i: usize = 0;
                while i < items.len()
                    invariant
                        i <= items.len(),
                        out@.len() == i as int,
                        forall|j: int| 0 <= j < i as int ==> out@[j]@ == items@[j]@,
                    decreases items.len() - i,
                {
                    proof {
                        vstd::std_specs::vec::axiom_vec_index_decreases::<Value>(*items, i as int);
                    }
                    out.push(items[i].duplicate());
                    i = i + 1;
                }
                let r = Value::Array(out);
                proof {
                    let s1 = r@->Array_0;
                    let s2 = self@->Array_0;
                    assert(s1 =~= s2);
                }
                r
            },
            Value::Object(pairs) => {
                let mut out: Vec<Entry> = Vec::new();
                let mut i: usize = 0;
                while i < pairs.len()
                    invariant
                        i <= pairs.len(),
                        out@.len() == i as int,
                        forall|j: int| 0 <= j < i as int ==> out@[j].key@ == pairs@[j].key@
                            && out@[j].value@ == pairs@[j].value@,
                    decreases pairs.len() - i,
                {
                    proof {
                        vstd::std_specs::vec::axiom_vec_index_decreases::<Entry>(*pairs, i as int);
                    }
                    out.push(Entry { key: pairs[i].key.clone(), value: pairs[i].value.duplicate() });
                    i = i + 1;
                }
                let r = Value::Object(out);
                proof {
                    let s1 = r@->Object_0;
                    let s2 = self@->Object_0;
                    assert(s1 =~= s2);
                }
                r
            },
            Value::Reference(table, id) => Value::Reference(table.clone(), *id),
        }
    }

    /// Look up a key in this object value. Returns the first pair stored
    /// under the key, if any.
    #[verifier::loop_isolation(false)]
    pub fn get<'a>(&'a self, key: &String) -> (r: Option<&'a Value>)
        requires
            self@ is Object,
        ensures
            match r {
                Option::Some(v) => obj_lookup(self@->Object_0, key@) == Option::Some(v@),
                Option::None => obj_lookup(self@->Object_0, key@) == Option::None::<ValueView>,
            },
    {
        match self {
            Value::Object(pairs) => {
                proof {
                    lemma_object_view(*pairs);
                }
                let mut i: usize = 0;
                while i < pairs.len()
                    invariant
                        i <= pairs.len(),
                        forall|j: int| 0 <= j < i as int ==> (self@->Object_0)[j].0 != key@,
                    decreases pairs.len() - i,
                {
                    proof {
                        lemma_object_view(*pairs);
                    }
                    if pairs[i].key == *key {
                        proof {
                            lemma_obj_lookup_at(self@->Object_0, key@, i as int);
                        }
                        return Some(&pairs[i].value);
                    }
                    i = i + 1;
                }
                proof {
                    lemma_object_view(*pairs);
                    lemma_obj_lookup_none(self@->Object_0, key@);
                }
                None
            },
            _ => None,
        }
    }

    /// Wrap a boolean.
    pub fn from_bool(b: bool) -> (v: Value)
        ensures
            v@ == ValueView::Bool(b),
    {
        Value::Bool(b)
    }

    /// Wrap a signed 64-bit integer.
    pub fn from_integer(i: i64) -> (v: Value)
        ensures
            v@ == ValueView::Integer(i),
    {
        Value::Integer(i)
    }

    /// Wrap an unsigned 64-bit integer. The store's integer representation
    /// is a signed 64-bit number, so the value must fit in one.
    pub fn from_u64(n: u64) -> (v: Value)
        requires
            n <= i64::MAX as u64,
        ensures
            v@ == ValueView::Integer(n as i64),
    {
        Value::Integer(n as i64)
    }

    /// Wrap a string.
    pub fn from_text(s: String) -> (v: Value)
        ensures
            v@ == ValueView::Text(s@),
    {
        Value::Text(s)
    }

    /// Wrap the bit pattern of an IEEE-754 binary64 number.
    pub fn from_float_bits(bits: u64) -> (v: Value)
        ensures
            v@ == ValueView::Float(bits),
    {
        Value::Float(bits)
    }

    /// Wrap a record address.
    pub fn from_reference(table: String, id: Id) -> (v: Value)
        ensures
            v@ == ValueView::Reference(table@, id),
    {
        Value::Reference(table, id)
    }


    /// Read this value as a `u8`. A non-integer variant is a
    /// `TypeMismatch`; an integer outside the target's range is a
    /// `RangeError`, never a silent truncation.
    pub fn to_u8(&self) -> (r: Result<u8, SurrealDbSchemaDeriveQueryError>)
        ensures
            match self@ {
                ValueView::Integer(i) => if 0 <= i && i <= u8::MAX as i64 {
                    r == Ok::<u8, SurrealDbSchemaDeriveQueryError>(i as u8)
                } else {
                    r matches Err(e) && e@ == (ErrorView::Range { expected: "u8"@, actual: i })
                },
                _ => r matches Err(e) && e@ == (ErrorView::TypeMismatch {
                    expected: "u8"@,
                    actual: spec_describe(self@),
                }),
            },
    {
        match self {
            Value::Integer(i) => if 0 <= *i && *i <= u8::MAX as i64 {
                Ok(*i as u8)
            } else {
                Err(SurrealDbSchemaDeriveQueryError::RangeError(RangeError {
                    expected_type: String::from_str("u8"),
                    actual_value: *i,
                }))
            },
            _ => Err(SurrealDbSchemaDeriveQueryError::InvalidValueTypeError(
                InvalidValueTypeError {
                    expected_type: String::from_str("u8"),
                    received_type: self.describe(),
                },
            )),
        }
    }

    /// Read this value as a `u16`. A non-integer variant is a
    /// `TypeMismatch`; an integer outside the target's range is a
    /// `RangeError`, never a silent truncation.
    pub fn to_u16(&self) -> (r: Result<u16, SurrealDbSchemaDeriveQueryError>)
        ensures
            match self@ {
                ValueView::Integer(i) => if 0 <= i && i <= u16::MAX as i64 {
                    r == Ok::<u16, SurrealDbSchemaDeriveQueryError>(i as u16)
                } else {
                    r matches Err(e) && e@ == (ErrorView::Range { expected: "u16"@, actual: i })
                },
                _ => r matches Err(e) && e@ == (ErrorView::TypeMismatch {
                    expected: "u16"@,
                    actual: spec_describe(self@),
                }),
            },
    {
        match self {
            Value::Integer(i) => if 0 <= *i && *i <= u16::MAX as i64 {
                Ok(*i as u16)
            } else {
                Err(SurrealDbSchemaDeriveQueryError::RangeError(RangeError {
                    expected_type: String::from_str("u16"),
                    actual_value: *i,
                }))
            },
            _ => Err(SurrealDbSchemaDeriveQueryError::InvalidValueTypeError(
                InvalidValueTypeError {
                    expected_type: String::from_str("u16"),
                    received_type: self.describe(),
                },
            )),
        }
    }

    /// Read this value as a `u32`. A non-integer variant is a
    /// `TypeMismatch`; an integer outside the target's range is a
    /// `RangeError`, never a silent truncation.
    pub fn to_u32(&self) -> (r: Result<u32, SurrealDbSchemaDeriveQueryError>)
        ensures
            match self@ {
                ValueView::Integer(i) => if 0 <= i && i <= u32::MAX as i64 {
                    r == Ok::<u32, SurrealDbSchemaDeriveQueryError>(i as u32)
                } else {
                    r matches Err(e) && e@ == (ErrorView::Range { expected: "u32"@, actual: i })
                },
                _ => r matches Err(e) && e@ == (ErrorView::TypeMismatch {
                    expected: "u32"@,
                    actual: spec_describe(self@),
                }),
            },
    {
        match self {
            Value::Integer(i) => if 0 <= *i && *i <= u32::MAX as i64 {
                Ok(*i as u32)
            } else {
                Err(SurrealDbSchemaDeriveQueryError::RangeError(RangeError {
                    expected_type: String::from_str("u32"),
                    actual_value: *i,
                }))
            },
            _ => Err(SurrealDbSchemaDeriveQueryError::InvalidValueTypeError(
                InvalidValueTypeError {
                    expected_type: String::from_str("u32"),
                    received_type: self.describe(),
                },
            )),
        }
    }

    /// Read this value as a `u64`. A non-integer variant is a
    /// `TypeMismatch`; an integer outside the target's range is a
    /// `RangeError`, never a silent truncation.
    pub fn to_u64(&self) -> (r: Result<u64, SurrealDbSchemaDeriveQueryError>)
        ensures
            match self@ {
                ValueView::Integer(i) => if 0 <= i {
                    r == Ok::<u64, SurrealDbSchemaDeriveQueryError>(i as u64)
                } else {
                    r matches Err(e) && e@ == (ErrorView::Range { expected: "u64"@, actual: i })
                },
                _ => r matches Err(e) && e@ == (ErrorView::TypeMismatch {
                    expected: "u64"@,
                    actual: spec_describe(self@),
                }),
            },
    {
        match self {
            Value::Integer(i) => if 0 <= *i {
                Ok(*i as u64)
            } else {
                Err(SurrealDbSchemaDeriveQueryError::RangeError(RangeError {
                    expected_type: String::from_str("u64"),
                    actual_value: *i,
                }))
            },
            _ => Err(SurrealDbSchemaDeriveQueryError::InvalidValueTypeError(
                InvalidValueTypeError {
                    expected_type: String::from_str("u64"),
                    received_type: self.describe(),
                },
            )),
        }
    }

    /// Read this value as a `i8`. A non-integer variant is a
    /// `TypeMismatch`; an integer outside the target's range is a
    /// `RangeError`, never a silent truncation.
    pub fn to_i8(&self) -> (r: Result<i8, SurrealDbSchemaDeriveQueryError>)
        ensures
            match self@ {
                ValueView::Integer(i) => if i8::MIN as i64 <= i && i <= i8::MAX as i64 {
                    r == Ok::<i8, SurrealDbSchemaDeriveQueryError>(i as i8)
                } else {
                    r matches Err(e) && e@ == (ErrorView::Range { expected: "i8"@, actual: i })
                },
                _ => r matches Err(e) && e@ == (ErrorView::TypeMismatch {
                    expected: "i8"@,
                    actual: spec_describe(self@),
                }),
            },
    {
        match self {
            Value::Integer(i) => if i8::MIN as i64 <= *i && *i <= i8::MAX as i64 {
                Ok(*i as i8)
            } else {
                Err(SurrealDbSchemaDeriveQueryError::RangeError(RangeError {
                    expected_type: String::from_str("i8"),
                    actual_value: *i,
                }))
            },
            _ => Err(SurrealDbSchemaDeriveQueryError::InvalidValueTypeError(
                InvalidValueTypeError {
                    expected_type: String::from_str("i8"),
                    received_type: self.describe(),
                },
            )),
        }
    }

    /// Read this value as a `i16`. A non-integer variant is a
    /// `TypeMismatch`; an integer outside the target's range is a
    /// `RangeError`, never a silent truncation.
    pub fn to_i16(&self) -> (r: Result<i16, SurrealDbSchemaDeriveQueryError>)
        ensures
            match self@ {
                ValueView::Integer(i) => if i16::MIN as i64 <= i && i <= i16::MAX as i64 {
                    r == Ok::<i16, SurrealDbSchemaDeriveQueryError>(i as i16)
                } else {
                    r matches Err(e) && e@ == (ErrorView::Range { expected: "i16"@, actual: i })
                },
                _ => r matches Err(e) && e@ == (ErrorView::TypeMismatch {
                    expected: "i16"@,
                    actual: spec_describe(self@),
                }),
            },
    {
        match self {
            Value::Integer(i) => if i16::MIN as i64 <= *i && *i <= i16::MAX as i64 {
                Ok(*i as i16)
            } else {
                Err(SurrealDbSchemaDeriveQueryError::RangeError(RangeError {
                    expected_type: String::from_str("i16"),
                    actual_value: *i,
                }))
            },
            _ => Err(SurrealDbSchemaDeriveQueryError::InvalidValueTypeError(
                InvalidValueTypeError {
                    expected_type: String::from_str("i16"),
                    received_type: self.describe(),
                },
            )),
        }
    }

    /// Read this value as a `i32`. A non-integer variant is a
    /// `TypeMismatch`; an integer outside the target's range is a
    /// `RangeError`, never a silent truncation.
    pub fn to_i32(&self) -> (r: Result<i32, SurrealDbSchemaDeriveQueryError>)
        ensures
            match self@ {
                ValueView::Integer(i) => if i32::MIN as i64 <= i && i <= i32::MAX as i64 {
                    r == Ok::<i32, SurrealDbSchemaDeriveQueryError>(i as i32)
                } else {
                    r matches Err(e) && e@ == (ErrorView::Range { expected: "i32"@, actual: i })
                },
                _ => r matches Err(e) && e@ == (ErrorView::TypeMismatch {
                    expected: "i32"@,
                    actual: spec_describe(self@),
                }),
            },
    {
        match self {
            Value::Integer(i) => if i32::MIN as i64 <= *i && *i <= i32::MAX as i64 {
                Ok(*i as i32)
            } else {
                Err(SurrealDbSchemaDeriveQueryError::RangeError(RangeError {
                    expected_type: String::from_str("i32"),
                    actual_value: *i,
                }))
            },
            _ => Err(SurrealDbSchemaDeriveQueryError::InvalidValueTypeError(
                InvalidValueTypeError {
                    expected_type: String::from_str("i32"),
                    received_type: self.describe(),
                },
            )),
        }
    }

    /// Read this value as a `i64`. A non-integer variant is a
    /// `TypeMismatch`; an integer outside the target's range is a
    /// `RangeError`, never a silent truncation.
    pub fn to_i64(&self) -> (r: Result<i64, SurrealDbSchemaDeriveQueryError>)
        ensures
            match self@ {
                ValueView::Integer(i) => r == Ok::<i64, SurrealDbSchemaDeriveQueryError>(i),
                _ => r matches Err(e) && e@ == (ErrorView::TypeMismatch {
                    expected: "i64"@,
                    actual: spec_describe(self@),
                }),
            },
    {
        match self {
            Value::Integer(i) => Ok(*i),
            _ => Err(SurrealDbSchemaDeriveQueryError::InvalidValueTypeError(
                InvalidValueTypeError {
                    expected_type: String::from_str("i64"),
                    received_type: self.describe(),
                },
            )),
        }
    }

    /// Read this value as a boolean; any other variant is a `TypeMismatch`.
    pub fn to_bool(&self) -> (r: Result<bool, SurrealDbSchemaDeriveQueryError>)
        ensures
            match self@ {
                ValueView::Bool(b) => r == Ok::<bool, SurrealDbSchemaDeriveQueryError>(b),
                _ => r matches Err(e) && e@ == (ErrorView::TypeMismatch {
                    expected: "bool"@,
                    actual: spec_describe(self@),
                }),
            },
    {
        match self {
            Value::Bool(b) => Ok(*b),
            _ => Err(SurrealDbSchemaDeriveQueryError::InvalidValueTypeError(
                InvalidValueTypeError {
                    expected_type: String::from_str("bool"),
                    received_type: self.describe(),
                },
            )),
        }
    }

    /// Read this value as a string; any other variant is a `TypeMismatch`.
    pub fn to_text(&self) -> (r: Result<String, SurrealDbSchemaDeriveQueryError>)
        ensures
            match self@ {
                ValueView::Text(s) => r matches Ok(t) && t@ == s,
                _ => r matches Err(e) && e@ == (ErrorView::TypeMismatch {
                    expected: "string"@,
                    actual: spec_describe(self@),
                }),
            },
    {
        match self {
            Value::Text(s) => Ok(s.clone()),
            _ => Err(SurrealDbSchemaDeriveQueryError::InvalidValueTypeError(
                InvalidValueTypeError {
                    expected_type: String::from_str("string"),
                    received_type: self.describe(),
                },
            )),
        }
    }

    /// Read this value as a float's bit pattern; any other variant is a
    /// `TypeMismatch`.
    pub fn to_float_bits(&self) -> (r: Result<u64, SurrealDbSchemaDeriveQueryError>)
        ensures
            match self@ {
                ValueView::Float(bits) => r == Ok::<u64, SurrealDbSchemaDeriveQueryError>(bits),
                _ => r matches Err(e) && e@ == (ErrorView::TypeMismatch {
                    expected: "float"@,
                    actual: spec_describe(self@),
                }),
            },
    {
        match self {
            Value::Float(bits) => Ok(*bits),
            _ => Err(SurrealDbSchemaDeriveQueryError::InvalidValueTypeError(
                InvalidValueTypeError {
                    expected_type: String::from_str("float"),
                    received_type: self.describe(),
                },
            )),
        }
    }

    /// Read this value as a record address; any other variant is a
    /// `TypeMismatch`.
    pub fn to_reference(&self) -> (r: Result<(String, Id), SurrealDbSchemaDeriveQueryError>)
        ensures
            match self@ {
                ValueView::Reference(table, id) => r matches Ok(p) && p.0@ == table && p.1 == id,
                _ => r matches Err(e) && e@ == (ErrorView::TypeMismatch {
                    expected: "record"@,
                    actual: spec_describe(self@),
                }),
            },
    {
        match self {
            Value::Reference(table, id) => Ok((table.clone(), *id)),
            _ => Err(SurrealDbSchemaDeriveQueryError::InvalidValueTypeError(
                InvalidValueTypeError {
                    expected_type: String::from_str("record"),
                    received_type: self.describe(),
                },
            )),
        }
    }
}

} // verus!
