use vstd::prelude::*;
use vstd::string::*;

use crate::errors::{ErrorView, InvalidValueTypeError, SurrealDbSchemaDeriveQueryError};
use crate::value::{obj_lookup, spec_describe, Entry, Id, Value, ValueView};

verus! {

broadcast use
    vstd::std_specs::vec::axiom_vec_index_decreases,
    vstd::std_specs::vec::axiom_vec_decreases_to_view,
    vstd::seq::axiom_seq_index_decreases,
    crate::value::group_value_view;

/// The declared shape of one field of a domain type. `Optional` wraps the
/// shape of the present value; `Sequence` the shape of each element.
#[derive(Debug, PartialEq, Eq)]
pub enum FieldKind {
    Bool,
    U8,
    U16,
    U32,
    U64,
    I8,
    I16,
    I32,
    I64,
    Float,
    Text,
    Record,
    Optional(Box<FieldKind>),
    Sequence(Box<FieldKind>),
}

/// One field's value in a typed instance, mirroring `FieldKind` shape by
/// shape. `Float` carries an IEEE-754 binary64 bit pattern. `Absent` and
/// `Present` are the two states of an optional field.
#[derive(Debug, PartialEq, Eq)]
pub enum FieldValue {
    Bool(bool),
    U8(u8),
    U16(u16),
    U32(u32),
    U64(u64),
    I8(i8),
    I16(i16),
    I32(i32),
    I64(i64),
    Float(u64),
    Text(String),
    Record(String, Id),
    Absent,
    Present(Box<FieldValue>),
    List(Vec<FieldValue>),
}

/// A field kind is well formed when an optional does not directly wrap
/// another optional: the dynamic model has a single `Null`, so a doubly
/// optional field could not tell "absent" from "present but absent".
pub open spec fn kind_wf(k: FieldKind) -> bool
    decreases k,
{
    match k {
        FieldKind::Optional(inner) => !((*inner) is Optional) && kind_wf(*inner),
        FieldKind::Sequence(inner) => kind_wf(*inner),
        _ => true,
    }
}

/// Does this field value have the declared shape?
pub open spec fn matches_kind(w: FieldValue, k: FieldKind) -> bool
    decreases w,
{
    match k {
        FieldKind::Bool => w is Bool,
        FieldKind::U8 => w is U8,
        FieldKind::U16 => w is U16,
        FieldKind::U32 => w is U32,
        FieldKind::U64 => w is U64,
        FieldKind::I8 => w is I8,
        FieldKind::I16 => w is I16,
        FieldKind::I32 => w is I32,
        FieldKind::I64 => w is I64,
        FieldKind::Float => w is Float,
        FieldKind::Text => w is Text,
        FieldKind::Record => w is Record,
        FieldKind::Optional(inner) => match w {
            FieldValue::Absent => true,
            FieldValue::Present(b) => matches_kind(*b, *inner),
            _ => false,
        },
        FieldKind::Sequence(inner) => match w {
            FieldValue::List(items) => forall|i: int|
                0 <= i < items@.len() ==> matches_kind(#[trigger] items@[i], *inner),
            _ => false,
        },
    }
}

/// The store's integer representation is a signed 64-bit number, so an
/// unsigned 64-bit field value must fit in one to be encodable.
pub open spec fn fits(w: FieldValue) -> bool
    decreases w,
{
    match w {
        FieldValue::U64(n) => n <= i64::MAX as u64,
        FieldValue::Present(b) => fits(*b),
        FieldValue::List(items) => forall|i: int|
            0 <= i < items@.len() ==> fits(#[trigger] items@[i]),
        _ => true,
    }
}

/// The dynamic value a field value encodes to. An absent optional encodes
/// to `Null`, a present one to its wrapped value's encoding; a list
/// encodes element-wise to an `Array`.
pub open spec fn spec_enc(w: FieldValue) -> ValueView
    decreases w,
{
    match w {
        FieldValue::Bool(b) => ValueView::Bool(b),
        FieldValue::U8(n) => ValueView::Integer(n as i64),
        FieldValue::U16(n) => ValueView::Integer(n as i64),
        FieldValue::U32(n) => ValueView::Integer(n as i64),
        FieldValue::U64(n) => ValueView::Integer(n as i64),
        FieldValue::I8(n) => ValueView::Integer(n as i64),
        FieldValue::I16(n) => ValueView::Integer(n as i64),
        FieldValue::I32(n) => ValueView::Integer(n as i64),
        FieldValue::I64(n) => ValueView::Integer(n),
        FieldValue::Float(bits) => ValueView::Float(bits),
        FieldValue::Text(s) => ValueView::Text(s@),
        FieldValue::Record(t, id) => ValueView::Reference(t@, id),
        FieldValue::Absent => ValueView::Null,
        FieldValue::Present(b) => spec_enc(*b),
        FieldValue::List(items) => ValueView::Array(
            Seq::new(
                items@.len(),
                |i: int|
                    if 0 <= i < items@.len() {
                        spec_enc(items@[i])
                    } else {
                        ValueView::Null
                    },
            ),
        ),
    }
}

/// Equality of field values, comparing strings and vectors by content.
pub open spec fn field_eq(a: FieldValue, b: FieldValue) -> bool
    decreases a,
{
    match (a, b) {
        (FieldValue::Bool(x), FieldValue::Bool(y)) => x == y,
        (FieldValue::U8(x), FieldValue::U8(y)) => x == y,
        (FieldValue::U16(x), FieldValue::U16(y)) => x == y,
        (FieldValue::U32(x), FieldValue::U32(y)) => x == y,
        (FieldValue::U64(x), FieldValue::U64(y)) => x == y,
        (FieldValue::I8(x), FieldValue::I8(y)) => x == y,
        (FieldValue::I16(x), FieldValue::I16(y)) => x == y,
        (FieldValue::I32(x), FieldValue::I32(y)) => x == y,
        (FieldValue::I64(x), FieldValue::I64(y)) => x == y,
        (FieldValue::Float(x), FieldValue::Float(y)) => x == y,
        (FieldValue::Text(s), FieldValue::Text(t)) => s@ == t@,
        (FieldValue::Record(s, i), FieldValue::Record(t, j)) => s@ == t@ && i == j,
        (FieldValue::Absent, FieldValue::Absent) => true,
        (FieldValue::Present(x), FieldValue::Present(y)) => field_eq(*x, *y),
        (FieldValue::List(xs), FieldValue::List(ys)) => xs@.len() == ys@.len() && forall|i: int|
            0 <= i < xs@.len() ==> field_eq(#[trigger] xs@[i], ys@[i]),
        _ => false,
    }
}

/// The name a kind reports as the expected type in a decode error.
pub open spec fn spec_kind_name(k: FieldKind) -> Seq<char>
    decreases k,
{
    match k {
        FieldKind::Bool => "bool"@,
        FieldKind::U8 => "u8"@,
        FieldKind::U16 => "u16"@,
        FieldKind::U32 => "u32"@,
        FieldKind::U64 => "u64"@,
        FieldKind::I8 => "i8"@,
        FieldKind::I16 => "i16"@,
        FieldKind::I32 => "i32"@,
        FieldKind::I64 => "i64"@,
        FieldKind::Float => "float"@,
        FieldKind::Text => "string"@,
        FieldKind::Record => "record"@,
        FieldKind::Optional(inner) => spec_kind_name(*inner),
        FieldKind::Sequence(_) => "array"@,
    }
}

/// Does a dynamic value decode successfully at this kind? `Null` decodes
/// only at an optional kind; an integer decodes at an integer kind only
/// when it fits the kind's range.
pub open spec fn dec_ok(k: FieldKind, v: ValueView) -> bool
    decreases k,
{
    match k {
        FieldKind::Bool => v is Bool,
        FieldKind::U8 => v matches ValueView::Integer(i) && 0 <= i && i <= u8::MAX as i64,
        FieldKind::U16 => v matches ValueView::Integer(i) && 0 <= i && i <= u16::MAX as i64,
        FieldKind::U32 => v matches ValueView::Integer(i) && 0 <= i && i <= u32::MAX as i64,
        FieldKind::U64 => v matches ValueView::Integer(i) && 0 <= i,
        FieldKind::I8 => v matches ValueView::Integer(i) && i8::MIN as i64 <= i && i <= i8::MAX
            as i64,
        FieldKind::I16 => v matches ValueView::Integer(i) && i16::MIN as i64 <= i && i <= i16::MAX
            as i64,
        FieldKind::I32 => v matches ValueView::Integer(i) && i32::MIN as i64 <= i && i <= i32::MAX
            as i64,
        FieldKind::I64 => v is Integer,
        FieldKind::Float => v is Float,
        FieldKind::Text => v is Text,
        FieldKind::Record => v is Reference,
        FieldKind::Optional(inner) => v is Null || dec_ok(*inner, v),
        FieldKind::Sequence(inner) => v matches ValueView::Array(items) && forall|i: int|
            0 <= i < items.len() ==> dec_ok(*inner, #[trigger] items[i]),
    }
}

/// The error a failing decode reports. Meaningful only when
/// `dec_ok(k, v)` is false: an integer kind met by an integer out of range
/// reports a `Range` error, every other disagreement a `TypeMismatch`; a
/// failing element of a sequence reports the first element's error.
pub open spec fn dec_err(k: FieldKind, v: ValueView) -> ErrorView
    decreases k, 0int,
{
    match k {
        FieldKind::I64 | FieldKind::Bool | FieldKind::Float | FieldKind::Text
            | FieldKind::Record => ErrorView::TypeMismatch {
            expected: spec_kind_name(k),
            actual: spec_describe(v),
        },
        FieldKind::Optional(inner) => dec_err(*inner, v),
        FieldKind::Sequence(inner) => match v {
            ValueView::Array(items) => dec_err_list(*inner, items),
            _ => ErrorView::TypeMismatch { expected: "array"@, actual: spec_describe(v) },
        },
        _ => match v {
            ValueView::Integer(i) => ErrorView::Range { expected: spec_kind_name(k), actual: i },
            _ => ErrorView::TypeMismatch { expected: spec_kind_name(k), actual: spec_describe(v) },
        },
    }
}

/// The error of the first element of `items` that does not decode at
/// `k`; meaningful only when such an element exists.
pub open spec fn dec_err_list(k: FieldKind, items: Seq<ValueView>) -> ErrorView
    decreases k, items.len() + 1,
{
    if items.len() == 0 {
        // Never reached when some element fails; an arbitrary report.
        dec_err(k, ValueView::Null)
    } else if dec_ok(k, items[0]) {
        dec_err_list(k, items.drop_first())
    } else {
        dec_err(k, items[0])
    }
}

/// `dec_err_list` reports the error of the first failing element.
pub proof fn lemma_dec_err_list_at(k: FieldKind, items: Seq<ValueView>, i: int)
    requires
        0 <= i < items.len(),
        !dec_ok(k, items[i]),
        forall|j: int| 0 <= j < i ==> dec_ok(k, #[trigger] items[j]),
    ensures
        dec_err_list(k, items) == dec_err(k, items[i]),
    decreases i,
{
    if i > 0 {
        lemma_dec_err_list_at(k, items.drop_first(), i - 1);
    }
}

impl FieldKind {
    /// The name this kind reports as the expected type in decode errors.
    pub fn name(&self) -> (r: String)
        ensures
            r@ == spec_kind_name(*self),
        decreases self,
    {
        match self {
            FieldKind::Bool => String::from_str("bool"),
            FieldKind::U8 => String::from_str("u8"),
            FieldKind::U16 => String::from_str("u16"),
            FieldKind::U32 => String::from_str("u32"),
            FieldKind::U64 => String::from_str("u64"),
            FieldKind::I8 => String::from_str("i8"),
            FieldKind::I16 => String::from_str("i16"),
            FieldKind::I32 => String::from_str("i32"),
            FieldKind::I64 => String::from_str("i64"),
            FieldKind::Float => String::from_str("float"),
            FieldKind::Text => String::from_str("string"),
            FieldKind::Record => String::from_str("record"),
            FieldKind::Optional(inner) => inner.name(),
            FieldKind::Sequence(_) => String::from_str("array"),
        }
    }

    /// Is this an optional kind?
    pub fn is_optional(&self) -> (r: bool)
        ensures
            r == (*self is Optional),
    {
        match self {
            FieldKind::Optional(_) => true,
            _ => false,
        }
    }

    /// Does this kind satisfy `kind_wf`? Lets unverified callers check a
    /// kind they built at run time.
    pub fn check_wf(&self) -> (r: bool)
        ensures
            r == kind_wf(*self),
        decreases self,
    {
        match self {
            FieldKind::Optional(inner) => !inner.is_optional() && inner.check_wf(),
            FieldKind::Sequence(inner) => inner.check_wf(),
            _ => true,
        }
    }
}

impl FieldValue {
    /// Does this value have the declared shape? Lets unverified callers
    /// check an instance they built at run time.
    #[verifier::loop_isolation(false)]
    pub fn matches(&self, k: &FieldKind) -> (r: bool)
        ensures
            r == matches_kind(*self, *k),
        decreases self,
    {
        match k {
            FieldKind::Bool => matches!(self, FieldValue::Bool(_)),
            FieldKind::U8 => matches!(self, FieldValue::U8(_)),
            FieldKind::U16 => matches!(self, FieldValue::U16(_)),
            FieldKind::U32 => matches!(self, FieldValue::U32(_)),
            FieldKind::U64 => matches!(self, FieldValue::U64(_)),
            FieldKind::I8 => matches!(self, FieldValue::I8(_)),
            FieldKind::I16 => matches!(self, FieldValue::I16(_)),
            FieldKind::I32 => matches!(self, FieldValue::I32(_)),
            FieldKind::I64 => matches!(self, FieldValue::I64(_)),
            FieldKind::Float => matches!(self, FieldValue::Float(_)),
            FieldKind::Text => matches!(self, FieldValue::Text(_)),
            FieldKind::Record => matches!(self, FieldValue::Record(_, _)),
            FieldKind::Optional(inner) => match self {
                FieldValue::Absent => true,
                FieldValue::Present(b) => b.matches(&**inner),
                _ => false,
            },
            FieldKind::Sequence(inner) => match self {
                FieldValue::List(items) => {
                    let mut i: usize = 0;
                    while i < items.len()
                        invariant
                            i <= items.len(),
                            forall|j: int| 0 <= j < i as int ==> matches_kind(
                                #[trigger] items@[j],
                                **inner,
                            ),
                        decreases items.len() - i,
                    {
                        proof {
                            vstd::std_specs::vec::axiom_vec_index_decreases::<FieldValue>(
                                *items,
                                i as int,
                            );
                        }
                        if !items[i].matches(&**inner) {
                            return false;
                        }
                        i = i + 1;
                    }
                    true
                },
                _ => false,
            },
        }
    }

    /// Is this value encodable: does every unsigned 64-bit number in it
    /// fit the store's signed representation?
    #[verifier::loop_isolation(false)]
    pub fn fits_check(&self) -> (r: bool)
        ensures
            r == fits(*self),
        decreases self,
    {
        match self {
            FieldValue::U64(n) => *n <= i64::MAX as u64,
            FieldValue::Present(b) => b.fits_check(),
            FieldValue::List(items) => {
                let mut i: usize = 0;
                while i < items.len()
                    invariant
                        i <= items.len(),
                        forall|j: int| 0 <= j < i as int ==> fits(#[trigger] items@[j]),
                    decreases items.len() - i,
                {
                    proof {
                        vstd::std_specs::vec::axiom_vec_index_decreases::<FieldValue>(
                            *items,
                            i as int,
                        );
                    }
                    if !items[i].fits_check() {
                        return false;
                    }
                    i = i + 1;
                }
                true
            },
            _ => true,
        }
    }
}

/// Encode one field value into its dynamic form.
#[verifier::loop_isolation(false)]
pub fn encode_field(w: &FieldValue) -> (v: Value)
    requires
        fits(*w),
    ensures
        v@ == spec_enc(*w),
    decreases w,
{
    match w {
        FieldValue::Bool(b) => Value::Bool(*b),
        FieldValue::U8(n) => Value::Integer(*n as i64),
        FieldValue::U16(n) => Value::Integer(*n as i64),
        FieldValue::U32(n) => Value::Integer(*n as i64),
        FieldValue::U64(n) => Value::Integer(*n as i64),
        FieldValue::I8(n) => Value::Integer(*n as i64),
        FieldValue::I16(n) => Value::Integer(*n as i64),
        FieldValue::I32(n) => Value::Integer(*n as i64),
        FieldValue::I64(n) => Value::Integer(*n),
        FieldValue::Float(bits) => Value::Float(*bits),
        FieldValue::Text(s) => Value::Text(s.clone()),
        FieldValue::Record(t, id) => Value::Reference(t.clone(), *id),
        FieldValue::Absent => Value::Null,
        FieldValue::Present(b) => encode_field(&**b),
        FieldValue::List(items) => {
            let mut out: Vec<Value> = Vec::new();
            let mut i: usize = 0;
            while i < items.len()
                invariant
                    i <= items.len(),
                    out@.len() == i as int,
                    forall|j: int| 0 <= j < i as int ==> out@[j]@ == spec_enc(items@[j]),
                decreases items.len() - i,
            {
                proof {
                    vstd::std_specs::vec::axiom_vec_index_decreases::<FieldValue>(
                        *items,
                        i as int,
                    );
                }
                out.push(encode_field(&items[i]));
                i = i + 1;
            }
            let r = Value::Array(out);
            proof {
                assert(r@->Array_0 =~= spec_enc(*w)->Array_0);
            }
            r
        },
    }
}

/// Decode a dynamic value into a field value of the given kind. The
/// result is exactly the value whose encoding is `v`; failures are
/// classified by `dec_err`.
#[verifier::loop_isolation(false)]
pub fn decode_field(k: &FieldKind, v: &Value) -> (r: Result<
    FieldValue,
    SurrealDbSchemaDeriveQueryError,
>)
    ensures
        dec_ok(*k, v@) <==> r is Ok,
        r matches Ok(w) ==> matches_kind(w, *k) && fits(w) && spec_enc(w) == v@,
        r matches Err(e) ==> e@ == dec_err(*k, v@),
    decreases k,
{
    match k {
        FieldKind::Bool => match v.to_bool() {
            Ok(b) => Ok(FieldValue::Bool(b)),
            Err(e) => Err(e),
        },
        FieldKind::U8 => match v.to_u8() {
            Ok(n) => Ok(FieldValue::U8(n)),
            Err(e) => Err(e),
        },
        FieldKind::U16 => match v.to_u16() {
            Ok(n) => Ok(FieldValue::U16(n)),
            Err(e) => Err(e),
        },
        FieldKind::U32 => match v.to_u32() {
            Ok(n) => Ok(FieldValue::U32(n)),
            Err(e) => Err(e),
        },
        FieldKind::U64 => match v.to_u64() {
            Ok(n) => Ok(FieldValue::U64(n)),
            Err(e) => Err(e),
        },
        FieldKind::I8 => match v.to_i8() {
            Ok(n) => Ok(FieldValue::I8(n)),
            Err(e) => Err(e),
        },
        FieldKind::I16 => match v.to_i16() {
            Ok(n) => Ok(FieldValue::I16(n)),
            Err(e) => Err(e),
        },
        FieldKind::I32 => match v.to_i32() {
            Ok(n) => Ok(FieldValue::I32(n)),
            Err(e) => Err(e),
        },
        FieldKind::I64 => match v.to_i64() {
            Ok(n) => Ok(FieldValue::I64(n)),
            Err(e) => Err(e),
        },
        FieldKind::Float => match v.to_float_bits() {
            Ok(bits) => Ok(FieldValue::Float(bits)),
            Err(e) => Err(e),
        },
        FieldKind::Text => match v.to_text() {
            Ok(s) => Ok(FieldValue::Text(s)),
            Err(e) => Err(e),
        },
        FieldKind::Record => match v.to_reference() {
            Ok((t, id)) => Ok(FieldValue::Record(t, id)),
            Err(e) => Err(e),
        },
        FieldKind::Optional(inner) => match v {
            Value::Null => Ok(FieldValue::Absent),
            _ => match decode_field(&**inner, v) {
                Ok(w) => Ok(FieldValue::Present(Box::new(w))),
                Err(e) => Err(e),
            },
        },
        FieldKind::Sequence(inner) => match v {
            Value::Array(items) => {
                let ghost iv = v@->Array_0;
                let mut out: Vec<FieldValue> = Vec::new();
                let mut i: usize = 0;
                while i < items.len()
                    invariant
                        i <= items.len(),
                        out@.len() == i as int,
                        forall|j: int| 0 <= j < i as int ==> dec_ok(**inner, #[trigger] iv[j]),
                        forall|j: int| 0 <= j < i as int ==> matches_kind(
                            #[trigger] out@[j],
                            **inner,
                        ) && fits(out@[j]) && spec_enc(out@[j]) == iv[j],
                    decreases items.len() - i,
                {
                    match decode_field(&**inner, &items[i]) {
                        Ok(w) => {
                            out.push(w);
                        },
                        Err(e) => {
                            proof {
                                lemma_dec_err_list_at(*(*inner), iv, i as int);
                            }
                            return Err(e);
                        },
                    }
                    i = i + 1;
                }
                let r = FieldValue::List(out);
                proof {
                    assert(spec_enc(r)->Array_0 =~= iv);
                }
                Ok(r)
            },
            _ => Err(SurrealDbSchemaDeriveQueryError::InvalidValueTypeError(
                InvalidValueTypeError {
                    expected_type: String::from_str("array"),
                    received_type: v.describe(),
                },
            )),
        },
    }
}

/// A value that matches a non-optional kind never encodes to `Null`:
/// only an absent optional does.
pub proof fn lemma_enc_not_null(k: FieldKind, w: FieldValue)
    requires
        matches_kind(w, k),
        !(k is Optional),
    ensures
        spec_enc(w) != ValueView::Null,
{
}

/// Encoding by a well-formed kind always produces a value that decodes
/// at that kind.
pub proof fn lemma_enc_dec_ok(k: FieldKind, w: FieldValue)
    requires
        kind_wf(k),
        matches_kind(w, k),
        fits(w),
    ensures
        dec_ok(k, spec_enc(w)),
    decreases w,
{
    match k {
        FieldKind::Optional(inner) => match w {
            FieldValue::Present(b) => {
                lemma_enc_dec_ok(*inner, *b);
            },
            _ => {},
        },
        FieldKind::Sequence(inner) => match w {
            FieldValue::List(items) => {
                assert forall|i: int| 0 <= i < (spec_enc(w)->Array_0).len() implies dec_ok(
                    *inner,
                    #[trigger] (spec_enc(w)->Array_0)[i],
                ) by {
                    lemma_enc_dec_ok(*inner, items@[i]);
                }
            },
            _ => {},
        },
        _ => {},
    }
}

/// On values of one well-formed kind, encoding is injective: two values
/// with one encoding are equal. With `lemma_enc_dec_ok` this makes
/// decode the inverse of encode.
pub proof fn lemma_enc_injective(k: FieldKind, a: FieldValue, b: FieldValue)
    requires
        kind_wf(k),
        matches_kind(a, k),
        matches_kind(b, k),
        fits(a),
        fits(b),
        spec_enc(a) == spec_enc(b),
    ensures
        field_eq(a, b),
    decreases a,
{
    match k {
        FieldKind::Optional(inner) => {
            match (a, b) {
                (FieldValue::Present(x), FieldValue::Absent) => {
                    lemma_enc_not_null(*inner, *x);
                },
                (FieldValue::Absent, FieldValue::Present(y)) => {
                    lemma_enc_not_null(*inner, *y);
                },
                (FieldValue::Present(x), FieldValue::Present(y)) => {
                    lemma_enc_injective(*inner, *x, *y);
                },
                _ => {},
            }
            assert(field_eq(a, b));
        },
        FieldKind::Sequence(inner) => {
            match (a, b) {
                (FieldValue::List(xs), FieldValue::List(ys)) => {
                    assert(spec_enc(a)->Array_0 == spec_enc(b)->Array_0);
                    assert((spec_enc(a)->Array_0).len() == xs@.len());
                    assert((spec_enc(b)->Array_0).len() == ys@.len());
                    assert(xs@.len() == ys@.len());
                    assert forall|i: int| 0 <= i < xs@.len() implies field_eq(
                        #[trigger] xs@[i],
                        ys@[i],
                    ) by {
                        assert((spec_enc(a)->Array_0)[i] == spec_enc(xs@[i]));
                        assert((spec_enc(b)->Array_0)[i] == spec_enc(ys@[i]));
                        lemma_enc_injective(*inner, xs@[i], ys@[i]);
                    }
                },
                _ => {},
            }
            assert(field_eq(a, b));
        },
        FieldKind::Bool => {},
        FieldKind::U8 => {},
        FieldKind::U16 => {},
        FieldKind::U32 => {},
        FieldKind::U64 => {},
        FieldKind::I8 => {},
        FieldKind::I16 => {},
        FieldKind::I32 => {},
        FieldKind::I64 => {},
        FieldKind::Float => {},
        FieldKind::Text => {},
        FieldKind::Record => {},
    }
}

} // verus!
