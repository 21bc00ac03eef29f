use vstd::prelude::*;
use vstd::string::*;

use crate::convert::{
    dec_err, dec_ok, field_eq, fits, kind_wf, lemma_enc_dec_ok, lemma_enc_injective, matches_kind,
    spec_enc, spec_kind_name, FieldKind, FieldValue,
};
use crate::errors::{ErrorView, InvalidValueTypeError, SurrealDbSchemaDeriveQueryError};
use crate::value::{
    lemma_obj_lookup_at, obj_lookup, spec_describe, Entry, Value, ValueView,
};

verus! {

broadcast use
    vstd::std_specs::vec::axiom_vec_index_decreases,
    vstd::std_specs::vec::axiom_vec_decreases_to_view,
    vstd::seq::axiom_seq_index_decreases,
    crate::value::group_value_view;

/// One declared field of a domain type: its key in the stored object and
/// its shape.
#[derive(Debug, PartialEq, Eq)]
pub struct FieldBinding {
    pub name: String,
    pub kind: FieldKind,
}

/// The per-type descriptor driving conversion and CRUD: the table the
/// type's records live in and the ordered list of its fields. Built once
/// per domain type, before any conversion, and never changed afterwards.
#[derive(Debug, PartialEq, Eq)]
pub struct TypeBinding {
    pub table_name: String,
    pub fields: Vec<FieldBinding>,
}

/// A binding is well formed when its table is named, its field names are
/// non-empty and pairwise distinct, every kind is well formed, and no
/// field is called "id": the store reserves that key for record identity.
pub open spec fn binding_wf(b: TypeBinding) -> bool {
    &&& b.table_name@.len() > 0
    &&& forall|i: int, j: int|
        0 <= i < j < b.fields@.len() ==> (#[trigger] b.fields@[i].name@)
            != (#[trigger] b.fields@[j].name@)
    &&& forall|i: int| 0 <= i < b.fields@.len() ==> kind_wf((#[trigger] b.fields@[i]).kind)
    &&& forall|i: int| 0 <= i < b.fields@.len() ==> (#[trigger] b.fields@[i]).name@.len() > 0
    &&& forall|i: int| 0 <= i < b.fields@.len() ==> (#[trigger] b.fields@[i]).name@ != "id"@
}

/// An instance is the field values of one domain object, aligned with a
/// binding's field list: same length, each value of the declared shape
/// and encodable.
pub open spec fn instance_matches(vals: Seq<FieldValue>, b: TypeBinding) -> bool {
    &&& vals.len() == b.fields@.len()
    &&& forall|i: int|
        0 <= i < vals.len() ==> matches_kind(#[trigger] vals[i], b.fields@[i].kind)
    &&& forall|i: int| 0 <= i < vals.len() ==> fits(#[trigger] vals[i])
}

/// The object an instance encodes to: one pair per field, in binding
/// order, each field's value encoded by its shape.
pub open spec fn spec_encode_obj(vals: Seq<FieldValue>, fields: Seq<FieldBinding>) -> Seq<
    (Seq<char>, ValueView),
> {
    Seq::new(
        fields.len(),
        |i: int|
            if 0 <= i < fields.len() && i < vals.len() {
                (fields[i].name@, spec_enc(vals[i]))
            } else {
                (Seq::empty(), ValueView::Null)
            },
    )
}

/// Does one declared field decode from the given object? A present key
/// must decode at the field's kind; a missing key is allowed only for an
/// optional field.
pub open spec fn field_dec_ok(fb: FieldBinding, pairs: Seq<(Seq<char>, ValueView)>) -> bool {
    match obj_lookup(pairs, fb.name@) {
        Option::Some(v) => dec_ok(fb.kind, v),
        Option::None => fb.kind is Optional,
    }
}

/// Does a dynamic value decode into an instance of the binding? It must
/// be an object, and every declared field must decode from it.
pub open spec fn instance_dec_ok(fields: Seq<FieldBinding>, v: ValueView) -> bool {
    &&& v is Object
    &&& forall|i: int|
        0 <= i < fields.len() ==> field_dec_ok(#[trigger] fields[i], v->Object_0)
}

/// What a successful instance decode returns: one value per declared
/// field; a value whose encoding is the one stored under the field's
/// name, or `Absent` where an optional field's key is missing.
pub open spec fn decode_post(
    fields: Seq<FieldBinding>,
    pairs: Seq<(Seq<char>, ValueView)>,
    ws: Seq<FieldValue>,
) -> bool {
    &&& ws.len() == fields.len()
    &&& forall|i: int|
        0 <= i < fields.len() ==> match obj_lookup(pairs, fields[i].name@) {
            Option::Some(v) => matches_kind(#[trigger] ws[i], fields[i].kind) && fits(ws[i])
                && spec_enc(ws[i]) == v,
            Option::None => ws[i] == FieldValue::Absent,
        }
}

/// The error one declared field reports against an object: the decode
/// error of the stored value, or a mismatch naming the missing field.
pub open spec fn field_err(fb: FieldBinding, pairs: Seq<(Seq<char>, ValueView)>) -> ErrorView {
    match obj_lookup(pairs, fb.name@) {
        Option::Some(v) => dec_err(fb.kind, v),
        Option::None => ErrorView::TypeMismatch {
            expected: spec_kind_name(fb.kind),
            actual: "missing field: "@ + fb.name@,
        },
    }
}

/// The error of the first declared field that does not decode;
/// meaningful only when such a field exists.
pub open spec fn first_field_err(
    fields: Seq<FieldBinding>,
    pairs: Seq<(Seq<char>, ValueView)>,
) -> ErrorView
    decreases fields.len(),
{
    if fields.len() == 0 {
        // Never reached when some field fails; an arbitrary report.
        ErrorView::TypeMismatch { expected: Seq::empty(), actual: Seq::empty() }
    } else if field_dec_ok(fields[0], pairs) {
        first_field_err(fields.drop_first(), pairs)
    } else {
        field_err(fields[0], pairs)
    }
}

/// The error a failing instance decode reports: a mismatch when the
/// value is not an object at all, else the first failing field's error.
pub open spec fn instance_dec_err(fields: Seq<FieldBinding>, v: ValueView) -> ErrorView {
    if !(v is Object) {
        ErrorView::TypeMismatch { expected: "object"@, actual: spec_describe(v) }
    } else {
        first_field_err(fields, v->Object_0)
    }
}

/// `first_field_err` reports the error of the first failing field.
pub proof fn lemma_first_field_err_at(
    fields: Seq<FieldBinding>,
    pairs: Seq<(Seq<char>, ValueView)>,
    i: int,
)
    requires
        0 <= i < fields.len(),
        !field_dec_ok(fields[i], pairs),
        forall|j: int| 0 <= j < i ==> field_dec_ok(#[trigger] fields[j], pairs),
    ensures
        first_field_err(fields, pairs) == field_err(fields[i], pairs),
    decreases i,
{
    if i > 0 {
        lemma_first_field_err_at(fields.drop_first(), pairs, i - 1);
    }
}


impl TypeBinding {
    /// Does this binding satisfy `binding_wf`? Lets unverified callers
    /// check a binding they built at run time before handing it to the
    /// converter or the CRUD runtime.
    #[verifier::loop_isolation(false)]
    pub fn check_wf(&self) -> (r: bool)
        ensures
            r == binding_wf(*self),
    {
        if self.table_name.as_str().is_empty() {
            return false;
        }
        let id_key = String::from_str("id");
        let mut i: usize = 0;
        while i < self.fields.len()
            invariant
                i <= self.fields.len(),
                forall|a: int, b: int| 0 <= a < b < i as int ==> (#[trigger] self.fields@[a].name@)
                    != (#[trigger] self.fields@[b].name@),
                forall|a: int| 0 <= a < i as int ==> kind_wf((#[trigger] self.fields@[a]).kind),
                forall|a: int| 0 <= a < i as int ==> (#[trigger] self.fields@[a]).name@.len() > 0,
                forall|a: int| 0 <= a < i as int ==> (#[trigger] self.fields@[a]).name@ != "id"@,
                id_key@ == "id"@,
            decreases self.fields.len() - i,
        {
            if self.fields[i].name.as_str().is_empty() {
                return false;
            }
            if self.fields[i].name == id_key {
                return false;
            }
            if !self.fields[i].kind.check_wf() {
                return false;
            }
            let mut j: usize = 0;
            while j < i
                invariant
                    j <= i <= self.fields.len(),
                    forall|a: int| 0 <= a < j as int ==> (#[trigger] self.fields@[a].name@)
                        != self.fields@[i as int].name@,
                decreases i - j,
            {
                if self.fields[j].name == self.fields[i].name {
                    return false;
                }
                j = j + 1;
            }
            i = i + 1;
        }
        true
    }

    /// Do these values form an instance of this binding: one value per
    /// field, each of the declared shape and encodable?
    #[verifier::loop_isolation(false)]
    pub fn accepts(&self, vals: &Vec<FieldValue>) -> (r: bool)
        ensures
            r == instance_matches(vals@, *self),
    {
        if vals.len() != self.fields.len() {
            return false;
        }
        let mut i: usize = 0;
        while i < vals.len()
            invariant
                i <= vals.len(),
                vals@.len() == self.fields@.len(),
                forall|j: int| 0 <= j < i as int ==> matches_kind(
                    #[trigger] vals@[j],
                    self.fields@[j].kind,
                ),
                forall|j: int| 0 <= j < i as int ==> fits(#[trigger] vals@[j]),
            decreases vals.len() - i,
        {
            if !vals[i].matches(&self.fields[i].kind) {
                return false;
            }
            if !vals[i].fits_check() {
                return false;
            }
            i = i + 1;
        }
        true
    }
}

/// Encode an instance into the object the store will hold: the binding's
/// field names as keys, each field's value encoded by its shape.
#[verifier::loop_isolation(false)]
pub fn encode_instance(b: &TypeBinding, vals: &Vec<FieldValue>) -> (v: Value)
    requires
        instance_matches(vals@, *b),
    ensures
        v@ == ValueView::Object(spec_encode_obj(vals@, b.fields@)),
        v@ is Object,
{
    let mut out: Vec<Entry> = Vec::new();
    let mut i: usize = 0;
    while i < b.fields.len()
        invariant
            i <= b.fields.len(),
            out@.len() == i as int,
            forall|j: int| 0 <= j < i as int ==> (#[trigger] out@[j]).key@ == b.fields@[j].name@
                && out@[j].value@ == spec_enc(vals@[j]),
        decreases b.fields.len() - i,
    {
        let entry = Entry {
            key: b.fields[i].name.clone(),
            value: crate::convert::encode_field(&vals[i]),
        };
        out.push(entry);
        i = i + 1;
    }
    let r = Value::Object(out);
    proof {
        assert(r@->Object_0 =~= spec_encode_obj(vals@, b.fields@));
    }
    r
}

/// Decode a stored object into an instance of the binding. The whole
/// decode fails with the first field-level error, in binding order; no
/// partial instance is returned. A missing key decodes to `Absent` for an
/// optional field and fails naming the field for a required one.
#[verifier::loop_isolation(false)]
pub fn decode_instance(b: &TypeBinding, v: &Value) -> (r: Result<
    Vec<FieldValue>,
    SurrealDbSchemaDeriveQueryError,
>)
    ensures
        instance_dec_ok(b.fields@, v@) <==> r is Ok,
        r matches Ok(ws) ==> decode_post(b.fields@, v@->Object_0, ws@),
        r matches Err(e) ==> e@ == instance_dec_err(b.fields@, v@),
{
    match v {
        Value::Object(_) => {
            let ghost pairs = v@->Object_0;
            let mut out: Vec<FieldValue> = Vec::new();
            let mut i: usize = 0;
            while i < b.fields.len()
                invariant
                    v@ is Object,
                    pairs == v@->Object_0,
                    i <= b.fields.len(),
                    out@.len() == i as int,
                    forall|j: int| 0 <= j < i as int ==> field_dec_ok(
                        #[trigger] b.fields@[j],
                        pairs,
                    ),
                    forall|j: int| 0 <= j < i as int ==> match obj_lookup(
                        pairs,
                        b.fields@[j].name@,
                    ) {
                        Option::Some(vv) => matches_kind(#[trigger] out@[j], b.fields@[j].kind)
                            && fits(out@[j]) && spec_enc(out@[j]) == vv,
                        Option::None => out@[j] == FieldValue::Absent,
                    },
                decreases b.fields.len() - i,
            {
                match v.get(&b.fields[i].name) {
                    Some(found) => {
                        match crate::convert::decode_field(&b.fields[i].kind, found) {
                            Ok(w) => {
                                out.push(w);
                            },
                            Err(e) => {
                                proof {
                                    lemma_first_field_err_at(b.fields@, pairs, i as int);
                                }
                                return Err(e);
                            },
                        }
                    },
                    None => {
                        if b.fields[i].kind.is_optional() {
                            out.push(FieldValue::Absent);
                        } else {
                            proof {
                                lemma_first_field_err_at(b.fields@, pairs, i as int);
                            }
                            let message = String::from_str("missing field: ").concat(
                                b.fields[i].name.as_str(),
                            );
                            return Err(SurrealDbSchemaDeriveQueryError::InvalidValueTypeError(
                                InvalidValueTypeError {
                                    expected_type: b.fields[i].kind.name(),
                                    received_type: message,
                                },
                            ));
                        }
                    },
                }
                i = i + 1;
            }
            Ok(out)
        },
        _ => Err(SurrealDbSchemaDeriveQueryError::InvalidValueTypeError(
            InvalidValueTypeError {
                expected_type: String::from_str("object"),
                received_type: v.describe(),
            },
        )),
    }
}

/// In the object an instance encodes to, each field's name leads back to
/// that field's encoded value: the names are distinct, so the lookup
/// finds the field's own pair.
pub proof fn lemma_lookup_encoded(vals: Seq<FieldValue>, b: TypeBinding, i: int)
    requires
        binding_wf(b),
        vals.len() == b.fields@.len(),
        0 <= i < b.fields@.len(),
    ensures
        obj_lookup(spec_encode_obj(vals, b.fields@), b.fields@[i].name@) == Option::Some(
            spec_enc(vals[i]),
        ),
{
    let pairs = spec_encode_obj(vals, b.fields@);
    assert(pairs[i].0 == b.fields@[i].name@);
    assert forall|j: int| 0 <= j < i implies pairs[j].0 != b.fields@[i].name@ by {
        assert(b.fields@[j].name@ != b.fields@[i].name@);
    }
    lemma_obj_lookup_at(pairs, b.fields@[i].name@, i);
}

/// Encoding a matching instance always yields an object that decodes:
/// the first half of the round-trip law.
pub proof fn lemma_encode_then_decode_ok(b: TypeBinding, vals: Seq<FieldValue>)
    requires
        binding_wf(b),
        instance_matches(vals, b),
    ensures
        instance_dec_ok(b.fields@, ValueView::Object(spec_encode_obj(vals, b.fields@))),
{
    let pairs = spec_encode_obj(vals, b.fields@);
    assert forall|i: int| 0 <= i < b.fields@.len() implies field_dec_ok(
        #[trigger] b.fields@[i],
        pairs,
    ) by {
        lemma_lookup_encoded(vals, b, i);
        lemma_enc_dec_ok(b.fields@[i].kind, vals[i]);
    }
}

/// The round-trip law: whatever `decode_instance` returns for the object
/// a matching instance encodes to is, field for field, equal to the
/// instance that was encoded. `decode_post` is the relation
/// `decode_instance` establishes for its successful result.
pub proof fn lemma_round_trip(b: TypeBinding, vals: Seq<FieldValue>, decoded: Seq<FieldValue>)
    requires
        binding_wf(b),
        instance_matches(vals, b),
        decode_post(b.fields@, spec_encode_obj(vals, b.fields@), decoded),
    ensures
        decoded.len() == vals.len(),
        forall|i: int| 0 <= i < vals.len() ==> field_eq(#[trigger] decoded[i], vals[i]),
{
    assert forall|i: int| 0 <= i < vals.len() implies field_eq(
        #[trigger] decoded[i],
        vals[i],
    ) by {
        lemma_lookup_encoded(vals, b, i);
        lemma_enc_dec_ok(b.fields@[i].kind, vals[i]);
        lemma_enc_injective(b.fields@[i].kind, decoded[i], vals[i]);
    }
}

/// The optionality law. An absent optional field encodes to `Null`; a
/// stored `Null` decodes to absent at an optional kind, and only to
/// absent; at a required kind a stored `Null` fails, with a
/// `TypeMismatch` naming the kind.
pub proof fn lemma_optionality(k: FieldKind, w: FieldValue)
    requires
        kind_wf(k),
    ensures
        spec_enc(FieldValue::Absent) == ValueView::Null,
        k is Optional ==> dec_ok(k, ValueView::Null),
        k is Optional && matches_kind(w, k) && spec_enc(w) == ValueView::Null ==> w
            == FieldValue::Absent,
        !(k is Optional) ==> !dec_ok(k, ValueView::Null) && dec_err(k, ValueView::Null)
            == (ErrorView::TypeMismatch {
            expected: spec_kind_name(k),
            actual: "none"@,
        }),
{
    if k is Optional && matches_kind(w, k) && spec_enc(w) == ValueView::Null {
        match w {
            FieldValue::Present(x) => {
                crate::convert::lemma_enc_not_null(*(k->Optional_0), *x);
            },
            _ => {},
        }
    }
}

/// Is this one of the integer kinds?
pub open spec fn int_kind(k: FieldKind) -> bool {
    match k {
        FieldKind::U8 | FieldKind::U16 | FieldKind::U32 | FieldKind::U64 | FieldKind::I8
            | FieldKind::I16 | FieldKind::I32 | FieldKind::I64 => true,
        _ => false,
    }
}

/// The range of stored integers an integer kind accepts.
pub open spec fn kind_range_ok(k: FieldKind, i: i64) -> bool {
    match k {
        FieldKind::U8 => 0 <= i && i <= u8::MAX as i64,
        FieldKind::U16 => 0 <= i && i <= u16::MAX as i64,
        FieldKind::U32 => 0 <= i && i <= u32::MAX as i64,
        FieldKind::U64 => 0 <= i,
        FieldKind::I8 => i8::MIN as i64 <= i && i <= i8::MAX as i64,
        FieldKind::I16 => i16::MIN as i64 <= i && i <= i16::MAX as i64,
        FieldKind::I32 => i32::MIN as i64 <= i && i <= i32::MAX as i64,
        FieldKind::I64 => true,
        _ => false,
    }
}

/// The range law: a stored integer decodes at an integer kind exactly
/// when it lies in the kind's range, and outside that range the failure
/// is a `RangeError` carrying the stored integer, never a silent
/// truncation.
pub proof fn lemma_range(k: FieldKind, i: i64)
    requires
        int_kind(k),
    ensures
        dec_ok(k, ValueView::Integer(i)) <==> kind_range_ok(k, i),
        !kind_range_ok(k, i) ==> dec_err(k, ValueView::Integer(i)) == (ErrorView::Range {
            expected: spec_kind_name(k),
            actual: i,
        }),
{
}

} // verus!
