use vstd::prelude::*;
use vstd::string::*;

use crate::binding::{
    binding_wf, decode_instance, decode_post, encode_instance, instance_dec_err, instance_dec_ok,
    instance_matches, lemma_lookup_encoded, spec_encode_obj, TypeBinding,
};
use crate::convert::{
    field_eq, lemma_enc_dec_ok, lemma_enc_injective, spec_enc, spec_kind_name, FieldValue,
};
use crate::errors::{
    ErrorView, InvalidValueTypeError, StoreError, SurrealDbSchemaDeriveQueryError,
};
use crate::row::{RecordIdentity, Row};
use crate::store::{stored_object, MemStore, Statement};
use crate::value::{
    lemma_obj_lookup_none, lemma_obj_lookup_push, obj_lookup, spec_describe, Id, Value, ValueView,
};

verus! {

broadcast use
    vstd::std_specs::vec::axiom_vec_index_decreases,
    vstd::std_specs::vec::axiom_vec_decreases_to_view,
    vstd::seq::axiom_seq_index_decreases,
    crate::value::group_value_view;

/// Build the statement that looks one record up by table and numeric
/// identifier.
pub fn make_lookup_statement(table: &String, id: u64) -> (s: Statement)
    ensures
        s matches Statement::Lookup { table: t, id: i } && t@ == table@ && i == Id::Number(id),
{
    Statement::Lookup { table: table.clone(), id: Id::Number(id) }
}

/// Build the statement that inserts one encoded instance into the
/// binding's table, asking the store for the inserted record back. The
/// encoded object never carries the reserved key "id"; the store
/// assigns identity.
pub fn make_insert_statement(b: &TypeBinding, vals: &Vec<FieldValue>) -> (s: Statement)
    requires
        binding_wf(*b),
        instance_matches(vals@, *b),
    ensures
        s matches Statement::Insert { table, data } && table@ == b.table_name@ && data@
            == ValueView::Object(spec_encode_obj(vals@, b.fields@)) && data is Object
            && obj_lookup(data@->Object_0, "id"@) is None,
{
    let data = encode_instance(b, vals);
    proof {
        let pairs = spec_encode_obj(vals@, b.fields@);
        assert forall|j: int| 0 <= j < pairs.len() implies (#[trigger] pairs[j].0) != "id"@ by {
            assert(pairs[j].0 == b.fields@[j].name@);
        }
        lemma_obj_lookup_none(pairs, "id"@);
        assert(data is Object);
    }
    Statement::Insert { table: b.table_name.clone(), data }
}

/// Build the statement that deletes the record at (table, id).
pub fn make_delete_statement(table: &String, id: u64) -> (s: Statement)
    ensures
        s matches Statement::Delete { table: t, id: i } && t@ == table@ && i == Id::Number(id),
{
    Statement::Delete { table: table.clone(), id: Id::Number(id) }
}

/// Build the schema declaration for the binding's table: the table's
/// name and, for each field, its name and declared kind.
#[verifier::loop_isolation(false)]
pub fn make_define_statement(b: &TypeBinding) -> (s: Statement)
    ensures
        s matches Statement::DefineTable { table, fields } && table@ == b.table_name@
            && fields@.len() == b.fields@.len() && forall|i: int|
            0 <= i < b.fields@.len() ==> (#[trigger] fields@[i]).0@ == b.fields@[i].name@
                && fields@[i].1@ == spec_kind_name(b.fields@[i].kind),
{
    let mut fields: Vec<(String, String)> = Vec::new();
    let mut i: usize = 0;
    while i < b.fields.len()
        invariant
            i <= b.fields.len(),
            fields@.len() == i as int,
            forall|j: int| 0 <= j < i as int ==> (#[trigger] fields@[j]).0@ == b.fields@[j].name@
                && fields@[j].1@ == spec_kind_name(b.fields@[j].kind),
        decreases b.fields.len() - i,
    {
        fields.push((b.fields[i].name.clone(), b.fields[i].kind.name()));
        i = i + 1;
    }
    Statement::DefineTable { table: b.table_name.clone(), fields }
}

/// Collapse a raw engine response, which may hold any number of rows,
/// into the capability's zero-or-one contract. A point lookup matches
/// at most one record, so several rows break the store contract: that
/// is the fatal `TooManyRows`, since no row can be guessed authoritative.
pub fn extract_single_row(rows: Vec<Value>) -> (r: Result<
    Option<Value>,
    SurrealDbSchemaDeriveQueryError,
>)
    ensures
        rows@.len() == 0 ==> (r matches Ok(opt) && opt is None),
        rows@.len() == 1 ==> (r matches Ok(opt) && opt matches Some(v) && v@ == rows@[0]@),
        rows@.len() > 1 ==> (r matches Err(e) && e@ == ErrorView::TooManyRows),
{
    let mut rows = rows;
    if rows.len() == 0 {
        Ok(None)
    } else if rows.len() == 1 {
        match rows.pop() {
            Some(v) => Ok(Some(v)),
            None => Ok(None),
        }
    } else {
        Err(SurrealDbSchemaDeriveQueryError::TooManyRows)
    }
}

/// The identity a returned row carries: the `Reference` stored under the
/// reserved key "id", when the row is an object holding one.
pub open spec fn identity_of(v: ValueView) -> Option<(Seq<char>, Id)> {
    if v is Object {
        match obj_lookup(v->Object_0, "id"@) {
            Option::Some(ValueView::Reference(t, rid)) => Option::Some((t, rid)),
            _ => Option::None,
        }
    } else {
        Option::None
    }
}

/// The error reported when a returned row carries no identity.
pub open spec fn identity_err(v: ValueView) -> ErrorView {
    if !(v is Object) {
        ErrorView::TypeMismatch { expected: "object"@, actual: spec_describe(v) }
    } else {
        match obj_lookup(v->Object_0, "id"@) {
            Option::Some(iv) => ErrorView::TypeMismatch {
                expected: "record"@,
                actual: spec_describe(iv),
            },
            Option::None => ErrorView::TypeMismatch {
                expected: "record"@,
                actual: "missing field: id"@,
            },
        }
    }
}

/// Turn a lookup response into the fetch result. A store failure is
/// passed on; an empty response is "not found", a result, not an error;
/// a row is decoded by the binding and wrapped with the identity the
/// lookup addressed.
pub fn interpret_fetch_response(
    b: &TypeBinding,
    id: u64,
    resp: Result<Option<Value>, StoreError>,
) -> (r: Result<Option<Row<Vec<FieldValue>>>, SurrealDbSchemaDeriveQueryError>)
    ensures
        match resp {
            Result::Err(se) => r matches Err(e) && e@ == ErrorView::Store(se@),
            Result::Ok(Option::None) => r matches Ok(opt) && opt is None,
            Result::Ok(Option::Some(v)) => if instance_dec_ok(b.fields@, v@) {
                r matches Ok(opt) && opt matches Some(row) && row.spec_identity()@ == (
                b.table_name@,
                Id::Number(id),
                ) && decode_post(b.fields@, v@->Object_0, row.spec_payload()@)
            } else {
                r matches Err(e) && e@ == instance_dec_err(b.fields@, v@)
            },
        },
{
    match resp {
        Err(se) => Err(SurrealDbSchemaDeriveQueryError::StoreError(se)),
        Ok(None) => Ok(None),
        Ok(Some(v)) => match decode_instance(b, &v) {
            Ok(vals) => {
                let identity = RecordIdentity { table: b.table_name.clone(), id: Id::Number(id) };
                Ok(Some(Row::new(identity, vals)))
            },
            Err(e) => Err(e),
        },
    }
}

/// Turn an insert response into the save result. A store failure is
/// passed on; a response with no row breaks the insert contract and is
/// the fatal `MissingRow`; a row is decoded by the binding and wrapped
/// with the identity the store assigned, read from the row's "id" key.
pub fn interpret_save_response(b: &TypeBinding, resp: Result<Option<Value>, StoreError>) -> (r:
    Result<Row<Vec<FieldValue>>, SurrealDbSchemaDeriveQueryError>)
    ensures
        match resp {
            Result::Err(se) => r matches Err(e) && e@ == ErrorView::Store(se@),
            Result::Ok(Option::None) => r matches Err(e) && e@ == ErrorView::MissingRow,
            Result::Ok(Option::Some(v)) => match identity_of(v@) {
                Option::Some((t, rid)) => if instance_dec_ok(b.fields@, v@) {
                    r matches Ok(row) && row.spec_identity()@ == (t, rid) && decode_post(
                        b.fields@,
                        v@->Object_0,
                        row.spec_payload()@,
                    )
                } else {
                    r matches Err(e) && e@ == instance_dec_err(b.fields@, v@)
                },
                Option::None => r matches Err(e) && e@ == identity_err(v@),
            },
        },
{
    match resp {
        Err(se) => Err(SurrealDbSchemaDeriveQueryError::StoreError(se)),
        Ok(None) => Err(SurrealDbSchemaDeriveQueryError::MissingRow),
        Ok(Some(v)) => match &v {
            Value::Object(_) => {
                let id_key = String::from_str("id");
                match v.get(&id_key) {
                    Some(idval) => match idval.to_reference() {
                        Ok((t, rid)) => match decode_instance(b, &v) {
                            Ok(vals) => Ok(
                                Row::new(RecordIdentity { table: t, id: rid }, vals),
                            ),
                            Err(e) => Err(e),
                        },
                        Err(e) => Err(e),
                    },
                    None => Err(
                        SurrealDbSchemaDeriveQueryError::InvalidValueTypeError(
                            InvalidValueTypeError {
                                expected_type: String::from_str("record"),
                                received_type: String::from_str("missing field: id"),
                            },
                        ),
                    ),
                }
            },
            _ => Err(
                SurrealDbSchemaDeriveQueryError::InvalidValueTypeError(
                    InvalidValueTypeError {
                        expected_type: String::from_str("object"),
                        received_type: v.describe(),
                    },
                ),
            ),
        },
    }
}

/// Turn a delete response into the delete result: success is the
/// submission completing without a store failure, whether or not a
/// record was there to delete.
pub fn interpret_delete_response(resp: Result<Option<Value>, StoreError>) -> (ok: bool)
    ensures
        ok == (resp is Ok),
{
    match resp {
        Ok(_) => true,
        Err(_) => false,
    }
}

/// The object an insert stores for an instance decodes back to that
/// instance: the stored object is the encoded instance with the
/// identity pair appended, the appended pair hides no field, and the
/// reserved key "id" answers the assigned identity.
pub proof fn lemma_saved_record_decodes(b: TypeBinding, vals: Seq<FieldValue>, n: u64)
    requires
        binding_wf(b),
        instance_matches(vals, b),
    ensures
        ({
            let stored = stored_object(
                ValueView::Object(spec_encode_obj(vals, b.fields@)),
                b.table_name@,
                n,
            );
            &&& instance_dec_ok(b.fields@, stored)
            &&& obj_lookup(stored->Object_0, "id"@) == Option::Some(
                ValueView::Reference(b.table_name@, Id::Number(n)),
            )
            &&& forall|i: int|
                0 <= i < b.fields@.len() ==> obj_lookup(
                    stored->Object_0,
                    (#[trigger] b.fields@[i]).name@,
                ) == Option::Some(spec_enc(vals[i]))
        }),
{
    let pairs = spec_encode_obj(vals, b.fields@);
    let id_pair = ("id"@, ValueView::Reference(b.table_name@, Id::Number(n)));
    let stored = stored_object(ValueView::Object(pairs), b.table_name@, n);
    assert(stored->Object_0 == pairs.push(id_pair));
    assert forall|j: int| 0 <= j < pairs.len() implies (#[trigger] pairs[j].0) != "id"@ by {
        assert(pairs[j].0 == b.fields@[j].name@);
    }
    lemma_obj_lookup_none(pairs, "id"@);
    crate::value::lemma_obj_lookup_at(pairs.push(id_pair), "id"@, pairs.len() as int);
    assert forall|i: int| 0 <= i < b.fields@.len() implies obj_lookup(
        stored->Object_0,
        (#[trigger] b.fields@[i]).name@,
    ) == Option::Some(spec_enc(vals[i])) by {
        lemma_lookup_encoded(vals, b, i);
        lemma_obj_lookup_push(pairs, b.fields@[i].name@, id_pair);
    }
    assert forall|i: int| 0 <= i < b.fields@.len() implies crate::binding::field_dec_ok(
        #[trigger] b.fields@[i],
        stored->Object_0,
    ) by {
        lemma_enc_dec_ok(b.fields@[i].kind, vals[i]);
    }
}

/// The round trip through the store: what decodes from the object an
/// insert stored for an instance is, field for field, equal to that
/// instance.
pub proof fn lemma_save_round_trip(
    b: TypeBinding,
    vals: Seq<FieldValue>,
    n: u64,
    decoded: Seq<FieldValue>,
)
    requires
        binding_wf(b),
        instance_matches(vals, b),
        decode_post(
            b.fields@,
            stored_object(
                ValueView::Object(spec_encode_obj(vals, b.fields@)),
                b.table_name@,
                n,
            )->Object_0,
            decoded,
        ),
    ensures
        decoded.len() == vals.len(),
        forall|i: int| 0 <= i < vals.len() ==> field_eq(#[trigger] decoded[i], vals[i]),
{
    lemma_saved_record_decodes(b, vals, n);
    assert forall|i: int| 0 <= i < vals.len() implies field_eq(
        #[trigger] decoded[i],
        vals[i],
    ) by {
        lemma_enc_dec_ok(b.fields@[i].kind, vals[i]);
        lemma_enc_injective(b.fields@[i].kind, decoded[i], vals[i]);
    }
}

/// Removing a record's address twice leaves the store as removing it
/// once does: the second delete addresses an already-deleted record and
/// still succeeds without further effect.
pub proof fn lemma_delete_idempotent(
    records: Map<(Seq<char>, u64), ValueView>,
    key: (Seq<char>, u64),
)
    ensures
        records.remove(key).remove(key) == records.remove(key),
{
    assert(records.remove(key).remove(key) =~= records.remove(key));
}

/// Fetch by identifier: look the record up in the binding's table,
/// decode it, and wrap it with the identity that was addressed. A
/// missing record is "not found" (`Ok(None)`), never an error; the
/// store itself is left unchanged.
pub fn fetch(store: &mut MemStore, b: &TypeBinding, id: u64) -> (r: Result<
    Option<Row<Vec<FieldValue>>>,
    SurrealDbSchemaDeriveQueryError,
>)
    requires
        old(store).wf(),
    ensures
        final(store).wf(),
        final(store)@ == old(store)@,
        match old(store)@.records.get((b.table_name@, id)) {
            Option::None => r matches Ok(opt) && opt is None,
            Option::Some(v) => if instance_dec_ok(b.fields@, v) {
                r matches Ok(opt) && opt matches Some(row) && row.spec_identity()@ == (
                b.table_name@,
                Id::Number(id),
                ) && decode_post(b.fields@, v->Object_0, row.spec_payload()@)
            } else {
                r matches Err(e) && e@ == instance_dec_err(b.fields@, v)
            },
        },
{
    let stmt = make_lookup_statement(&b.table_name, id);
    let resp = store.submit(stmt);
    interpret_fetch_response(b, id, resp)
}

/// Save an instance: encode it, insert it into the binding's table with
/// the store asked for the stored row back, and wrap what came back
/// with the identity the store assigned. The returned row's identity is
/// always well formed — the binding's table and a fresh numeric
/// identifier — and its payload equals the saved instance field for
/// field.
pub fn save(store: &mut MemStore, b: &TypeBinding, vals: &Vec<FieldValue>) -> (r: Result<
    Row<Vec<FieldValue>>,
    SurrealDbSchemaDeriveQueryError,
>)
    requires
        old(store).wf(),
        binding_wf(*b),
        instance_matches(vals@, *b),
        old(store)@.next_id < u64::MAX,
    ensures
        final(store).wf(),
        ({
            let n = old(store)@.next_id;
            let stored = stored_object(
                ValueView::Object(spec_encode_obj(vals@, b.fields@)),
                b.table_name@,
                n,
            );
            &&& final(store)@.records == old(store)@.records.insert((b.table_name@, n), stored)
            &&& final(store)@.next_id == n + 1
            &&& final(store)@.tables == old(store)@.tables
            &&& r matches Ok(row) && row.spec_identity()@ == (b.table_name@, Id::Number(n))
                && row.spec_payload()@.len() == vals@.len() && decode_post(
                b.fields@,
                stored->Object_0,
                row.spec_payload()@,
            ) && forall|i: int|
                0 <= i < vals@.len() ==> field_eq(
                    #[trigger] row.spec_payload()@[i],
                    vals@[i],
                )
        }),
{
    let ghost n = old(store)@.next_id;
    let stmt = make_insert_statement(b, vals);
    let resp = store.submit(stmt);
    proof {
        lemma_saved_record_decodes(*b, vals@, n);
    }
    let r = interpret_save_response(b, resp);
    match r {
        Ok(row) => {
            proof {
                lemma_save_round_trip(*b, vals@, n, row.spec_payload()@);
            }
            Ok(row)
        },
        Err(_) => vstd::pervasive::unreached(),
    }
}

/// Delete by identifier: remove the record at (table, id) if it exists.
/// The flag reports that the submission completed, which this store
/// always does: deleting an absent record is success, so a second
/// delete of the same identifier succeeds too.
pub fn delete(store: &mut MemStore, table: &String, id: u64) -> (ok: bool)
    requires
        old(store).wf(),
    ensures
        final(store).wf(),
        final(store)@.records == old(store)@.records.remove((table@, id)),
        final(store)@.next_id == old(store)@.next_id,
        final(store)@.tables == old(store)@.tables,
        ok == true,
{
    let stmt = make_delete_statement(table, id);
    let resp = store.submit(stmt);
    interpret_delete_response(resp)
}

/// Declare the binding's table and fields to the store. Run once per
/// table at setup time, before data operations touch the table.
pub fn define_table(store: &mut MemStore, b: &TypeBinding) -> (r: Result<
    (),
    SurrealDbSchemaDeriveQueryError,
>)
    requires
        old(store).wf(),
    ensures
        final(store).wf(),
        final(store)@.records == old(store)@.records,
        final(store)@.next_id == old(store)@.next_id,
        final(store)@.tables == old(store)@.tables.push(b.table_name@),
        r is Ok,
{
    let stmt = make_define_statement(b);
    match store.submit(stmt) {
        Ok(_) => Ok(()),
        Err(e) => Err(SurrealDbSchemaDeriveQueryError::StoreError(e)),
    }
}

} // verus!
