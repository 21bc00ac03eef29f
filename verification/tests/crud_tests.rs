use surreal_orm::crud::{
    delete, define_table, extract_single_row, fetch, interpret_delete_response,
    interpret_save_response, make_delete_statement, make_insert_statement, make_lookup_statement,
    save,
};
use surreal_orm::{
    Entry, FieldBinding, FieldKind, FieldValue, Id, MemStore, RecordIdentity, Statement,
    StoreError, SurrealDbSchemaDeriveQueryError, TypeBinding, Value,
};

fn mobile_binding() -> TypeBinding {
    TypeBinding {
        table_name: String::from("mobile"),
        fields: vec![
            FieldBinding { name: String::from("num"), kind: FieldKind::U64 },
            FieldBinding {
                name: String::from("label"),
                kind: FieldKind::Optional(Box::new(FieldKind::Text)),
            },
        ],
    }
}

fn sample_mobile() -> Vec<FieldValue> {
    vec![
        FieldValue::U64(123),
        FieldValue::Present(Box::new(FieldValue::Text(String::from("work")))),
    ]
}

#[test]
fn fetch_miss_is_not_found() {
    let mut store = MemStore::new();
    let binding = mobile_binding();
    let result = fetch(&mut store, &binding, 42).unwrap();
    assert!(result.is_none());
}

#[test]
fn save_assigns_identity() {
    let mut store = MemStore::new();
    let binding = mobile_binding();
    let row = save(&mut store, &binding, &sample_mobile()).unwrap();
    let identity = row.identity();
    assert_eq!(identity.table, "mobile");
    assert!(!identity.table.is_empty());
    assert_eq!(identity.id, Id::Number(1));
}

#[test]
fn save_returns_the_saved_payload() {
    let mut store = MemStore::new();
    let binding = mobile_binding();
    let instance = sample_mobile();
    let row = save(&mut store, &binding, &instance).unwrap();
    assert_eq!(row.value(), &instance);
}

#[test]
fn fetch_hit_returns_saved_instance_under_its_identity() {
    let mut store = MemStore::new();
    let binding = mobile_binding();
    let instance = sample_mobile();
    let saved = save(&mut store, &binding, &instance).unwrap();
    let Id::Number(n) = saved.identity().id;
    let fetched = fetch(&mut store, &binding, n).unwrap().unwrap();
    assert_eq!(fetched.value(), &instance);
    assert!(fetched.identity().same_identity(&RecordIdentity {
        table: String::from("mobile"),
        id: Id::Number(n),
    }));
}

#[test]
fn two_saves_get_distinct_identifiers() {
    let mut store = MemStore::new();
    let binding = mobile_binding();
    let first = save(&mut store, &binding, &sample_mobile()).unwrap();
    let second = save(&mut store, &binding, &sample_mobile()).unwrap();
    assert_eq!(first.identity().id, Id::Number(1));
    assert_eq!(second.identity().id, Id::Number(2));
    assert!(!first.identity().same_identity(second.identity()));
}

#[test]
fn delete_is_idempotent() {
    let mut store = MemStore::new();
    let binding = mobile_binding();
    let row = save(&mut store, &binding, &sample_mobile()).unwrap();
    let Id::Number(n) = row.identity().id;
    assert!(delete(&mut store, &binding.table_name, n));
    assert!(delete(&mut store, &binding.table_name, n));
    assert!(fetch(&mut store, &binding, n).unwrap().is_none());
}

#[test]
fn delete_of_absent_record_succeeds() {
    let mut store = MemStore::new();
    assert!(delete(&mut store, &String::from("mobile"), 9999));
}

#[test]
fn define_table_succeeds() {
    let mut store = MemStore::new();
    let binding = mobile_binding();
    assert!(define_table(&mut store, &binding).is_ok());
}

#[test]
fn fetch_of_ill_typed_record_is_type_mismatch() {
    let mut store = MemStore::new();
    let binding = mobile_binding();
    let data = Value::Object(vec![Entry {
        key: String::from("num"),
        value: Value::Text(String::from("not a number")),
    }]);
    store
        .submit(Statement::Insert { table: String::from("mobile"), data })
        .unwrap();
    match fetch(&mut store, &binding, 1) {
        Err(SurrealDbSchemaDeriveQueryError::InvalidValueTypeError(e)) => {
            assert_eq!(e.expected_type, "u64");
            assert_eq!(e.received_type, "not a number");
        }
        other => panic!("expected a type mismatch, got {:?}", other),
    }
}

#[test]
fn save_with_no_returned_row_is_fatal() {
    let binding = mobile_binding();
    match interpret_save_response(&binding, Ok(None)) {
        Err(SurrealDbSchemaDeriveQueryError::MissingRow) => {}
        other => panic!("expected the fatal missing-row error, got {:?}", other),
    }
}

#[test]
fn store_failures_are_passed_on() {
    let binding = mobile_binding();
    let failure = StoreError { message: String::from("connection lost") };
    match interpret_save_response(&binding, Err(failure)) {
        Err(SurrealDbSchemaDeriveQueryError::StoreError(e)) => {
            assert_eq!(e.message, "connection lost");
        }
        other => panic!("expected the store failure, got {:?}", other),
    }
    assert!(!interpret_delete_response(Err(StoreError {
        message: String::from("connection lost"),
    })));
    assert!(interpret_delete_response(Ok(None)));
}

#[test]
fn statements_have_the_fixed_shapes() {
    let binding = mobile_binding();
    let lookup = make_lookup_statement(&binding.table_name, 5);
    assert!(
        matches!(lookup, Statement::Lookup { table, id } if table == "mobile" && id == Id::Number(5))
    );
    let delete_stmt = make_delete_statement(&binding.table_name, 5);
    assert!(
        matches!(delete_stmt, Statement::Delete { table, id } if table == "mobile" && id == Id::Number(5))
    );
    let insert = make_insert_statement(&binding, &sample_mobile());
    match insert {
        Statement::Insert { table, data } => {
            assert_eq!(table, "mobile");
            assert!(data.get(&String::from("id")).is_none());
            assert_eq!(data.get(&String::from("num")), Some(&Value::Integer(123)));
        }
        other => panic!("expected an insert statement, got {:?}", other),
    }
}

#[test]
fn saved_row_carries_identity_under_reserved_key() {
    let mut store = MemStore::new();
    let data = Value::Object(vec![Entry { key: String::from("num"), value: Value::Integer(7) }]);
    let stored = store
        .submit(Statement::Insert { table: String::from("mobile"), data })
        .unwrap()
        .unwrap();
    assert_eq!(
        stored.get(&String::from("id")),
        Some(&Value::Reference(String::from("mobile"), Id::Number(1)))
    );
    assert_eq!(stored.get(&String::from("num")), Some(&Value::Integer(7)));
}

#[test]
fn single_row_extraction_enforces_the_point_lookup_contract() {
    assert_eq!(extract_single_row(vec![]).unwrap(), None);
    assert_eq!(
        extract_single_row(vec![Value::Integer(1)]).unwrap(),
        Some(Value::Integer(1))
    );
    match extract_single_row(vec![Value::Integer(1), Value::Integer(2)]) {
        Err(SurrealDbSchemaDeriveQueryError::TooManyRows) => {}
        other => panic!("expected the fatal too-many-rows error, got {:?}", other),
    }
}
