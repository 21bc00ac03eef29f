use surreal_orm::binding::{decode_instance, encode_instance};
use surreal_orm::convert::{decode_field, encode_field};
use surreal_orm::{
    Entry, FieldBinding, FieldKind, FieldValue, Id, SurrealDbSchemaDeriveQueryError, TypeBinding,
    Value,
};

fn person_binding() -> TypeBinding {
    TypeBinding {
        table_name: String::from("person"),
        fields: vec![
            FieldBinding { name: String::from("name"), kind: FieldKind::Text },
            FieldBinding { name: String::from("age"), kind: FieldKind::U8 },
            FieldBinding {
                name: String::from("nickname"),
                kind: FieldKind::Optional(Box::new(FieldKind::Text)),
            },
            FieldBinding {
                name: String::from("scores"),
                kind: FieldKind::Sequence(Box::new(FieldKind::I64)),
            },
            FieldBinding { name: String::from("vip"), kind: FieldKind::Bool },
            FieldBinding { name: String::from("height"), kind: FieldKind::Float },
            FieldBinding { name: String::from("friend"), kind: FieldKind::Record },
        ],
    }
}

fn sample_person() -> Vec<FieldValue> {
    vec![
        FieldValue::Text(String::from("Ada")),
        FieldValue::U8(36),
        FieldValue::Present(Box::new(FieldValue::Text(String::from("the countess")))),
        FieldValue::List(vec![FieldValue::I64(-3), FieldValue::I64(14)]),
        FieldValue::Bool(true),
        FieldValue::Float(2.5f64.to_bits()),
        FieldValue::Record(String::from("person"), Id::Number(7)),
    ]
}

#[test]
fn round_trip_full_instance() {
    let binding = person_binding();
    let instance = sample_person();
    let encoded = encode_instance(&binding, &instance);
    let decoded = decode_instance(&binding, &encoded).unwrap();
    assert_eq!(decoded, instance);
}

#[test]
fn round_trip_absent_optional() {
    let binding = person_binding();
    let mut instance = sample_person();
    instance[2] = FieldValue::Absent;
    let encoded = encode_instance(&binding, &instance);
    let decoded = decode_instance(&binding, &encoded).unwrap();
    assert_eq!(decoded, instance);
}

#[test]
fn absent_optional_encodes_null_at_its_key() {
    let binding = person_binding();
    let mut instance = sample_person();
    instance[2] = FieldValue::Absent;
    let encoded = encode_instance(&binding, &instance);
    match &encoded {
        Value::Object(entries) => {
            let nickname: Vec<&Entry> =
                entries.iter().filter(|e| e.key == "nickname").collect();
            assert_eq!(nickname.len(), 1);
            assert_eq!(nickname[0].value, Value::Null);
        }
        other => panic!("expected an object, got {:?}", other),
    }
}

#[test]
fn null_at_required_field_is_type_mismatch() {
    let binding = TypeBinding {
        table_name: String::from("gadget"),
        fields: vec![FieldBinding { name: String::from("vip"), kind: FieldKind::Bool }],
    };
    let stored = Value::Object(vec![Entry { key: String::from("vip"), value: Value::Null }]);
    match decode_instance(&binding, &stored) {
        Err(SurrealDbSchemaDeriveQueryError::InvalidValueTypeError(e)) => {
            assert_eq!(e.expected_type, "bool");
            assert_eq!(e.received_type, "none");
        }
        other => panic!("expected a type mismatch, got {:?}", other),
    }
}

#[test]
fn missing_optional_key_decodes_absent() {
    let binding = TypeBinding {
        table_name: String::from("gadget"),
        fields: vec![FieldBinding {
            name: String::from("nickname"),
            kind: FieldKind::Optional(Box::new(FieldKind::Text)),
        }],
    };
    let stored = Value::Object(vec![]);
    let decoded = decode_instance(&binding, &stored).unwrap();
    assert_eq!(decoded, vec![FieldValue::Absent]);
}

#[test]
fn missing_required_key_names_the_field() {
    let binding = TypeBinding {
        table_name: String::from("gadget"),
        fields: vec![FieldBinding { name: String::from("name"), kind: FieldKind::Text }],
    };
    let stored = Value::Object(vec![]);
    match decode_instance(&binding, &stored) {
        Err(SurrealDbSchemaDeriveQueryError::InvalidValueTypeError(e)) => {
            assert_eq!(e.expected_type, "string");
            assert_eq!(e.received_type, "missing field: name");
        }
        other => panic!("expected a type mismatch, got {:?}", other),
    }
}

#[test]
fn narrowing_out_of_range_is_range_error() {
    // 300 fits a 16-bit unsigned target but not an 8-bit one.
    let stored = Value::Integer(300);
    match stored.to_u8() {
        Err(SurrealDbSchemaDeriveQueryError::RangeError(e)) => {
            assert_eq!(e.expected_type, "u8");
            assert_eq!(e.actual_value, 300);
        }
        other => panic!("expected a range error, got {:?}", other),
    }
    assert_eq!(stored.to_u16().unwrap(), 300u16);
}

#[test]
fn negative_into_unsigned_is_range_error() {
    let stored = Value::Integer(-1);
    match stored.to_u64() {
        Err(SurrealDbSchemaDeriveQueryError::RangeError(e)) => {
            assert_eq!(e.expected_type, "u64");
            assert_eq!(e.actual_value, -1);
        }
        other => panic!("expected a range error, got {:?}", other),
    }
    assert_eq!(stored.to_i8().unwrap(), -1i8);
}

#[test]
fn range_error_through_field_decode() {
    let decoded = decode_field(&FieldKind::U8, &Value::Integer(300));
    match decoded {
        Err(SurrealDbSchemaDeriveQueryError::RangeError(e)) => {
            assert_eq!(e.expected_type, "u8");
            assert_eq!(e.actual_value, 300);
        }
        other => panic!("expected a range error, got {:?}", other),
    }
    assert_eq!(decode_field(&FieldKind::U16, &Value::Integer(300)).unwrap(), FieldValue::U16(300));
}

#[test]
fn string_into_bool_is_type_mismatch_with_the_string() {
    let stored = Value::Text(String::from("yes"));
    match stored.to_bool() {
        Err(SurrealDbSchemaDeriveQueryError::InvalidValueTypeError(e)) => {
            assert_eq!(e.expected_type, "bool");
            assert_eq!(e.received_type, "yes");
        }
        other => panic!("expected a type mismatch, got {:?}", other),
    }
}

#[test]
fn first_field_error_wins() {
    let binding = TypeBinding {
        table_name: String::from("gadget"),
        fields: vec![
            FieldBinding { name: String::from("first"), kind: FieldKind::Bool },
            FieldBinding { name: String::from("second"), kind: FieldKind::U8 },
        ],
    };
    let stored = Value::Object(vec![
        Entry { key: String::from("first"), value: Value::Integer(1) },
        Entry { key: String::from("second"), value: Value::Text(String::from("oops")) },
    ]);
    match decode_instance(&binding, &stored) {
        Err(SurrealDbSchemaDeriveQueryError::InvalidValueTypeError(e)) => {
            assert_eq!(e.expected_type, "bool");
            assert_eq!(e.received_type, "int");
        }
        other => panic!("expected the first field's error, got {:?}", other),
    }
}

#[test]
fn sequence_reports_first_failing_element() {
    let kind = FieldKind::Sequence(Box::new(FieldKind::U8));
    let stored = Value::Array(vec![Value::Integer(7), Value::Integer(900), Value::Bool(true)]);
    match decode_field(&kind, &stored) {
        Err(SurrealDbSchemaDeriveQueryError::RangeError(e)) => {
            assert_eq!(e.expected_type, "u8");
            assert_eq!(e.actual_value, 900);
        }
        other => panic!("expected the second element's range error, got {:?}", other),
    }
}

#[test]
fn non_object_decode_is_type_mismatch() {
    let binding = person_binding();
    match decode_instance(&binding, &Value::Integer(5)) {
        Err(SurrealDbSchemaDeriveQueryError::InvalidValueTypeError(e)) => {
            assert_eq!(e.expected_type, "object");
            assert_eq!(e.received_type, "int");
        }
        other => panic!("expected a type mismatch, got {:?}", other),
    }
}

#[test]
fn float_bits_round_trip_exactly() {
    let bits = (-0.1f64).to_bits();
    let encoded = encode_field(&FieldValue::Float(bits));
    assert_eq!(encoded, Value::Float(bits));
    let decoded = decode_field(&FieldKind::Float, &encoded).unwrap();
    assert_eq!(decoded, FieldValue::Float(bits));
    match decoded {
        FieldValue::Float(b) => assert_eq!(f64::from_bits(b), -0.1f64),
        other => panic!("expected a float, got {:?}", other),
    }
}

#[test]
fn duplicate_is_structurally_equal() {
    let v = Value::Object(vec![
        Entry {
            key: String::from("items"),
            value: Value::Array(vec![Value::Integer(1), Value::Text(String::from("two"))]),
        },
        Entry { key: String::from("who"), value: Value::Reference(String::from("t"), Id::Number(9)) },
    ]);
    assert_eq!(v.duplicate(), v);
}

#[test]
fn object_get_finds_first_match() {
    let v = Value::Object(vec![
        Entry { key: String::from("a"), value: Value::Integer(1) },
        Entry { key: String::from("b"), value: Value::Integer(2) },
    ]);
    assert_eq!(v.get(&String::from("b")), Some(&Value::Integer(2)));
    assert_eq!(v.get(&String::from("c")), None);
}

#[test]
fn describe_names_variants() {
    assert_eq!(Value::Null.describe(), "none");
    assert_eq!(Value::Bool(true).describe(), "true");
    assert_eq!(Value::Array(vec![]).describe(), "array");
    assert_eq!(Value::Object(vec![]).describe(), "object");
    assert_eq!(Value::Text(String::from("inner")).describe(), "inner");
}

#[test]
fn empty_sequence_round_trips() {
    let kind = FieldKind::Sequence(Box::new(FieldKind::U8));
    let encoded = encode_field(&FieldValue::List(vec![]));
    assert_eq!(encoded, Value::Array(vec![]));
    assert_eq!(decode_field(&kind, &encoded).unwrap(), FieldValue::List(vec![]));
}

#[test]
fn integer_boundaries_decode_exactly() {
    assert_eq!(Value::Integer(255).to_u8().unwrap(), u8::MAX);
    assert!(Value::Integer(256).to_u8().is_err());
    assert_eq!(Value::Integer(i64::MIN).to_i64().unwrap(), i64::MIN);
    assert_eq!(Value::Integer(i64::MAX).to_u64().unwrap(), i64::MAX as u64);
    match Value::Integer(-129).to_i8() {
        Err(SurrealDbSchemaDeriveQueryError::RangeError(e)) => {
            assert_eq!(e.expected_type, "i8");
            assert_eq!(e.actual_value, -129);
        }
        other => panic!("expected a range error, got {:?}", other),
    }
}
