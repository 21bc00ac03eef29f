use surreal_orm::binding::{decode_instance, encode_instance};
use surreal_orm::BindingRegistry;
use surreal_orm::{
    DefineTableContext, FieldBinding, FieldKind, FieldValue, SurrealDbObject, SurrealDbSchemaDeriveQueryError,
    SurrealOption, SurrealValue, TypeBinding, Value,
};

#[derive(Debug, Clone, PartialEq, Eq)]
struct Gadget {
    name: String,
    count: u8,
}

fn gadget_binding() -> TypeBinding {
    TypeBinding {
        table_name: String::from("gadget"),
        fields: vec![
            FieldBinding { name: String::from("name"), kind: FieldKind::Text },
            FieldBinding { name: String::from("count"), kind: FieldKind::U8 },
        ],
    }
}

impl SurrealDbObject for Gadget {
    fn get_table_name() -> String {
        String::from("gadget")
    }

    fn into_surreal_value(self) -> SurrealValue {
        let values = vec![FieldValue::Text(self.name), FieldValue::U8(self.count)];
        SurrealValue(encode_instance(&gadget_binding(), &values))
    }

    fn try_from_surreal_value(
        value: SurrealValue,
    ) -> Result<Self, SurrealDbSchemaDeriveQueryError> {
        let fields = decode_instance(&gadget_binding(), &value.0)?;
        let mut fields = fields.into_iter();
        let name = match fields.next() {
            Some(FieldValue::Text(s)) => s,
            _ => unreachable!(),
        };
        let count = match fields.next() {
            Some(FieldValue::U8(n)) => n,
            _ => unreachable!(),
        };
        Ok(Gadget { name, count })
    }
}

#[test]
fn domain_type_round_trips_through_the_trait() {
    let gadget = Gadget { name: String::from("widget"), count: 3 };
    let value = gadget.clone().into_surreal_value();
    let back = Gadget::try_from_surreal_value(value).unwrap();
    assert_eq!(back, gadget);
    assert_eq!(Gadget::get_table_name(), "gadget");
}

#[test]
fn surreal_value_wraps_and_unwraps() {
    let wrapped: SurrealValue = SurrealValue::from(Value::Integer(9));
    assert_eq!(wrapped, SurrealValue(Value::Integer(9)));
    let unwrapped: Value = Value::from(wrapped);
    assert_eq!(unwrapped, Value::Integer(9));
}

#[test]
fn surreal_option_wraps_and_unwraps() {
    let present = SurrealOption::from_option(Some(5u8));
    assert_eq!(present.0, Some(5));
    assert_eq!(present.into_option(), Some(5));
    let absent: SurrealOption<u8> = SurrealOption::from(None);
    assert_eq!(absent.into_option(), None);
}

#[test]
fn define_table_context_carries_namespace_and_database() {
    let context = DefineTableContext {
        namespace: String::from("test"),
        database: String::from("test"),
    };
    let copy = context.clone();
    assert_eq!(copy, context);
    assert_eq!(copy.namespace, "test");
    assert_eq!(copy.database, "test");
}

#[test]
fn well_formedness_checks() {
    let good = gadget_binding();
    assert!(good.check_wf());

    let unnamed_table = TypeBinding { table_name: String::new(), fields: vec![] };
    assert!(!unnamed_table.check_wf());

    let reserved = TypeBinding {
        table_name: String::from("gadget"),
        fields: vec![FieldBinding { name: String::from("id"), kind: FieldKind::U64 }],
    };
    assert!(!reserved.check_wf());

    let duplicated = TypeBinding {
        table_name: String::from("gadget"),
        fields: vec![
            FieldBinding { name: String::from("twin"), kind: FieldKind::U64 },
            FieldBinding { name: String::from("twin"), kind: FieldKind::Bool },
        ],
    };
    assert!(!duplicated.check_wf());

    let doubly_optional = TypeBinding {
        table_name: String::from("gadget"),
        fields: vec![FieldBinding {
            name: String::from("maybe"),
            kind: FieldKind::Optional(Box::new(FieldKind::Optional(Box::new(FieldKind::Bool)))),
        }],
    };
    assert!(!doubly_optional.check_wf());
}

#[test]
fn instance_shape_checks() {
    let binding = gadget_binding();
    let good = vec![FieldValue::Text(String::from("widget")), FieldValue::U8(3)];
    assert!(binding.accepts(&good));

    let wrong_arity = vec![FieldValue::Text(String::from("widget"))];
    assert!(!binding.accepts(&wrong_arity));

    let wrong_shape = vec![FieldValue::Bool(true), FieldValue::U8(3)];
    assert!(!binding.accepts(&wrong_shape));

    let unencodable_u64 = TypeBinding {
        table_name: String::from("gadget"),
        fields: vec![FieldBinding { name: String::from("big"), kind: FieldKind::U64 }],
    };
    assert!(!unencodable_u64.accepts(&vec![FieldValue::U64(u64::MAX)]));
    assert!(unencodable_u64.accepts(&vec![FieldValue::U64(i64::MAX as u64)]));
}

#[test]
fn registry_registers_once_and_looks_up() {
    let mut registry = BindingRegistry::new();
    assert!(registry.lookup(&String::from("gadget")).is_none());
    assert!(registry.register(String::from("gadget"), gadget_binding()));
    assert!(!registry.register(String::from("gadget"), gadget_binding()));
    let found = registry.lookup(&String::from("gadget")).unwrap();
    assert_eq!(found, &gadget_binding());
}
