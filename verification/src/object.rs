use vstd::prelude::*;

use crate::errors::SurrealDbSchemaDeriveQueryError;
use crate::value::Value;

verus! {

/// A dynamic value on its way into or out of the store. The wrapper
/// marks the boundary between typed domain objects and the dynamic
/// model: domain types convert to and from `SurrealValue`.
#[derive(Debug, PartialEq, Eq)]
pub struct SurrealValue(pub Value);

impl From<Value> for SurrealValue {
    fn from(value: Value) -> (r: Self) {
        SurrealValue(value)
    }
}

impl vstd::std_specs::convert::FromSpecImpl<Value> for SurrealValue {
    open spec fn obeys_from_spec() -> bool {
        true
    }

    open spec fn from_spec(value: Value) -> Self {
        SurrealValue(value)
    }
}

impl From<SurrealValue> for Value {
    fn from(value: SurrealValue) -> (r: Self) {
        value.0
    }
}

impl vstd::std_specs::convert::FromSpecImpl<SurrealValue> for Value {
    open spec fn obeys_from_spec() -> bool {
        true
    }

    open spec fn from_spec(value: SurrealValue) -> Self {
        value.0
    }
}

/// An optional field value on its way through conversion. The wrapper
/// exists so that optional fields convert through their own state:
/// a held value stands for a present field, `None` for an absent one.
#[derive(Debug, PartialEq, Eq)]
pub struct SurrealOption<T>(pub Option<T>);

impl<T> SurrealOption<T> {
    /// Wrap an optional value.
    pub fn from_option(option: Option<T>) -> (r: Self)
        ensures
            r.0 == option,
    {
        SurrealOption(option)
    }

    /// Unwrap back to the plain optional value.
    pub fn into_option(self) -> (r: Option<T>)
        ensures
            r == self.0,
    {
        self.0
    }
}

impl<T> From<Option<T>> for SurrealOption<T> {
    fn from(option: Option<T>) -> (r: Self) {
        SurrealOption(option)
    }
}

impl<T> vstd::std_specs::convert::FromSpecImpl<Option<T>> for SurrealOption<T> {
    open spec fn obeys_from_spec() -> bool {
        true
    }

    open spec fn from_spec(option: Option<T>) -> Self {
        SurrealOption(option)
    }
}

/// What a domain type implements to live in the store: a table name and
/// the two conversions against the dynamic value model. Implementations
/// are supplied by the library's users, typically by forwarding to a
/// `TypeBinding` with `encode_instance` and `decode_instance`.
pub trait SurrealDbObject: Sized {
    /// The table this type's records live in.
    fn get_table_name() -> String;

    /// Encode one instance into its dynamic form.
    fn into_surreal_value(self) -> SurrealValue;

    /// Decode an instance back out of its dynamic form.
    fn try_from_surreal_value(value: SurrealValue) -> Result<Self, SurrealDbSchemaDeriveQueryError>;
}

/// Where a table definition runs: the namespace and database to select
/// before submitting the declaration. Carried by callers that manage
/// several namespaces; the statement shapes themselves do not name it.
#[derive(Debug, Clone, PartialEq, Eq)]
pub struct DefineTableContext {
    pub namespace: String,
    pub database: String,
}

} // verus!
