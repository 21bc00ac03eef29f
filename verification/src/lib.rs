//! A typed-object mapping layer for a schemaless, document-oriented
//! record store. Domain values travel as a dynamic tagged union
//! ([`value::Value`]); a per-type [`binding::TypeBinding`] drives the
//! bidirectional conversion between typed instances and stored objects;
//! the CRUD runtime in [`crud`] builds statements from bindings, submits
//! them through the store-access capability, and turns responses into
//! identity-carrying [`row::Row`] values. Conversion is proven to
//! round-trip, to reject out-of-range integers with a range error, and
//! to treat `Null` as the absent state of optional fields only.

pub mod binding;
pub mod convert;
pub mod crud;
pub mod errors;
pub mod object;
pub mod registry;
pub mod row;
pub mod store;
pub mod value;

pub use binding::{FieldBinding, TypeBinding};
pub use convert::{FieldKind, FieldValue};
pub use errors::{InvalidValueTypeError, RangeError, StoreError, SurrealDbSchemaDeriveQueryError};
pub use object::{DefineTableContext, SurrealDbObject, SurrealOption, SurrealValue};
pub use registry::BindingRegistry;
pub use row::{RecordIdentity, Row};
pub use store::{MemStore, Statement};
pub use value::{Entry, Id, Value};
