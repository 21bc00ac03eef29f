use vstd::prelude::*;

verus! {

/// The mathematical model of every failure this crate reports.
///
/// Decode failures come in two kinds: a shape disagreement between the
/// stored variant and the requested type (`TypeMismatch`), and an integer
/// that does not fit the requested width (`Range`). Failures of the store
/// itself are carried opaquely (`Store`). The two remaining cases mark a
/// broken store contract: a point lookup that produced several rows, and
/// an insert that produced none.
#[allow(inconsistent_fields)]
pub enum ErrorView {
    TypeMismatch { expected: Seq<char>, actual: Seq<char> },
    Range { expected: Seq<char>, actual: i64 },
    Store(Seq<char>),
    TooManyRows,
    MissingRow,
}

/// A decode-time shape disagreement: the stored variant was not the one
/// the requested type needs. `expected_type` names the requested type and
/// `received_type` describes the variant actually found.
#[derive(Debug, PartialEq, Eq)]
pub struct InvalidValueTypeError {
    pub expected_type: String,
    pub received_type: String,
}

impl View for InvalidValueTypeError {
    type V = ErrorView;

    open spec fn view(&self) -> ErrorView {
        ErrorView::TypeMismatch { expected: self.expected_type@, actual: self.received_type@ }
    }
}

/// A decode-time numeric overflow: the stored integer does not fit the
/// requested target type. `expected_type` names the target and
/// `actual_value` is the stored integer.
#[derive(Debug, PartialEq, Eq)]
pub struct RangeError {
    pub expected_type: String,
    pub actual_value: i64,
}

impl View for RangeError {
    type V = ErrorView;

    open spec fn view(&self) -> ErrorView {
        ErrorView::Range { expected: self.expected_type@, actual: self.actual_value }
    }
}

/// An opaque failure reported by the store-access capability. This layer
/// never interprets it; it only hands it on.
#[derive(Debug, PartialEq, Eq)]
pub struct StoreError {
    pub message: String,
}

impl View for StoreError {
    type V = Seq<char>;

    open spec fn view(&self) -> Seq<char> {
        self.message@
    }
}

/// Every failure a conversion or CRUD operation can report.
#[derive(Debug, PartialEq, Eq)]
pub enum SurrealDbSchemaDeriveQueryError {
    /// A stored variant did not match the requested type.
    InvalidValueTypeError(InvalidValueTypeError),
    /// A stored integer did not fit the requested width.
    RangeError(RangeError),
    /// The store-access capability failed; its report is passed on unread.
    StoreError(StoreError),
    /// A point lookup produced more than one row: a broken store contract.
    TooManyRows,
    /// An insert that asked for the inserted row back produced none: a
    /// broken store contract.
    MissingRow,
}

impl View for SurrealDbSchemaDeriveQueryError {
    type V = ErrorView;

    open spec fn view(&self) -> ErrorView {
        match self {
            SurrealDbSchemaDeriveQueryError::InvalidValueTypeError(e) => e@,
            SurrealDbSchemaDeriveQueryError::RangeError(e) => e@,
            SurrealDbSchemaDeriveQueryError::StoreError(e) => ErrorView::Store(e@),
            SurrealDbSchemaDeriveQueryError::TooManyRows => ErrorView::TooManyRows,
            SurrealDbSchemaDeriveQueryError::MissingRow => ErrorView::MissingRow,
        }
    }
}

impl From<InvalidValueTypeError> for SurrealDbSchemaDeriveQueryError {
    fn from(error: InvalidValueTypeError) -> (r: Self) {
        SurrealDbSchemaDeriveQueryError::InvalidValueTypeError(error)
    }
}

impl vstd::std_specs::convert::FromSpecImpl<InvalidValueTypeError>
    for SurrealDbSchemaDeriveQueryError {
    open spec fn obeys_from_spec() -> bool {
        true
    }

    open spec fn from_spec(error: InvalidValueTypeError) -> Self {
        SurrealDbSchemaDeriveQueryError::InvalidValueTypeError(error)
    }
}

} // verus!
