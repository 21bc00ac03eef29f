use vstd::prelude::*;

use crate::value::Id;

verus! {

/// A record's persistent address: the table it lives in and its
/// identifier. Two identities are equal exactly when both components
/// are.
#[derive(Debug, PartialEq, Eq)]
pub struct RecordIdentity {
    pub table: String,
    pub id: Id,
}

impl View for RecordIdentity {
    type V = (Seq<char>, Id);

    open spec fn view(&self) -> (Seq<char>, Id) {
        (self.table@, self.id)
    }
}

impl RecordIdentity {
    /// Compare two identities: equal exactly when table and identifier
    /// both agree.
    pub fn same_identity(&self, other: &RecordIdentity) -> (r: bool)
        ensures
            r == (self@ == other@),
    {
        let tables_equal = self.table == other.table;
        let ids_equal = match (self.id, other.id) {
            (Id::Number(a), Id::Number(b)) => a == b,
        };
        tables_equal && ids_equal
    }
}

/// A typed payload paired with the identity it was fetched from or saved
/// to. Only the CRUD runtime constructs rows, from a successful store
/// response; the identity never changes for the row's lifetime, and the
/// payload is reachable read-only.
#[derive(Debug)]
pub struct Row<T> {
    identity: RecordIdentity,
    payload: T,
}

impl<T> Row<T> {
    /// The row's identity, as a specification-level value.
    pub closed spec fn spec_identity(&self) -> RecordIdentity {
        self.identity
    }

    /// The row's payload, as a specification-level value.
    pub closed spec fn spec_payload(&self) -> T {
        self.payload
    }

    /// Couple a payload with the identity the store reported for it.
    /// Only the CRUD runtime calls this, after a successful response.
    pub(crate) fn new(identity: RecordIdentity, payload: T) -> (r: Row<T>)
        ensures
            r.spec_identity() == identity,
            r.spec_payload() == payload,
    {
        Row { identity, payload }
    }

    /// Read-only access to the payload.
    pub fn value(&self) -> (r: &T)
        ensures
            *r == self.spec_payload(),
    {
        &self.payload
    }

    /// The identity the row was fetched from or saved to.
    pub fn identity(&self) -> (r: &RecordIdentity)
        ensures
            *r == self.spec_identity(),
    {
        &self.identity
    }

    /// Take the row apart into its identity and payload.
    pub fn into_parts(self) -> (r: (RecordIdentity, T))
        ensures
            r.0 == self.spec_identity(),
            r.1 == self.spec_payload(),
    {
        let Row { identity, payload } = self;
        (identity, payload)
    }
}

} // verus!
