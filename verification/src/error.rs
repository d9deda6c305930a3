//! The ways a submission can fail.

use vstd::prelude::*;

verus! {

/// A field that every submission must carry.
#[derive(Clone, Copy, Debug, PartialEq, Eq, Structural)]
pub enum Field {
    Email,
    Name,
}

impl Field {
    /// The key under which the field travels in a form body.
    pub open spec fn key(self) -> Seq<char> {
        match self {
            Field::Email => "email"@,
            Field::Name => "name"@,
        }
    }
}

/// Why a submission is not a well-formed request. Caused by the client.
#[derive(Clone, Copy, Debug, PartialEq, Eq, Structural)]
pub enum ValidationError {
    /// The body could not be decoded as a URL-encoded form.
    Malformed,
    /// A pair names a field that an earlier pair already named.
    Duplicate(Field),
    /// No pair names the field.
    Missing(Field),
    /// The field is there, with nothing in it.
    Empty(Field),
}

/// A failure of the store while it wrote a record. Caused by the server.
#[derive(Debug, PartialEq, Eq)]
pub struct PersistenceError {
    /// The store's own account of what went wrong.
    pub detail: String,
}

/// Why a submission produced no record.
#[derive(Debug, PartialEq, Eq)]
pub enum SubscribeError {
    /// The submission was refused before the store was touched.
    Validation(ValidationError),
    /// The store failed to write the record.
    Persistence(PersistenceError),
}

} // verus!
