//! The failures that the storage backend reports.

use vstd::prelude::*;

verus! {

/// The error type of the `redis` crate, carried through unopened.
#[verifier::external_type_specification]
#[verifier::external_body]
pub struct ExRedisError(redis::RedisError);

/// The error type of the `serde_json` crate, carried through unopened.
#[verifier::external_type_specification]
#[verifier::external_body]
pub struct ExJsonError(serde_json::Error);

/// A failure of a storage operation. Each variant keeps the error of the
/// crate that reported it, so that a caller can tell a transient failure
/// from a permanent one and still read the details.
#[derive(Debug)]
pub enum StorageError {
    /// The store could not be reached, or the connection target was refused.
    Connection(redis::RedisError),
    /// The store was reached and reported a failure of the command.
    Store(redis::RedisError),
    /// The dialogue could not be encoded.
    Serialization(serde_json::Error),
    /// The payload found in the store could not be decoded.
    Deserialization(serde_json::Error),
}

impl StorageError {
    /// Whether trying the operation again may succeed: true of the two
    /// failures that come from the store, false of the two that come from
    /// the payload.
    pub open spec fn transient(self) -> bool {
        self is Connection || self is Store
    }

    /// Tells whether the failure came from the store rather than from the
    /// payload.
    pub fn is_transient(&self) -> (r: bool)
        ensures
            r == self.transient(),
    {
        match self {
            StorageError::Connection(_) => true,
            StorageError::Store(_) => true,
            StorageError::Serialization(_) => false,
            StorageError::Deserialization(_) => false,
        }
    }
}

} // verus!
