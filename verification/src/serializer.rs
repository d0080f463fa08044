//! Conversion between dialogues and the payloads kept in the store.

use vstd::prelude::*;
use crate::error::StorageError;

verus! {

/// A JSON document of the `serde_json` crate: the form in which a dialogue
/// passes through this library.
#[verifier::external_type_specification]
#[verifier::external_body]
pub struct ExJsonValue(serde_json::Value);

/// What `serde_json::to_vec` returns for a JSON document.
pub uninterp spec fn json_bytes(value: serde_json::Value) -> Result<Seq<u8>, serde_json::Error>;

/// What `serde_json::from_slice` returns when asked to read a JSON document
/// from a payload.
pub uninterp spec fn json_value(data: Seq<u8>) -> Result<serde_json::Value, serde_json::Error>;

/// Calls `serde_json::to_vec` on a JSON document. The outcome depends on the
/// document alone: `json_bytes` is the name of it.
#[verifier::external_body]
fn to_json(value: &serde_json::Value) -> (r: Result<Vec<u8>, serde_json::Error>)
    ensures
        match r {
            Ok(bytes) => json_bytes(*value) == Ok::<Seq<u8>, serde_json::Error>(bytes@),
            Err(e) => json_bytes(*value) == Err::<Seq<u8>, serde_json::Error>(e),
        },
{
    serde_json::to_vec(value)
}

/// Calls `serde_json::from_slice` to read a JSON document from a payload.
/// The outcome depends on the bytes alone: `json_value` is the name of it.
#[verifier::external_body]
fn from_json(data: &[u8]) -> (r: Result<serde_json::Value, serde_json::Error>)
    ensures
        r == json_value(data@),
{
    serde_json::from_slice(data)
}

/// The formats in which a dialogue can be written to the store. A backend
/// commits to one of them for its whole life.
#[derive(Clone, Copy, Debug, PartialEq, Eq, Structural)]
pub enum Serializer {
    JSON,
}

impl Serializer {
    /// The payload that this format gives a dialogue, or the reason why it
    /// has none.
    pub open spec fn encoding(self, val: serde_json::Value) -> Result<Seq<u8>, serde_json::Error> {
        match self {
            Serializer::JSON => json_bytes(val),
        }
    }

    /// The dialogue that this format reads from a payload, or the reason why
    /// it reads none.
    pub open spec fn decoding(self, data: Seq<u8>) -> Result<serde_json::Value, serde_json::Error> {
        match self {
            Serializer::JSON => json_value(data),
        }
    }

    /// A dialogue survives the store when it has a payload and that payload
    /// reads back as the same dialogue.
    pub open spec fn round_trips(self, val: serde_json::Value) -> bool {
        match self.encoding(val) {
            Ok(bytes) => self.decoding(bytes) == Ok::<serde_json::Value, serde_json::Error>(val),
            Err(_) => false,
        }
    }

    /// What the caller of an operation sees when the store has answered with
    /// a payload or with none: no dialogue, the payload decoded, or the
    /// failure to decode it.
    pub open spec fn served(self, payload: Option<Seq<u8>>) -> Result<
        Option<serde_json::Value>,
        StorageError,
    > {
        match payload {
            None => Ok(None),
            Some(bytes) => match self.decoding(bytes) {
                Ok(dialogue) => Ok(Some(dialogue)),
                Err(e) => Err(StorageError::Deserialization(e)),
            },
        }
    }

    /// Encodes a dialogue as a payload.
    pub fn serialize(&self, val: &serde_json::Value) -> (r: Result<Vec<u8>, StorageError>)
        ensures
            match r {
                Ok(bytes) => self.encoding(*val) == Ok::<Seq<u8>, serde_json::Error>(bytes@),
                Err(e) => self.encoding(*val) is Err && e == StorageError::Serialization(
                    self.encoding(*val)->Err_0,
                ),
            },
    {
        match self {
            Serializer::JSON => match to_json(val) {
                Ok(bytes) => Ok(bytes),
                Err(e) => Err(StorageError::Serialization(e)),
            },
        }
    }

    /// Decodes a payload as a dialogue.
    pub fn deserialize(&self, data: &[u8]) -> (r: Result<serde_json::Value, StorageError>)
        ensures
            match r {
                Ok(val) => self.decoding(data@) == Ok::<serde_json::Value, serde_json::Error>(val),
                Err(e) => self.decoding(data@) is Err && e == StorageError::Deserialization(
                    self.decoding(data@)->Err_0,
                ),
            },
    {
        match self {
            Serializer::JSON => match from_json(data) {
                Ok(val) => Ok(val),
                Err(e) => Err(StorageError::Deserialization(e)),
            },
        }
    }
}

} // verus!
