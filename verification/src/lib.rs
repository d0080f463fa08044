//! Storage of per-conversation dialogue state in a Redis key-value store.
//!
//! The crate holds everything about the storage backend that can be decided
//! without touching the network: how a dialogue becomes a payload and back,
//! which commands are sent to the store for each operation, and how the
//! store's reply becomes the result that the dispatcher sees. Sending a
//! command and awaiting its reply is left to the caller.

pub mod command;
pub mod error;
pub mod model;
pub mod serializer;
pub mod storage;

pub use error::StorageError;
pub use serializer::Serializer;
pub use serializer::Serializer::JSON;
pub use storage::{RedisStorage, Reply};
