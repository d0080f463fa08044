//! The storage backend: a connection target, a format, and the three
//! operations on a conversation's dialogue.

use vstd::prelude::*;
use crate::command::{
    command_args, fetch_args, get_command, getset_command, ignore_last, make_atomic, new_pipeline,
    pipeline_atomic, pipeline_steps, push_del, push_get, swap_args, take_steps,
};
use crate::error::StorageError;
use crate::serializer::Serializer;

verus! {

/// The client of the `redis` crate: a connection target that has passed the
/// crate's checks. It holds no open connection.
#[verifier::external_type_specification]
#[verifier::external_body]
pub struct ExClient(redis::Client);

/// Calls `redis::Client::open` with the target as a string. The crate
/// parses the target and connects to nothing; which targets it accepts
/// depends on the platform, so nothing is said of the outcome.
#[verifier::external_body]
fn open_client(url: &str) -> (r: Result<redis::Client, redis::RedisError>) {
    redis::Client::open(url)
}

/// What the store answered to a command of the backend, as the caller who
/// sent the command saw it.
#[derive(Debug)]
pub enum Reply {
    /// No connection to the store could be had.
    Unreachable(redis::RedisError),
    /// The store, or the connection to it, failed the command.
    Failed(redis::RedisError),
    /// The command ran. The payload is the one that the key held before,
    /// if it held any.
    Previous(Option<Vec<u8>>),
}

impl Reply {
    /// The reply that stands for the answer to a command that was sent: the
    /// payload that came back, or the failure.
    pub fn answered(answer: Result<Option<Vec<u8>>, redis::RedisError>) -> (reply: Reply)
        ensures
            match answer {
                Ok(payload) => reply == Reply::Previous(payload),
                Err(e) => reply == Reply::Failed(e),
            },
    {
        match answer {
            Ok(payload) => Reply::Previous(payload),
            Err(e) => Reply::Failed(e),
        }
    }
}

/// A handle on the store in which dialogues are kept.
pub struct RedisStorage {
    client: redis::Client,
    serializer: Serializer,
}

impl RedisStorage {
    /// The connection target of the backend.
    pub closed spec fn target(self) -> redis::Client {
        self.client
    }

    /// The format in which the backend writes and reads every payload.
    pub closed spec fn format(self) -> Serializer {
        self.serializer
    }

    /// What the caller of an operation gets for a reply: a failure of the
    /// store as it is, else what the format makes of the payload.
    pub open spec fn outcome_of(self, reply: Reply) -> Result<Option<serde_json::Value>, StorageError> {
        match reply {
            Reply::Unreachable(e) => Err(StorageError::Connection(e)),
            Reply::Failed(e) => Err(StorageError::Store(e)),
            Reply::Previous(None) => self.format().served(None),
            Reply::Previous(Some(payload)) => self.format().served(Some(payload@)),
        }
    }

    /// Makes a backend of a checked connection target, or reports why the
    /// target was refused.
    pub fn with_client(
        checked: Result<redis::Client, redis::RedisError>,
        serializer: Serializer,
    ) -> (r: Result<RedisStorage, StorageError>)
        ensures
            match checked {
                Ok(client) => r is Ok && r->Ok_0.target() == client && r->Ok_0.format()
                    == serializer,
                Err(e) => r == Err::<RedisStorage, StorageError>(StorageError::Connection(e)),
            },
    {
        match checked {
            Ok(client) => Ok(RedisStorage { client, serializer }),
            Err(e) => Err(StorageError::Connection(e)),
        }
    }

    /// Checks a connection target and records it with the format. No
    /// connection is made yet.
    pub fn open(url: &str, serializer: Serializer) -> (r: Result<RedisStorage, StorageError>)
        ensures
            match r {
                Ok(storage) => storage.format() == serializer,
                Err(e) => e is Connection,
            },
    {
        RedisStorage::with_client(open_client(url), serializer)
    }

    /// The connection target, for the caller to connect with.
    pub fn client(&self) -> (r: &redis::Client)
        ensures
            *r == self.target(),
    {
        &self.client
    }

    /// The format of the backend.
    pub fn serializer(&self) -> (r: Serializer)
        ensures
            r == self.format(),
    {
        self.serializer
    }

    /// The command to send for reading the dialogue of a conversation.
    pub fn get_request(&self, chat_id: i64) -> (command: redis::Cmd)
        ensures
            command_args(command) == fetch_args(chat_id),
    {
        get_command(chat_id)
    }

    /// The command to send for replacing the dialogue of a conversation: a
    /// single swap, which writes the new payload and answers with the old
    /// one. Nothing is to be sent where the dialogue cannot be encoded.
    pub fn update_request(&self, chat_id: i64, dialogue: &serde_json::Value) -> (r: Result<
        redis::Cmd,
        StorageError,
    >)
        ensures
            match r {
                Ok(command) => self.format().encoding(*dialogue) is Ok && command_args(command)
                    == swap_args(chat_id, self.format().encoding(*dialogue)->Ok_0),
                Err(e) => self.format().encoding(*dialogue) is Err && e
                    == StorageError::Serialization(self.format().encoding(*dialogue)->Err_0),
            },
    {
        match self.serializer.serialize(dialogue) {
            Ok(payload) => Ok(getset_command(chat_id, payload)),
            Err(e) => Err(e),
        }
    }

    /// The pipeline to send for clearing the dialogue of a conversation: one
    /// transaction that reads the payload and then deletes the key, and
    /// answers with what it read.
    pub fn remove_request(&self, chat_id: i64) -> (pipeline: redis::Pipeline)
        ensures
            pipeline_atomic(pipeline),
            pipeline_steps(pipeline) == take_steps(chat_id),
    {
        let mut pipeline = new_pipeline();
        make_atomic(&mut pipeline);
        push_get(&mut pipeline, chat_id);
        push_del(&mut pipeline, chat_id);
        ignore_last(&mut pipeline);
        proof {
            assert(pipeline_steps(pipeline) =~= take_steps(chat_id));
        }
        pipeline
    }

    /// Turns the store's answer to any of the three commands into the
    /// result of the operation.
    pub fn outcome(&self, reply: Reply) -> (r: Result<Option<serde_json::Value>, StorageError>)
        ensures
            r == self.outcome_of(reply),
    {
        match reply {
            Reply::Unreachable(e) => Err(StorageError::Connection(e)),
            Reply::Failed(e) => Err(StorageError::Store(e)),
            Reply::Previous(None) => Ok(None),
            Reply::Previous(Some(payload)) => match self.serializer.deserialize(payload.as_slice()) {
                Ok(dialogue) => Ok(Some(dialogue)),
                Err(e) => Err(e),
            },
        }
    }
}

} // verus!
