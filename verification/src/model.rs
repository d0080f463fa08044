//! What the backend's commands do to the store, and what follows for the
//! three operations.
//!
//! The store is taken as a map from keys to payloads, both byte strings,
//! which runs one command, or one transaction, at a time. An operation is
//! then a function from the store before to the store after and the result
//! that the caller sees. The laws at the end are proved of these functions.

use vstd::prelude::*;
use crate::command::{
    delete_args, fetch_args, key_text, lemma_key_text_injective, swap_args, take_steps, word_del,
    word_get, word_getset,
};
use crate::error::StorageError;
use crate::serializer::Serializer;

verus! {

/// The contents of the store: the payload under each key that holds one.
pub type Store = Map<Seq<u8>, Seq<u8>>;

/// The store's answer to one command.
pub enum Answer {
    /// The key held nothing.
    Nil,
    /// The payload that the key held.
    Bulk(Seq<u8>),
    /// How many keys were deleted.
    Count(nat),
    /// The command is none of those that the backend sends.
    Refused,
}

impl Answer {
    /// The payload in the answer, if it carries one.
    pub open spec fn payload(self) -> Option<Seq<u8>> {
        match self {
            Answer::Bulk(payload) => Some(payload),
            _ => None,
        }
    }
}

/// The answer that tells what a key holds.
pub open spec fn held(store: Store, key: Seq<u8>) -> Answer {
    if store.dom().contains(key) {
        Answer::Bulk(store[key])
    } else {
        Answer::Nil
    }
}

/// One command run on the store: the store afterwards, and the answer.
/// `GET` reads a key; `GETSET` writes a key and answers with what it held;
/// `DEL` deletes a key and answers with the number of keys deleted.
pub open spec fn execute(store: Store, args: Seq<Seq<u8>>) -> (Store, Answer) {
    if args.len() == 2 && args[0] == word_get() {
        (store, held(store, args[1]))
    } else if args.len() == 3 && args[0] == word_getset() {
        (store.insert(args[1], args[2]), held(store, args[1]))
    } else if args.len() == 2 && args[0] == word_del() {
        (
            store.remove(args[1]),
            Answer::Count(
                if store.dom().contains(args[1]) {
                    1
                } else {
                    0
                },
            ),
        )
    } else {
        (store, Answer::Refused)
    }
}

/// A list of commands run on the store in order, with nothing in between:
/// the store afterwards, and the answers of the commands whose reply is not
/// left out.
pub open spec fn execute_all(store: Store, steps: Seq<(Seq<Seq<u8>>, bool)>) -> (Store, Seq<Answer>)
    decreases steps.len(),
{
    if steps.len() == 0 {
        (store, Seq::empty())
    } else {
        let (before, answers) = execute_all(store, steps.drop_last());
        let (after, answer) = execute(before, steps.last().0);
        (
            after,
            if steps.last().1 {
                answers
            } else {
                answers.push(answer)
            },
        )
    }
}

/// Reading the dialogue of a conversation: the store afterwards, and the
/// result.
pub open spec fn get_dialogue(format: Serializer, store: Store, chat_id: i64) -> (
    Store,
    Result<Option<serde_json::Value>, StorageError>,
) {
    let (after, answer) = execute(store, fetch_args(chat_id));
    (after, format.served(answer.payload()))
}

/// Replacing the dialogue of a conversation: the store afterwards, and the
/// result, which is the dialogue that was replaced. A dialogue that cannot
/// be encoded leaves the store as it was.
pub open spec fn update_dialogue(
    format: Serializer,
    store: Store,
    chat_id: i64,
    dialogue: serde_json::Value,
) -> (Store, Result<Option<serde_json::Value>, StorageError>) {
    match format.encoding(dialogue) {
        Ok(payload) => {
            let (after, answer) = execute(store, swap_args(chat_id, payload));
            (after, format.served(answer.payload()))
        },
        Err(e) => (store, Err(StorageError::Serialization(e))),
    }
}

/// Clearing the dialogue of a conversation: the store afterwards, and the
/// result, which is the dialogue that was cleared.
pub open spec fn remove_dialogue(format: Serializer, store: Store, chat_id: i64) -> (
    Store,
    Result<Option<serde_json::Value>, StorageError>,
) {
    let (after, answers) = execute_all(store, take_steps(chat_id));
    (after, format.served(answers[0].payload()))
}

/// The transaction that clears a conversation answers with exactly one
/// reply, which is what the key held, and leaves the key without a payload.
pub proof fn lemma_take(store: Store, chat_id: i64)
    ensures
        execute_all(store, take_steps(chat_id)) == (
            store.remove(key_text(chat_id)),
            seq![held(store, key_text(chat_id))],
        ),
{
    let first = take_steps(chat_id).drop_last();
    assert(first.drop_last().len() == 0);
    assert(word_del()[0] != word_get()[0]);
    reveal_with_fuel(execute_all, 3);
    assert(execute_all(store, first).1 =~= seq![held(store, key_text(chat_id))]);
}

/// Reading changes nothing: the store is the same afterwards, and so a
/// second read with no write in between gives the result of the first.
pub proof fn law_read_twice(format: Serializer, store: Store, chat_id: i64)
    ensures
        get_dialogue(format, store, chat_id).0 == store,
        get_dialogue(format, get_dialogue(format, store, chat_id).0, chat_id).1 == get_dialogue(
            format,
            store,
            chat_id,
        ).1,
{
}

/// After an update the key holds the payload of the dialogue written and
/// every other key holds what it held; after a removal the key holds
/// nothing and every other key holds what it held.
pub proof fn law_stored_payload(
    format: Serializer,
    store: Store,
    chat_id: i64,
    dialogue: serde_json::Value,
)
    ensures
        format.encoding(dialogue) matches Ok(payload) ==> update_dialogue(
            format,
            store,
            chat_id,
            dialogue,
        ).0 == store.insert(key_text(chat_id), payload),
        format.encoding(dialogue) is Err ==> update_dialogue(format, store, chat_id, dialogue).0
            == store,
        remove_dialogue(format, store, chat_id).0 == store.remove(key_text(chat_id)),
{
    lemma_take(store, chat_id);
}

/// Two updates in a row: the second returns the dialogue that the first
/// wrote, and a read after it returns the dialogue that the second wrote.
pub proof fn law_update_returns_previous(
    format: Serializer,
    store: Store,
    chat_id: i64,
    first: serde_json::Value,
    second: serde_json::Value,
)
    requires
        format.round_trips(first),
        format.round_trips(second),
    ensures
        ({
            let written = update_dialogue(format, store, chat_id, first).0;
            let (replaced, previous) = update_dialogue(format, written, chat_id, second);
            &&& previous == Ok::<Option<serde_json::Value>, StorageError>(Some(first))
            &&& get_dialogue(format, replaced, chat_id).1 == Ok::<
                Option<serde_json::Value>,
                StorageError,
            >(Some(second))
        }),
{
}

/// An update and then a removal: the removal returns the dialogue that the
/// update wrote, and a read after it finds none.
pub proof fn law_remove_returns_previous(
    format: Serializer,
    store: Store,
    chat_id: i64,
    dialogue: serde_json::Value,
)
    requires
        format.round_trips(dialogue),
    ensures
        ({
            let written = update_dialogue(format, store, chat_id, dialogue).0;
            let (cleared, previous) = remove_dialogue(format, written, chat_id);
            &&& previous == Ok::<Option<serde_json::Value>, StorageError>(Some(dialogue))
            &&& get_dialogue(format, cleared, chat_id).1 == Ok::<
                Option<serde_json::Value>,
                StorageError,
            >(None)
        }),
{
    let written = update_dialogue(format, store, chat_id, dialogue).0;
    lemma_take(written, chat_id);
}

/// A key that holds nothing: a read and a removal both find no dialogue
/// and report no failure.
pub proof fn law_absent_key(format: Serializer, store: Store, chat_id: i64)
    requires
        !store.dom().contains(key_text(chat_id)),
    ensures
        get_dialogue(format, store, chat_id).1 == Ok::<Option<serde_json::Value>, StorageError>(
            None,
        ),
        remove_dialogue(format, store, chat_id).1 == Ok::<Option<serde_json::Value>, StorageError>(
            None,
        ),
{
    lemma_take(store, chat_id);
}

/// An update or a removal for one conversation leaves every other
/// conversation's dialogue as it was.
pub proof fn law_other_conversations_untouched(
    format: Serializer,
    store: Store,
    chat_id: i64,
    dialogue: serde_json::Value,
    other: i64,
)
    requires
        other != chat_id,
    ensures
        get_dialogue(format, update_dialogue(format, store, chat_id, dialogue).0, other).1
            == get_dialogue(format, store, other).1,
        get_dialogue(format, remove_dialogue(format, store, chat_id).0, other).1 == get_dialogue(
            format,
            store,
            other,
        ).1,
{
    lemma_take(store, chat_id);
    if key_text(other) == key_text(chat_id) {
        lemma_key_text_injective(other, chat_id);
    }
}

} // verus!
