//! The commands that the backend sends to the store, as the `redis` crate
//! builds them.
//!
//! A command is a list of byte strings: its name, then its arguments. A
//! pipeline is a list of commands that go out together; an atomic one is run
//! by the store as a transaction, so that no other client's command falls
//! between two of them.

use vstd::prelude::*;

verus! {

/// A single command of the `redis` crate.
#[verifier::external_type_specification]
#[verifier::external_body]
pub struct ExCmd(redis::Cmd);

/// A pipeline of commands of the `redis` crate.
#[verifier::external_type_specification]
#[verifier::external_body]
pub struct ExPipeline(redis::Pipeline);

/// The byte strings that a command holds: its name first, then its
/// arguments in the order in which they were given.
pub uninterp spec fn command_args(command: redis::Cmd) -> Seq<Seq<u8>>;

/// The commands that a pipeline holds, in the order in which they will run:
/// for each the byte strings it is made of, and whether its reply is left
/// out of what the pipeline hands back.
pub uninterp spec fn pipeline_steps(pipeline: redis::Pipeline) -> Seq<(Seq<Seq<u8>>, bool)>;

/// Whether the store will run the pipeline as one transaction.
pub uninterp spec fn pipeline_atomic(pipeline: redis::Pipeline) -> bool;

/// The ASCII letters `GET`.
pub open spec fn word_get() -> Seq<u8> {
    seq![71u8, 69u8, 84u8]
}

/// The ASCII letters `GETSET`.
pub open spec fn word_getset() -> Seq<u8> {
    seq![71u8, 69u8, 84u8, 83u8, 69u8, 84u8]
}

/// The ASCII letters `DEL`.
pub open spec fn word_del() -> Seq<u8> {
    seq![68u8, 69u8, 76u8]
}

/// The decimal digits of a natural number in ASCII, most significant first,
/// with no leading zero.
pub open spec fn decimal(n: nat) -> Seq<u8>
    decreases n,
{
    if n < 10 {
        seq![(48 + n) as u8]
    } else {
        decimal(n / 10).push((48 + n % 10) as u8)
    }
}

/// The key under which a conversation's dialogue is kept: the chat
/// identifier in decimal, with a minus sign in front if it is negative.
pub open spec fn key_text(chat_id: i64) -> Seq<u8> {
    if chat_id < 0 {
        seq![45u8] + decimal((-chat_id) as nat)
    } else {
        decimal(chat_id as nat)
    }
}

/// The number that a string of decimal digits stands for.
pub open spec fn decimal_value(digits: Seq<u8>) -> nat
    decreases digits.len(),
{
    if digits.len() == 0 {
        0
    } else {
        (decimal_value(digits.drop_last()) * 10 + (digits.last() - 48)) as nat
    }
}

/// The digits of a number are one or more ASCII digits, and stand for that
/// number.
pub proof fn lemma_decimal(n: nat)
    ensures
        decimal(n).len() >= 1,
        48 <= decimal(n)[0] <= 57,
        decimal_value(decimal(n)) == n,
    decreases n,
{
    if n < 10 {
        assert(decimal(n).drop_last().len() == 0);
        reveal_with_fuel(decimal_value, 2);
    } else {
        lemma_decimal(n / 10);
        assert(decimal(n).drop_last() =~= decimal(n / 10));
    }
}

/// Two conversations never share a key.
pub proof fn lemma_key_text_injective(a: i64, b: i64)
    requires
        key_text(a) == key_text(b),
    ensures
        a == b,
{
    if a < 0 {
        lemma_decimal((-a) as nat);
    } else {
        lemma_decimal(a as nat);
    }
    if b < 0 {
        lemma_decimal((-b) as nat);
    } else {
        lemma_decimal(b as nat);
    }
    assert(key_text(a)[0] == key_text(b)[0]);
    if a < 0 {
        assert(key_text(a).subrange(1, key_text(a).len() as int) =~= decimal((-a) as nat));
        assert(key_text(b).subrange(1, key_text(b).len() as int) =~= decimal((-b) as nat));
    }
}

/// The command that reads the payload of a conversation.
pub open spec fn fetch_args(chat_id: i64) -> Seq<Seq<u8>> {
    seq![word_get(), key_text(chat_id)]
}

/// The command that writes a payload for a conversation and reads the one
/// it replaces.
pub open spec fn swap_args(chat_id: i64, payload: Seq<u8>) -> Seq<Seq<u8>> {
    seq![word_getset(), key_text(chat_id), payload]
}

/// The command that deletes the payload of a conversation.
pub open spec fn delete_args(chat_id: i64) -> Seq<Seq<u8>> {
    seq![word_del(), key_text(chat_id)]
}

/// The two commands that read a conversation's payload and then delete it,
/// the second with its reply left out.
pub open spec fn take_steps(chat_id: i64) -> Seq<(Seq<Seq<u8>>, bool)> {
    seq![(fetch_args(chat_id), false), (delete_args(chat_id), true)]
}

/// Calls `redis::Cmd::get` with an integer key. The crate writes the name
/// `GET` and then the key, an integer being written in decimal.
#[verifier::external_body]
pub(crate) fn get_command(key: i64) -> (command: redis::Cmd)
    ensures
        command_args(command) == fetch_args(key),
{
    redis::Cmd::get(key)
}

/// Calls `redis::Cmd::getset` with an integer key and a byte vector. The
/// crate writes the name `GETSET`, the key in decimal, and the bytes as one
/// argument, unchanged.
#[verifier::external_body]
pub(crate) fn getset_command(key: i64, value: Vec<u8>) -> (command: redis::Cmd)
    ensures
        command_args(command) == swap_args(key, value@),
{
    redis::Cmd::getset(key, value)
}

/// Calls `redis::pipe`, which returns a pipeline that holds no command and
/// is not atomic.
#[verifier::external_body]
pub(crate) fn new_pipeline() -> (pipeline: redis::Pipeline)
    ensures
        pipeline_steps(pipeline) == Seq::<(Seq<Seq<u8>>, bool)>::empty(),
        !pipeline_atomic(pipeline),
{
    redis::pipe()
}

/// Calls `redis::Pipeline::atomic`, which marks the pipeline as a
/// transaction and leaves its commands as they are.
#[verifier::external_body]
pub(crate) fn make_atomic(pipeline: &mut redis::Pipeline)
    ensures
        pipeline_atomic(*final(pipeline)),
        pipeline_steps(*final(pipeline)) == pipeline_steps(*old(pipeline)),
{
    pipeline.atomic();
}

/// Calls `redis::Pipeline::get` with an integer key, which adds the command
/// `GET` with that key at the end, its reply kept.
#[verifier::external_body]
pub(crate) fn push_get(pipeline: &mut redis::Pipeline, key: i64)
    ensures
        pipeline_steps(*final(pipeline)) == pipeline_steps(*old(pipeline)).push(
            (fetch_args(key), false),
        ),
        pipeline_atomic(*final(pipeline)) == pipeline_atomic(*old(pipeline)),
{
    pipeline.get(key);
}

/// Calls `redis::Pipeline::del` with an integer key, which adds the command
/// `DEL` with that key at the end, its reply kept.
#[verifier::external_body]
pub(crate) fn push_del(pipeline: &mut redis::Pipeline, key: i64)
    ensures
        pipeline_steps(*final(pipeline)) == pipeline_steps(*old(pipeline)).push(
            (delete_args(key), false),
        ),
        pipeline_atomic(*final(pipeline)) == pipeline_atomic(*old(pipeline)),
{
    pipeline.del(key);
}

/// Calls `redis::Pipeline::ignore`, which marks the reply of the last
/// command as left out. The crate panics on a pipeline without commands.
#[verifier::external_body]
pub(crate) fn ignore_last(pipeline: &mut redis::Pipeline)
    requires
        pipeline_steps(*old(pipeline)).len() > 0,
    ensures
        pipeline_steps(*final(pipeline)) == pipeline_steps(*old(pipeline)).drop_last().push(
            (pipeline_steps(*old(pipeline)).last().0, true),
        ),
        pipeline_atomic(*final(pipeline)) == pipeline_atomic(*old(pipeline)),
{
    pipeline.ignore();
}

} // verus!
