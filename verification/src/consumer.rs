//! The consumer's poll / decode / persist / commit cycle.
//!
//! The worker process drives a single sequential loop: poll the broker,
//! extract the record's payload, decode it, insert it into the durable
//! store, and commit the consumed offset. The decisions between those stages
//! live here; the I/O around them does not.

use vstd::prelude::*;
use vstd::utf8::{valid_utf8, decode_utf8};
use crate::json::{json_text_ok, parse_json_value};

verus! {

/// Where the consumer loop stands for the record in hand.
#[derive(Debug, Clone, Copy, PartialEq, Eq, Structural)]
pub enum Phase {
    Polling,
    Received,
    Deserializing,
    Persisting,
    Committing,
}

/// What just happened at the current stage, as reported by the I/O layer.
#[derive(Debug, Clone, Copy, PartialEq, Eq, Structural)]
pub enum ConsumerEvent {
    /// A poll completed; true when it delivered a record.
    Polled(bool),
    /// The payload bytes were taken out of the record in hand.
    Extracted,
    /// Decoding finished; true when the payload was valid structured data.
    Decoded(bool),
    /// The durable-store insert finished; true when the row was written.
    Persisted(bool),
    /// The offset commit was issued (fire-and-forget; its own outcome is
    /// only logged).
    CommitIssued,
}

/// The loop's transition relation. A failed poll retries at once; a failed
/// decode skips persistence and goes straight to committing, dropping the
/// payload for good; a failed insert still commits, so the offset advances
/// past the lost record. Pairs of phase and event that the loop cannot
/// produce have no successor.
pub open spec fn spec_step(p: Phase, e: ConsumerEvent) -> Option<Phase> {
    match (p, e) {
        (Phase::Polling, ConsumerEvent::Polled(got_record)) => Some(
            if got_record {
                Phase::Received
            } else {
                Phase::Polling
            },
        ),
        (Phase::Received, ConsumerEvent::Extracted) => Some(Phase::Deserializing),
        (Phase::Deserializing, ConsumerEvent::Decoded(ok)) => Some(
            if ok {
                Phase::Persisting
            } else {
                Phase::Committing
            },
        ),
        (Phase::Persisting, ConsumerEvent::Persisted(_)) => Some(Phase::Committing),
        (Phase::Committing, ConsumerEvent::CommitIssued) => Some(Phase::Polling),
        _ => None,
    }
}

/// Advances the consumer loop by one stage.
pub fn step(p: Phase, e: ConsumerEvent) -> (q: Phase)
    requires
        spec_step(p, e) is Some,
    ensures
        spec_step(p, e) == Some(q),
{
    match (p, e) {
        (Phase::Polling, ConsumerEvent::Polled(got_record)) => {
            if got_record {
                Phase::Received
            } else {
                Phase::Polling
            }
        },
        (Phase::Received, ConsumerEvent::Extracted) => Phase::Deserializing,
        (Phase::Deserializing, ConsumerEvent::Decoded(ok)) => {
            if ok {
                Phase::Persisting
            } else {
                Phase::Committing
            }
        },
        (Phase::Persisting, ConsumerEvent::Persisted(_)) => Phase::Committing,
        (Phase::Committing, ConsumerEvent::CommitIssued) => Phase::Polling,
        _ => Phase::Polling,
    }
}

/// The offset is committed whatever the insert's outcome: a storage failure
/// never holds the consumer's position back, so a record that failed to
/// persist is not redelivered. Durability is deliberately traded for
/// consumption progress.
pub proof fn lemma_commit_regardless_of_persist(row_written: bool)
    ensures
        spec_step(Phase::Persisting, ConsumerEvent::Persisted(row_written)) == Some(
            Phase::Committing,
        ),
{
}

/// Persistence is reached only through a successful decode: a payload that
/// did not decode as structured data is never handed to the persistence
/// writer.
pub proof fn lemma_persist_only_after_decode(p: Phase, e: ConsumerEvent)
    requires
        spec_step(p, e) == Some(Phase::Persisting),
    ensures
        p == Phase::Deserializing && e == ConsumerEvent::Decoded(true),
{
}

/// Why a record's payload could not be decoded.
#[derive(Debug, Clone, Copy, PartialEq, Eq, Structural)]
pub enum DecodeError {
    /// The record carried no payload at all.
    MissingPayload,
    /// The payload bytes are not valid UTF-8 text.
    PayloadNotUtf8,
    /// The payload text is not well-formed JSON.
    PayloadNotJson,
}

/// Relies on std's str::from_utf8: `Some` exactly on valid UTF-8, and the
/// text is the decoding of the bytes.
#[verifier::external_body]
fn bytes_as_str(b: &[u8]) -> (r: Option<&str>)
    ensures
        r is Some <==> valid_utf8(b@),
        r is Some ==> r->0@ == decode_utf8(b@),
{
    std::str::from_utf8(b).ok()
}

/// Decodes a consumed record's payload into the structured value that the
/// persistence writer inserts. Succeeds exactly when a payload is present,
/// is UTF-8 text, and that text is well-formed JSON; the error says which of
/// the three failed first.
pub fn decode_payload(payload: Option<&[u8]>) -> (r: Result<serde_json::Value, DecodeError>)
    ensures
        r is Ok <==> payload is Some && valid_utf8(payload->0@) && json_text_ok(
            decode_utf8(payload->0@),
        ),
        payload is None ==> r == Err::<serde_json::Value, DecodeError>(DecodeError::MissingPayload),
        payload is Some && !valid_utf8(payload->0@) ==> r == Err::<
            serde_json::Value,
            DecodeError,
        >(DecodeError::PayloadNotUtf8),
        payload is Some && valid_utf8(payload->0@) && !json_text_ok(decode_utf8(payload->0@))
            ==> r == Err::<serde_json::Value, DecodeError>(DecodeError::PayloadNotJson),
{
    let bytes = match payload {
        Some(b) => b,
        None => {
            return Err(DecodeError::MissingPayload);
        },
    };
    let text = match bytes_as_str(bytes) {
        Some(t) => t,
        None => {
            return Err(DecodeError::PayloadNotUtf8);
        },
    };
    match parse_json_value(text) {
        Some(v) => Ok(v),
        None => Err(DecodeError::PayloadNotJson),
    }
}

} // verus!
