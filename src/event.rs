//! Ledger event envelopes and their validation.
use vstd::prelude::*;

use crate::envelope::{canonical_json_bytes, json_bytes_of};
use crate::ident::{is_event_type, is_ulid, validate_event_type, validate_ulid};

verus! {

/// Upper bound on the canonical size of an event payload (1 MiB).
pub const MAX_PAYLOAD_BYTES: usize = 1024 * 1024;

/// A ledger event.
#[derive(Debug, Clone, PartialEq, Eq)]
pub struct EventEnvelope {
    pub event_type: String,
    pub ulid: String,
    pub actor: String,
    pub caps: Vec<String>,
    pub payload: serde_json::Value,
    pub policy_root: String,
    pub sig_alg: Option<String>,
    pub ts: Option<String>,
}

/// An envelope passes validation: its ULID and event type are valid and its
/// canonical payload fits in 1 MiB.
pub open spec fn envelope_valid(e: EventEnvelope) -> bool {
    is_ulid(e.ulid@) && is_event_type(e.event_type@) && json_bytes_of(e.payload).len()
        <= MAX_PAYLOAD_BYTES
}

/// Checks the parts of an envelope that validation reads: its ULID, its event
/// type and the size of its canonical payload.
pub fn check_envelope_parts(ulid: &str, event_type: &str, payload_len: usize) -> (r: Result<(), String>)
    ensures
        r is Ok <==> is_ulid(ulid@) && is_event_type(event_type@) && payload_len <= MAX_PAYLOAD_BYTES,
{
    validate_ulid(ulid)?;
    validate_event_type(event_type)?;
    if payload_len > MAX_PAYLOAD_BYTES {
        Err(String::from_str("payload exceeds 1 MiB"))
    } else {
        Ok(())
    }
}

impl EventEnvelope {
    /// Validates the fields that reach ref names and commit messages, and the
    /// payload size.
    pub fn validate(&self) -> (r: Result<(), String>)
        ensures
            r is Ok <==> envelope_valid(*self),
    {
        let bytes = canonical_json_bytes(&self.payload);
        check_envelope_parts(self.ulid.as_str(), self.event_type.as_str(), bytes.len())
    }
}

} // verus!
