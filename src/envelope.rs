//! Message envelopes: canonical JSON bytes, content ids, commit messages and
//! the records a subscriber hands out.
use vstd::prelude::*;

use crate::digest::{blake3_content_id, content_id_of};
use crate::ident::{concat3, is_ulid};
use crate::topic::{validate_ulid_str, MessagePlaneError};

verus! {

#[verifier::external_type_specification]
#[verifier::external_body]
pub struct ExJsonValue(serde_json::Value);

/// Relies on `Clone` for `serde_json::Value`: a deep copy (nothing is claimed of it).
pub assume_specification[ <serde_json::Value as Clone>::clone ](v: &serde_json::Value) -> serde_json::Value;

/// Path of the canonical envelope blob inside a message commit.
pub const DEFAULT_ENVELOPE_PATH: &'static str = "message/envelope.json";

/// The document serde_json parses from a text (`None` when it rejects it).
pub uninterp spec fn json_parse_of(text: Seq<char>) -> Option<serde_json::Value>;

/// The document serde_json parses from bytes (`None` when it rejects them).
pub uninterp spec fn json_parse_bytes_of(bytes: Seq<u8>) -> Option<serde_json::Value>;

/// The member `key` of a JSON object (`None` for a missing member or a value
/// that is not an object).
pub uninterp spec fn json_member_of(v: serde_json::Value, key: Seq<char>) -> Option<serde_json::Value>;

/// The text of a JSON string (`None` for any other value).
pub uninterp spec fn json_text_of(v: serde_json::Value) -> Option<Seq<char>>;

/// The bytes serde_json writes for a document.
pub uninterp spec fn json_bytes_of(v: serde_json::Value) -> Seq<u8>;

pub open spec fn text_view(o: Option<String>) -> Option<Seq<char>> {
    match o {
        Some(s) => Some(s@),
        None => None,
    }
}

/// Relies on `serde_json::from_str`: parses a JSON document, a function of the
/// text alone; the error is rendered through its `Display`.
#[verifier::external_body]
fn parse_json(raw: &str) -> (r: Result<serde_json::Value, String>)
    ensures
        r is Ok <==> json_parse_of(raw@) is Some,
        r is Ok ==> r->Ok_0 == json_parse_of(raw@)->Some_0,
{
    serde_json::from_str(raw).map_err(|e: serde_json::Error| e.to_string())
}

/// Relies on `serde_json::from_slice`: parses JSON bytes, a function of the
/// bytes alone; the error is rendered through its `Display`.
#[verifier::external_body]
pub(crate) fn parse_json_bytes(raw: &[u8]) -> (r: Result<serde_json::Value, String>)
    ensures
        r is Ok <==> json_parse_bytes_of(raw@) is Some,
        r is Ok ==> r->Ok_0 == json_parse_bytes_of(raw@)->Some_0,
{
    serde_json::from_slice(raw).map_err(|e: serde_json::Error| e.to_string())
}

/// Relies on `serde_json::Value::get`: the member `key` of an object.
#[verifier::external_body]
pub(crate) fn json_member<'a>(v: &'a serde_json::Value, key: &str) -> (r: Option<&'a serde_json::Value>)
    ensures
        match r {
            Some(m) => json_member_of(*v, key@) == Some(*m),
            None => json_member_of(*v, key@) is None,
        },
{
    v.get(key)
}

/// Relies on `serde_json::Value::as_str`: the text of a JSON string.
#[verifier::external_body]
pub(crate) fn json_text(v: &serde_json::Value) -> (r: Option<String>)
    ensures
        text_view(r) == json_text_of(*v),
{
    v.as_str().map(|s: &str| s.to_string())
}

/// Relies on `serde_json::to_vec` on a `Value`. Without serde_json's
/// `preserve_order` feature its objects are ordered maps, so the bytes list
/// every object's keys in lexicographic order, recursively, and keep the order
/// of arrays. Writing a `Value` into a `Vec` does not fail: keys are strings,
/// non-finite numbers cannot occur, and the writer is memory.
#[verifier::external_body]
pub(crate) fn canonical_json_bytes(v: &serde_json::Value) -> (r: Vec<u8>)
    ensures
        r@ == json_bytes_of(*v),
{
    match serde_json::to_vec(v) {
        Ok(bytes) => bytes,
        Err(_) => Vec::new(),
    }
}

/// The text of the member `key` of `v`, when it is a string.
pub open spec fn member_text_of(v: serde_json::Value, key: Seq<char>) -> Option<Seq<char>> {
    match json_member_of(v, key) {
        Some(m) => json_text_of(m),
        None => None,
    }
}

/// `v` has a member `key`.
pub open spec fn has_member_of(v: serde_json::Value, key: Seq<char>) -> bool {
    json_member_of(v, key) is Some
}

/// Canonical envelope of the message plane.
#[derive(Debug, Clone, PartialEq, Eq)]
pub struct MessageEnvelope {
    /// ULID of the message (ordering and dedupe).
    pub ulid: String,
    /// Namespace (`governance`).
    pub namespace: String,
    /// Type (`proposal.created`).
    pub event_type: String,
    /// Canonical JSON bytes written to `message/envelope.json`.
    pub canonical_bytes: Vec<u8>,
}

/// `<event_type>\n\nEvent-Id: ulid:<ulid>\nContent-Id: <content_id>\n`.
pub open spec fn message_commit_text(e: MessageEnvelope) -> Seq<char> {
    e.event_type@ + "\n\nEvent-Id: ulid:"@ + e.ulid@ + "\nContent-Id: "@ + content_id_of(
        e.canonical_bytes@,
    ) + "\n"@
}

/// The envelope that the fields read from a JSON document describe: the
/// `ulid`, `ns` and `type` members as text (`None` when absent or not a
/// string), whether a `payload` member exists, and the document's canonical
/// bytes. Anything missing, or an invalid ULID, is an invalid envelope.
pub open spec fn envelope_from_fields(
    ulid: Option<Seq<char>>,
    ns: Option<Seq<char>>,
    event_type: Option<Seq<char>>,
    has_payload: bool,
    canonical: Seq<u8>,
    r: Result<MessageEnvelope, MessagePlaneError>,
) -> bool {
    if ulid is Some && is_ulid(ulid->Some_0) && ns is Some && event_type is Some && has_payload {
        r is Ok && r->Ok_0.ulid@ == ulid->Some_0 && r->Ok_0.namespace@ == ns->Some_0
            && r->Ok_0.event_type@ == event_type->Some_0 && r->Ok_0.canonical_bytes@ == canonical
    } else {
        r is Err && r->Err_0 is InvalidEnvelope
    }
}

/// `r` is the envelope built from the JSON document `v`.
pub open spec fn envelope_of_value(v: serde_json::Value, r: Result<MessageEnvelope, MessagePlaneError>) -> bool {
    envelope_from_fields(
        member_text_of(v, "ulid"@),
        member_text_of(v, "ns"@),
        member_text_of(v, "type"@),
        has_member_of(v, "payload"@),
        json_bytes_of(v),
        r,
    )
}

impl MessageEnvelope {
    /// An envelope whose canonical bytes were produced by the caller.
    pub fn new(ulid: &str, namespace: &str, event_type: &str, canonical_bytes: Vec<u8>) -> (r:
        MessageEnvelope)
        ensures
            r.ulid@ == ulid@,
            r.namespace@ == namespace@,
            r.event_type@ == event_type@,
            r.canonical_bytes@ == canonical_bytes@,
    {
        MessageEnvelope {
            ulid: String::from_str(ulid),
            namespace: String::from_str(namespace),
            event_type: String::from_str(event_type),
            canonical_bytes,
        }
    }

    /// Builds the envelope from the fields read out of a JSON document.
    pub fn from_fields(
        ulid: Option<String>,
        ns: Option<String>,
        event_type: Option<String>,
        has_payload: bool,
        canonical: Vec<u8>,
    ) -> (r: Result<MessageEnvelope, MessagePlaneError>)
        ensures
            envelope_from_fields(text_view(ulid), text_view(ns), text_view(event_type), has_payload, canonical@, r),
    {
        let ulid = match ulid {
            Some(u) => u,
            None => {
                return Err(MessagePlaneError::InvalidEnvelope(String::from_str("missing 'ulid'")));
            },
        };
        validate_ulid_str(ulid.as_str())?;
        let namespace = match ns {
            Some(n) => n,
            None => {
                return Err(MessagePlaneError::InvalidEnvelope(String::from_str("missing 'ns'")));
            },
        };
        let event_type = match event_type {
            Some(t) => t,
            None => {
                return Err(MessagePlaneError::InvalidEnvelope(String::from_str("missing 'type'")));
            },
        };
        if !has_payload {
            return Err(MessagePlaneError::InvalidEnvelope(String::from_str("missing 'payload'")));
        }
        Ok(MessageEnvelope { ulid, namespace, event_type, canonical_bytes: canonical })
    }

    /// Builds an envelope from a parsed JSON document: it needs a valid `ulid`,
    /// an `ns`, a `type` and a `payload`; the canonical bytes sort object keys.
    pub fn from_value(value: serde_json::Value) -> (r: Result<MessageEnvelope, MessagePlaneError>)
        ensures
            envelope_of_value(value, r),
    {
        let ulid = match json_member(&value, "ulid") {
            Some(v) => json_text(v),
            None => None,
        };
        let ns = match json_member(&value, "ns") {
            Some(v) => json_text(v),
            None => None,
        };
        let event_type = match json_member(&value, "type") {
            Some(v) => json_text(v),
            None => None,
        };
        let has_payload = json_member(&value, "payload").is_some();
        let canonical = canonical_json_bytes(&value);
        MessageEnvelope::from_fields(ulid, ns, event_type, has_payload, canonical)
    }

    /// Parses raw JSON text and builds its envelope as `from_value` does.
    pub fn from_json_str(raw: &str) -> (r: Result<MessageEnvelope, MessagePlaneError>)
        ensures
            json_parse_of(raw@) is None ==> r is Err && r->Err_0 is InvalidEnvelope,
            json_parse_of(raw@) is Some ==> envelope_of_value(json_parse_of(raw@)->Some_0, r),
    {
        match parse_json(raw) {
            Ok(value) => MessageEnvelope::from_value(value),
            Err(e) => Err(MessagePlaneError::InvalidEnvelope(concat3("parse error: ", e.as_str(), ""))),
        }
    }

    /// `blake3:<hex>` digest of the canonical bytes.
    pub fn content_id(&self) -> (r: String)
        ensures
            r@ == content_id_of(self.canonical_bytes@),
    {
        blake3_content_id(self.canonical_bytes.as_slice())
    }

    /// The commit message of the message commit that carries this envelope.
    pub fn commit_message(&self) -> (r: String)
        ensures
            r@ == message_commit_text(*self),
    {
        let head = concat3(self.event_type.as_str(), "\n\nEvent-Id: ulid:", self.ulid.as_str());
        let cid = self.content_id();
        let r = concat3(head.as_str(), "\nContent-Id: ", cid.as_str());
        let out = concat3(r.as_str(), "\n", "");
        proof {
            reveal_strlit("");
        }
        assert(out@ =~= message_commit_text(*self));
        out
    }
}

/// Result of writing a message commit.
#[derive(Debug, Clone, PartialEq, Eq)]
pub struct PublishReceipt {
    /// Id of the message commit.
    pub commit_id: String,
    /// Content id of the canonical envelope bytes.
    pub content_id: String,
    /// ULID of the envelope.
    pub ulid: String,
}

/// One message as a subscriber returns it.
#[derive(Debug, Clone, PartialEq, Eq)]
pub struct MessageRecord {
    /// Id of the commit that holds the message.
    pub commit_id: String,
    /// Content id of the canonical envelope bytes.
    pub content_id: String,
    /// Path of the envelope blob inside the commit tree.
    pub envelope_path: String,
    /// Canonical JSON bytes of the envelope.
    pub canonical_envelope: Vec<u8>,
    /// ULID of the message.
    pub ulid: String,
}

/// `r` is the record of the envelope bytes `canonical` stored in commit
/// `commit_id`, whose `ulid` member reads `ulid`.
pub open spec fn record_of(
    r: MessageRecord,
    commit_id: Seq<char>,
    canonical: Seq<u8>,
    ulid: Seq<char>,
) -> bool {
    &&& r.commit_id@ == commit_id
    &&& r.content_id@ == content_id_of(canonical)
    &&& r.envelope_path@ == "message/envelope.json"@
    &&& r.canonical_envelope@ == canonical
    &&& r.ulid@ == ulid
}

/// The record of the envelope bytes found in commit `commit_id`, given the text
/// of their `ulid` member (`None` when the bytes do not parse or have none).
pub fn record_from_parts(commit_id: String, canonical: Vec<u8>, ulid: Option<String>) -> (r:
    Result<MessageRecord, MessagePlaneError>)
    ensures
        r is Ok <==> ulid is Some && is_ulid(ulid->Some_0@),
        r is Ok ==> record_of(r->Ok_0, commit_id@, canonical@, ulid->Some_0@),
        r is Ok ==> text_view(ulid) == Some(r->Ok_0.ulid@),
        r is Err && ulid is None ==> r->Err_0 is Repo,
        r is Err && ulid is Some ==> r->Err_0 is InvalidEnvelope,
{
    let ulid = match ulid {
        Some(u) => u,
        None => {
            return Err(MessagePlaneError::Repo(String::from_str("envelope missing ulid")));
        },
    };
    validate_ulid_str(ulid.as_str())?;
    let content_id = blake3_content_id(canonical.as_slice());
    Ok(MessageRecord {
        commit_id,
        content_id,
        envelope_path: String::from_str(DEFAULT_ENVELOPE_PATH),
        canonical_envelope: canonical,
        ulid,
    })
}

/// The text of the `ulid` member of the JSON document in `bytes`.
pub open spec fn envelope_ulid_of(bytes: Seq<u8>) -> Option<Seq<char>> {
    match json_parse_bytes_of(bytes) {
        Some(doc) => member_text_of(doc, "ulid"@),
        None => None,
    }
}

/// The record of the envelope bytes stored in commit `commit_id`.
pub fn read_message_record(commit_id: String, canonical: Vec<u8>) -> (r: Result<
    MessageRecord,
    MessagePlaneError,
>)
    ensures
        r is Ok <==> envelope_ulid_of(canonical@) is Some && is_ulid(envelope_ulid_of(canonical@)->Some_0),
        r is Ok ==> record_of(r->Ok_0, commit_id@, canonical@, envelope_ulid_of(canonical@)->Some_0),
{
    let ulid = match parse_json_bytes(canonical.as_slice()) {
        Ok(doc) => match json_member(&doc, "ulid") {
            Some(v) => json_text(v),
            None => None,
        },
        Err(_) => None,
    };
    record_from_parts(commit_id, canonical, ulid)
}

} // verus!
