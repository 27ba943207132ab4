//! Responses of the `messages.read` request.
use vstd::prelude::*;

use crate::envelope::MessageRecord;

verus! {

/// The standard base64 text (with padding) of `b`, as the base64 crate writes it.
pub uninterp spec fn base64_of(b: Seq<u8>) -> Seq<char>;

/// Relies on base64's `STANDARD` engine `encode`: standard alphabet, padded.
#[verifier::external_body]
fn base64_standard(b: &[u8]) -> (r: String)
    ensures
        r@ == base64_of(b@),
{
    base64::Engine::encode(&base64::engine::general_purpose::STANDARD, b)
}

/// One message of a `messages.read` response.
#[derive(Debug, Clone, PartialEq, Eq)]
pub struct MessagesReadEntry {
    pub ulid: String,
    pub commit: String,
    pub content_id: String,
    pub envelope_path: String,
    /// Canonical envelope bytes in base64.
    pub canonical_json: String,
}

/// A `messages.read` response: the messages and the cursor for the next read.
#[derive(Debug, Clone, PartialEq, Eq)]
pub struct MessagesReadResponse {
    pub messages: Vec<MessagesReadEntry>,
    pub next_since: Option<String>,
}

/// `e` presents the record `r`.
pub open spec fn entry_of(e: MessagesReadEntry, r: MessageRecord) -> bool {
    &&& e.ulid@ == r.ulid@
    &&& e.commit@ == r.commit_id@
    &&& e.content_id@ == r.content_id@
    &&& e.envelope_path@ == r.envelope_path@
    &&& e.canonical_json@ == base64_of(r.canonical_envelope@)
}

/// The response to a read that returned `records`: one entry per record, in
/// order, and the ULID of the last record as the next cursor.
pub fn messages_read_response(records: &Vec<MessageRecord>) -> (r: MessagesReadResponse)
    ensures
        r.messages@.len() == records@.len(),
        forall|i: int| 0 <= i < records@.len() ==> entry_of(#[trigger] r.messages@[i], records@[i]),
        records@.len() == 0 ==> r.next_since is None,
        records@.len() > 0 ==> r.next_since is Some && r.next_since->Some_0@ == records@.last().ulid@,
{
    let mut messages: Vec<MessagesReadEntry> = Vec::new();
    let mut i: usize = 0;
    while i < records.len()
        invariant
            i <= records@.len(),
            messages@.len() == i,
            forall|j: int| 0 <= j < i ==> entry_of(#[trigger] messages@[j], records@[j]),
        decreases records@.len() - i,
    {
        let rec = &records[i];
        messages.push(
            MessagesReadEntry {
                ulid: rec.ulid.clone(),
                commit: rec.commit_id.clone(),
                content_id: rec.content_id.clone(),
                envelope_path: rec.envelope_path.clone(),
                canonical_json: base64_standard(rec.canonical_envelope.as_slice()),
            },
        );
        i = i + 1;
    }
    let n = records.len();
    let next_since = if n > 0 {
        Some(records[n - 1].ulid.clone())
    } else {
        None
    };
    MessagesReadResponse { messages, next_since }
}

/// The checkpoint a read persists: for a consumer group, the ULID and commit
/// of the last message returned; nothing without a group or without messages.
pub fn checkpoint_after_read(group: Option<&str>, response: &MessagesReadResponse) -> (r: Option<
    (String, String, String),
>)
    ensures
        r is Some <==> group is Some && response.messages@.len() > 0,
        r is Some ==> r->Some_0.0@ == group->Some_0@ && r->Some_0.1@ == response.messages@.last().ulid@
            && r->Some_0.2@ == response.messages@.last().commit@,
{
    match group {
        Some(g) => {
            let n = response.messages.len();
            if n == 0 {
                None
            } else {
                let last = &response.messages[n - 1];
                Some((String::from_str(g), last.ulid.clone(), last.commit.clone()))
            }
        },
        None => None,
    }
}

} // verus!
