//! Subscriber reads and consumer checkpoints: the page a read returns, and the
//! names and payloads of checkpoint refs.
use vstd::prelude::*;

use crate::envelope::{json_member, json_parse_bytes_of, json_text, member_text_of, parse_json_bytes, text_view, MessageEnvelope, MessageRecord, PublishReceipt};
use crate::ident::{concat3, is_group_name, is_topic_name, is_ulid};
use crate::text::{seq_lt, str_eq};
use crate::topic::{checkpoint_ref_name, checkpoint_ref_of, validate_ulid_str, MessagePlaneError, TopicRef, MAX_PAGE_SIZE};

verus! {

/// Publish side of the message plane, implemented over a concrete store.
pub trait MessagePublisher {
    /// Appends a message to `topic` and returns the commit and content ids.
    fn publish(&self, topic: &TopicRef, envelope: MessageEnvelope) -> Result<
        PublishReceipt,
        MessagePlaneError,
    >;
}

/// Read side of the message plane, implemented over a concrete store.
pub trait MessageSubscriber {
    /// Up to `limit` messages newer than `since_ulid`, oldest first.
    fn read(&self, topic: &TopicRef, since_ulid: Option<&str>, limit: usize) -> Result<
        Vec<MessageRecord>,
        MessagePlaneError,
    >;
}

/// Persistence of consumer checkpoints.
pub trait CheckpointStore {
    /// Records `ulid` and `commit` as the last message that `group` has seen on
    /// `topic`.
    fn persist_checkpoint(&self, group: &str, topic: &TopicRef, ulid: &str, commit: &str) -> Result<
        (),
        MessagePlaneError,
    >;
}

/// The last message that a consumer group acknowledged on a topic.
#[derive(Debug, Clone, PartialEq, Eq)]
pub struct ConsumerCheckpoint {
    pub group: String,
    pub topic: String,
    pub ulid: String,
    pub commit: Option<String>,
}

/// The page limit that a read with `limit` uses, or its error: a present
/// cursor must be a ULID, and the limit must be at least 1; limits above the
/// maximum page size are clamped.
pub fn validate_read_request(since_ulid: Option<&str>, limit: usize) -> (r: Result<
    usize,
    MessagePlaneError,
>)
    ensures
        r is Ok <==> (since_ulid is None || is_ulid(since_ulid->Some_0@)) && limit >= 1,
        r is Ok ==> r->Ok_0 == if limit < MAX_PAGE_SIZE { limit } else { MAX_PAGE_SIZE },
        r is Err && since_ulid is Some && !is_ulid(since_ulid->Some_0@) ==> r->Err_0 is InvalidEnvelope,
        r is Err && (since_ulid is None || is_ulid(since_ulid->Some_0@)) ==> r->Err_0 is InvalidLimit,
{
    if let Some(cursor) = since_ulid {
        validate_ulid_str(cursor)?;
    }
    if limit == 0 {
        return Err(MessagePlaneError::InvalidLimit);
    }
    Ok(if limit < MAX_PAGE_SIZE { limit } else { MAX_PAGE_SIZE })
}

/// `cut` is where a read with cursor `since` stops in the newest-first chain
/// `desc`: the first record whose ULID is the cursor, or the end of the chain
/// when there is no cursor or no such record.
pub open spec fn is_cut(desc: Seq<MessageRecord>, since: Option<Seq<char>>, cut: int) -> bool {
    &&& 0 <= cut <= desc.len()
    &&& match since {
        None => cut == desc.len(),
        Some(u) => {
            &&& forall|j: int| 0 <= j < cut ==> (#[trigger] desc[j]).ulid@ != u
            &&& cut < desc.len() ==> desc[cut].ulid@ == u
        },
    }
}

/// The page of the records before `cut`, oldest first, at most `limit` of them.
pub open spec fn page_of(desc: Seq<MessageRecord>, cut: int, limit: int) -> Seq<MessageRecord> {
    desc.subrange(0, cut).reverse().take(if limit < cut { limit } else { cut })
}

pub open spec fn opt_view(s: Option<&str>) -> Option<Seq<char>> {
    match s {
        Some(v) => Some(v@),
        None => None,
    }
}

/// The page that a subscriber read returns, given the topic's records walked
/// from the head to the root (`records_desc`, newest first): the records newer
/// than the cursor, oldest first, at most `limit` (clamped to the maximum page
/// size) of them.
pub fn select_page(records_desc: Vec<MessageRecord>, since_ulid: Option<&str>, limit: usize) -> (r:
    Result<Vec<MessageRecord>, MessagePlaneError>)
    ensures
        r is Ok <==> (since_ulid is None || is_ulid(since_ulid->Some_0@)) && limit >= 1,
        r is Err ==> r->Err_0 is InvalidEnvelope || r->Err_0 is InvalidLimit,
        r is Ok ==> exists|cut: int|
            is_cut(records_desc@, opt_view(since_ulid), cut) && r->Ok_0@ == page_of(
                records_desc@,
                cut,
                if limit < MAX_PAGE_SIZE { limit as int } else { MAX_PAGE_SIZE as int },
            ),
{
    let limit = validate_read_request(since_ulid, limit)?;
    let ghost desc = records_desc@;
    let mut records = records_desc;
    let n = records.len();
    let mut cut: usize = n;
    if let Some(cursor) = since_ulid {
        let mut i: usize = 0;
        while i < n && !str_eq(records[i].ulid.as_str(), cursor)
            invariant
                n == records@.len(),
                records@ == desc,
                i <= n,
                forall|j: int| 0 <= j < i ==> (#[trigger] desc[j]).ulid@ != cursor@,
            decreases n - i,
        {
            i = i + 1;
        }
        cut = i;
    }
    assert(is_cut(desc, opt_view(since_ulid), cut as int));
    records.truncate(cut);
    let ghost kept = records@;
    assert(kept == desc.subrange(0, cut as int));
    let take = if limit < cut { limit } else { cut };
    let mut out: Vec<MessageRecord> = Vec::new();
    while out.len() < take
        invariant
            take <= cut,
            kept.len() == cut,
            records@ == kept.subrange(0, cut - out@.len()),
            out@.len() <= take,
            forall|j: int| 0 <= j < out@.len() ==> out@[j] == kept[cut - 1 - j],
        decreases take - out@.len(),
    {
        let rec = records.pop().unwrap();
        out.push(rec);
    }
    assert(out@ =~= page_of(desc, cut as int, limit as int));
    Ok(out)
}

/// When publishers supplied increasing ULIDs, so that the chain walked from
/// the head has strictly decreasing ULIDs, every page a subscriber reads lists
/// strictly increasing ULIDs.
pub proof fn lemma_page_ascending(desc: Seq<MessageRecord>, cut: int, limit: int)
    requires
        0 <= cut <= desc.len(),
        0 <= limit,
        forall|a: int, b: int| 0 <= a < b < desc.len() ==> seq_lt(desc[b].ulid@, desc[a].ulid@),
    ensures
        forall|i: int, j: int|
            0 <= i < j < page_of(desc, cut, limit).len() ==> seq_lt(
                page_of(desc, cut, limit)[i].ulid@,
                page_of(desc, cut, limit)[j].ulid@,
            ),
{
    let page = page_of(desc, cut, limit);
    assert forall|i: int, j: int| 0 <= i < j < page.len() implies seq_lt(
        page[i].ulid@,
        page[j].ulid@,
    ) by {
        assert(page[i] == desc[cut - 1 - i]);
        assert(page[j] == desc[cut - 1 - j]);
    }
}

/// `refs/gatos/consumers/<group>/<topic>` with a group that holds no `/`.
pub open spec fn names_checkpoint(name: Seq<char>, group: Seq<char>, topic: Seq<char>) -> bool {
    &&& name == "refs/gatos/consumers/"@ + group + "/"@ + topic
    &&& forall|i: int| 0 <= i < group.len() ==> group[i] != '/'
}

/// The group named by a checkpoint ref of `topic`: `Some((group, topic))` when
/// `name` is `refs/gatos/consumers/<group>/<topic>` and the group holds no `/`.
pub fn checkpoint_ref_parts(name: &str, topic: &str) -> (r: Option<(String, String)>)
    ensures
        r is Some ==> names_checkpoint(name@, r->Some_0.0@, topic@) && r->Some_0.1@ == topic@,
        (exists|g: Seq<char>| names_checkpoint(name@, g, topic@)) ==> r is Some,
{
    let prefix = "refs/gatos/consumers/";
    proof {
        reveal_strlit("refs/gatos/consumers/");
        reveal_strlit("/");
    }
    let plen = prefix.unicode_len();
    let n = name.unicode_len();
    if n < plen || !str_eq(name.substring_char(0, plen), prefix) {
        proof {
            assert forall|g: Seq<char>| !names_checkpoint(name@, g, topic@) by {
                if names_checkpoint(name@, g, topic@) {
                    assert(name@.subrange(0, plen as int) =~= prefix@);
                }
            }
        }
        return None;
    }
    let mut k: usize = plen;
    while k < n && name.get_char(k) != '/'
        invariant
            plen <= k <= n,
            n == name@.len(),
            forall|j: int| plen <= j < k ==> name@[j] != '/',
        decreases n - k,
    {
        k = k + 1;
    }
    if k == n {
        proof {
            assert forall|g: Seq<char>| !names_checkpoint(name@, g, topic@) by {
                if names_checkpoint(name@, g, topic@) {
                    assert(name@[plen + g.len()] == '/');
                }
            }
        }
        return None;
    }
    let group = name.substring_char(plen, k);
    let rest = name.substring_char(k + 1, n);
    proof {
        assert forall|g: Seq<char>| names_checkpoint(name@, g, topic@) implies g == group@
            && rest@ == topic@ by {
            assert(name@[plen + g.len()] == '/');
            if g.len() < group@.len() {
                assert(name@[plen + g.len()] != '/');
            }
            if g.len() > group@.len() {
                assert(g[(k - plen) as int] == name@[k as int]);
            }
            assert(name@.subrange(0, plen as int) =~= prefix@);
            assert(forall|j: int| 0 <= j < g.len() ==> name@[plen + j] == #[trigger] g[j]);
            assert(g =~= name@.subrange(plen as int, k as int));
            assert(rest@ =~= topic@);
        }
    }
    if str_eq(rest, topic) {
        assert(name@.subrange(0, plen as int) =~= prefix@);
        assert(name@ =~= name@.subrange(0, plen as int) + name@.subrange(plen as int, k as int)
            + seq![name@[k as int]] + name@.subrange(k + 1, n as int));
        assert(name@ =~= prefix@ + group@ + "/"@ + topic@);
        Some((String::from_str(group), String::from_str(rest)))
    } else {
        None
    }
}

/// The JSON string literal (quoted and escaped) of `s`, as serde_json writes it.
pub uninterp spec fn json_string_of(s: Seq<char>) -> Seq<char>;

/// Relies on `serde_json::to_string` applied to a `str`: the JSON string
/// literal of the text (writing a string into memory does not fail).
#[verifier::external_body]
fn json_string_literal(s: &str) -> (r: String)
    ensures
        r@ == json_string_of(s@),
{
    match serde_json::to_string(s) {
        Ok(t) => t,
        Err(_) => String::new(),
    }
}

/// `{"ulid":<ulid>,"commit":<commit>}` with both values as JSON strings.
pub open spec fn checkpoint_json_of(ulid: Seq<char>, commit: Seq<char>) -> Seq<char> {
    "{\"ulid\":"@ + json_string_of(ulid) + ",\"commit\":"@ + json_string_of(commit) + "}"@
}

/// What a checkpoint write stores: the ref name and the JSON document of the
/// blob it points at. The ULID is checked first, then the group and topic.
pub fn checkpoint_record(group: &str, topic: &TopicRef, ulid: &str, commit: &str) -> (r: Result<
    (String, String),
    MessagePlaneError,
>)
    ensures
        r is Ok <==> is_ulid(ulid@) && is_group_name(group@) && is_topic_name(topic.name@),
        !is_ulid(ulid@) ==> r is Err && r->Err_0 is InvalidEnvelope,
        is_ulid(ulid@) && r is Err ==> r->Err_0 is InvalidTopic,
        r matches Ok((refname, doc)) ==> refname@ == checkpoint_ref_of(group@, topic.name@)
            && doc@ == checkpoint_json_of(ulid@, commit@),
{
    validate_ulid_str(ulid)?;
    let refname = checkpoint_ref_name(group, topic)?;
    let u = json_string_literal(ulid);
    let c = json_string_literal(commit);
    let head = concat3("{\"ulid\":", u.as_str(), ",\"commit\":");
    let doc = concat3(head.as_str(), c.as_str(), "}");
    assert(doc@ =~= checkpoint_json_of(ulid@, commit@));
    Ok((refname, doc))
}

/// `r` is the checkpoint of `group` on `topic` whose stored document has the
/// `ulid` and `commit` member texts given (`None` when absent or not a string):
/// a missing ULID is a checkpoint error, an invalid one an invalid envelope.
pub open spec fn checkpoint_from_texts(
    group: Seq<char>,
    topic: Seq<char>,
    ulid: Option<Seq<char>>,
    commit: Option<Seq<char>>,
    r: Result<ConsumerCheckpoint, MessagePlaneError>,
) -> bool {
    match ulid {
        None => r is Err && r->Err_0 is Checkpoint,
        Some(u) => if is_ulid(u) {
            r is Ok && r->Ok_0.group@ == group && r->Ok_0.topic@ == topic && r->Ok_0.ulid@ == u
                && text_view(r->Ok_0.commit) == commit
        } else {
            r is Err && r->Err_0 is InvalidEnvelope
        },
    }
}

/// The checkpoint of `group` on `topic` whose stored document has the `ulid`
/// and `commit` members given (`None` when absent or not a string).
pub fn checkpoint_from_fields(
    group: String,
    topic: String,
    ulid: Option<String>,
    commit: Option<String>,
) -> (r: Result<ConsumerCheckpoint, MessagePlaneError>)
    ensures
        checkpoint_from_texts(group@, topic@, text_view(ulid), text_view(commit), r),
{
    match ulid {
        None => Err(MessagePlaneError::Checkpoint(String::from_str("missing field `ulid`"))),
        Some(u) => {
            validate_ulid_str(u.as_str())?;
            Ok(ConsumerCheckpoint { group, topic, ulid: u, commit })
        },
    }
}

/// Reads a checkpoint document stored for `group` on `topic`; bytes that do
/// not parse are a checkpoint error.
pub fn checkpoint_from_payload(group: String, topic: String, payload: &[u8]) -> (r: Result<
    ConsumerCheckpoint,
    MessagePlaneError,
>)
    ensures
        match json_parse_bytes_of(payload@) {
            None => r is Err && r->Err_0 is Checkpoint,
            Some(doc) => checkpoint_from_texts(
                group@,
                topic@,
                member_text_of(doc, "ulid"@),
                member_text_of(doc, "commit"@),
                r,
            ),
        },
{
    match parse_json_bytes(payload) {
        Ok(doc) => {
            let ulid = match json_member(&doc, "ulid") {
                Some(v) => json_text(v),
                None => None,
            };
            let commit = match json_member(&doc, "commit") {
                Some(v) => json_text(v),
                None => None,
            };
            checkpoint_from_fields(group, topic, ulid, commit)
        },
        Err(e) => Err(MessagePlaneError::Checkpoint(e)),
    }
}

} // verus!
