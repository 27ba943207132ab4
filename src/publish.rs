//! Publishing a message: the commit and ref updates that one publish performs,
//! planned from a snapshot of the topic head.
use vstd::prelude::*;

use crate::digest::content_id_of;
use crate::envelope::{message_commit_text, MessageEnvelope, PublishReceipt};
use crate::ident::{concat3, is_event_type, is_topic_name, is_ulid, is_valid_event_type};
use crate::segment::{
    derive_segment_meta, extends_segment, must_rotate, opens_segment, segment_path_of,
    SegmentLimits, SegmentMeta, WallTime,
};
use crate::topic::{head_ref_of, segment_prefix_of, validate_ulid_str, MessagePlaneError, TopicRef};

verus! {

/// The topic head as read before a publish: its commit and the segment
/// metadata stored in that commit, if it has any.
#[derive(Debug, Clone, PartialEq, Eq)]
pub struct HeadSnapshot {
    pub commit_id: String,
    pub meta: Option<SegmentMeta>,
}

/// Everything one publish writes.
#[derive(Debug, Clone, PartialEq, Eq)]
pub struct PublishPlan {
    /// Metadata of the segment the message joins (stored as `meta/meta.json`).
    pub meta: SegmentMeta,
    /// Whether the head's segment continues.
    pub continuing: bool,
    /// Parent of the new commit: the current head.
    pub parent: Option<String>,
    /// Message of the new commit.
    pub commit_message: String,
    /// Segment ref to move to the new commit.
    pub segment_ref: String,
    /// Value the segment ref must still hold (`None`: it must not exist yet).
    pub segment_expected: Option<String>,
    /// Head ref to move to the new commit.
    pub head_ref: String,
    /// Value the head ref must still hold (`None`: it must not exist yet).
    pub head_expected: Option<String>,
    /// Description recorded with the head update: the segment path.
    pub segment_path: String,
    /// Content id of the envelope.
    pub content_id: String,
    /// ULID of the envelope.
    pub ulid: String,
}

pub open spec fn head_id(head: Option<HeadSnapshot>) -> Option<Seq<char>> {
    match head {
        Some(h) => Some(h.commit_id@),
        None => None,
    }
}

pub open spec fn opt_seq(o: Option<String>) -> Option<Seq<char>> {
    match o {
        Some(s) => Some(s@),
        None => None,
    }
}

/// The segment metadata of the head, if there is a head and it carries one.
pub open spec fn head_meta(head: Option<HeadSnapshot>) -> Option<SegmentMeta> {
    match head {
        Some(h) => h.meta,
        None => None,
    }
}

/// `p` is the publish of `env` on `topic` at `now` after `head`.
pub open spec fn plans_publish(
    p: PublishPlan,
    limits: SegmentLimits,
    topic: TopicRef,
    env: MessageEnvelope,
    now: WallTime,
    head: Option<HeadSnapshot>,
) -> bool {
    let prefix = segment_prefix_of(topic.name@, now.hour);
    let prev = head_meta(head);
    let len = env.canonical_bytes@.len() as int;
    &&& p.continuing == (prev is Some && !must_rotate(limits, prev->Some_0, prefix, len))
    &&& p.continuing ==> extends_segment(p.meta, prev->Some_0, len)
    &&& !p.continuing ==> opens_segment(p.meta, prefix, env.ulid@, now.epoch, len)
    &&& opt_seq(p.parent) == head_id(head)
    &&& p.commit_message@ == message_commit_text(env)
    &&& p.segment_path@ == segment_path_of(p.meta)
    &&& p.segment_ref@ == "refs/gatos/messages/"@ + segment_path_of(p.meta)
    &&& opt_seq(p.segment_expected) == if p.continuing { head_id(head) } else { None }
    &&& p.head_ref@ == head_ref_of(topic.name@)
    &&& opt_seq(p.head_expected) == head_id(head)
    &&& p.content_id@ == content_id_of(env.canonical_bytes@)
    &&& p.ulid@ == env.ulid@
}

/// Plans the publish of `envelope` on `topic` at `now`, given the head read
/// just before. The topic name is checked first, then the envelope's ULID and
/// event type.
pub fn plan_publish(
    limits: &SegmentLimits,
    topic: &TopicRef,
    envelope: &MessageEnvelope,
    now: &WallTime,
    head: Option<HeadSnapshot>,
) -> (r: Result<PublishPlan, MessagePlaneError>)
    ensures
        r is Ok <==> is_topic_name(topic.name@) && is_ulid(envelope.ulid@) && is_event_type(
            envelope.event_type@,
        ),
        !is_topic_name(topic.name@) ==> r is Err && r->Err_0 is InvalidTopic,
        is_topic_name(topic.name@) && r is Err ==> r->Err_0 is InvalidEnvelope,
        r is Ok ==> plans_publish(r->Ok_0, *limits, *topic, *envelope, *now, head),
{
    let head_ref = topic.head_ref()?;
    validate_ulid_str(envelope.ulid.as_str())?;
    if !is_valid_event_type(envelope.event_type.as_str()) {
        return Err(MessagePlaneError::InvalidEnvelope(String::from_str("invalid event type")));
    }
    let payload_len = envelope.canonical_bytes.len() as u64;
    let (parent, prev_meta) = match head {
        Some(h) => (Some(h.commit_id), h.meta),
        None => (None, None),
    };
    let (meta, continuing) = match &prev_meta {
        Some(m) => derive_segment_meta(limits, topic, now, payload_len, Some(m), envelope.ulid.as_str())?,
        None => derive_segment_meta(limits, topic, now, payload_len, None, envelope.ulid.as_str())?,
    };
    let segment_path = meta.segment_path();
    let segment_ref = concat3("refs/gatos/messages/", segment_path.as_str(), "");
    proof {
        reveal_strlit("");
    }
    let segment_expected = if continuing {
        clone_opt(&parent)
    } else {
        None
    };
    let head_expected = clone_opt(&parent);
    Ok(PublishPlan {
        meta,
        continuing,
        parent,
        commit_message: envelope.commit_message(),
        segment_ref,
        segment_expected,
        head_ref,
        head_expected,
        segment_path,
        content_id: envelope.content_id(),
        ulid: envelope.ulid.clone(),
    })
}

fn clone_opt(o: &Option<String>) -> (r: Option<String>)
    ensures
        opt_seq(r) == opt_seq(*o),
{
    match o {
        Some(s) => Some(s.clone()),
        None => None,
    }
}

impl PublishPlan {
    /// The receipt of this publish once its commit `commit_id` is in place.
    pub fn receipt(&self, commit_id: String) -> (r: PublishReceipt)
        ensures
            r.commit_id@ == commit_id@,
            r.content_id@ == self.content_id@,
            r.ulid@ == self.ulid@,
    {
        PublishReceipt { commit_id, content_id: self.content_id.clone(), ulid: self.ulid.clone() }
    }
}

/// How a compare-and-swap of a ref ended.
#[derive(Debug, Clone, PartialEq, Eq)]
pub enum RefUpdate {
    /// The ref now points at the new commit.
    Updated,
    /// The ref no longer held the expected value (or was locked).
    Conflict,
    /// Another backend failure, with its message.
    Failed(String),
}

/// Number of attempts a publish makes before it reports a head conflict.
pub const PUBLISH_ATTEMPTS: u32 = 3;

/// What a publish does after the compare-and-swaps of one attempt.
#[derive(Debug)]
pub enum PublishStep {
    /// Both refs point at the new commit.
    Done(PublishReceipt),
    /// Read the head again and make another attempt.
    Retry,
    /// Stop with this error.
    Fail(MessagePlaneError),
}

/// The segment ref moved but the head did not: it must be moved back (to
/// `segment_expected`, or deleted when that is `None`) before the attempt
/// ends, so that a failed publish leaves no ref advanced.
pub fn must_undo_segment(segment: &RefUpdate, head: &Option<RefUpdate>) -> (r: bool)
    ensures
        r == (*segment is Updated && *head != Some(RefUpdate::Updated)),
{
    match segment {
        RefUpdate::Updated => match head {
            Some(RefUpdate::Updated) => false,
            _ => true,
        },
        _ => false,
    }
}

/// The step after attempt number `attempt` (from 1) of a publish of `plan`
/// whose new commit is `commit_id`: the segment ref's update ended with
/// `segment`, and the head's with `head` (`None` when it was not tried because
/// the segment update did not succeed). A lost compare-and-swap on either ref
/// is retried until the attempts are spent and then reported as a head
/// conflict; other failures are repository errors.
pub fn after_publish_cas(
    attempt: u32,
    plan: &PublishPlan,
    commit_id: String,
    segment: RefUpdate,
    head: Option<RefUpdate>,
) -> (r: PublishStep)
    ensures
        segment is Updated && head == Some(RefUpdate::Updated) ==> (r matches PublishStep::Done(rc)
            && rc.commit_id@ == commit_id@ && rc.content_id@ == plan.content_id@ && rc.ulid@
            == plan.ulid@),
        (segment is Conflict || (segment is Updated && head == Some(RefUpdate::Conflict))) ==> (
        attempt < PUBLISH_ATTEMPTS <==> r is Retry),
        (segment is Conflict || (segment is Updated && head == Some(RefUpdate::Conflict))) && attempt
            >= PUBLISH_ATTEMPTS ==> (r matches PublishStep::Fail(MessagePlaneError::HeadConflict)),
        segment is Failed ==> (r matches PublishStep::Fail(MessagePlaneError::Repo(e)) && e@
            == segment->Failed_0@),
        segment is Updated && head is Some && head->Some_0 is Failed ==> (r matches PublishStep::Fail(
            MessagePlaneError::Repo(e),
        ) && e@ == head->Some_0->Failed_0@),
        segment is Updated && head is None ==> (r matches PublishStep::Fail(MessagePlaneError::Repo(_))),
{
    let conflict = match segment {
        RefUpdate::Updated => match head {
            Some(RefUpdate::Updated) => {
                return PublishStep::Done(plan.receipt(commit_id));
            },
            Some(RefUpdate::Conflict) => true,
            Some(RefUpdate::Failed(m)) => {
                return PublishStep::Fail(MessagePlaneError::Repo(m));
            },
            None => {
                return PublishStep::Fail(MessagePlaneError::Repo(String::from_str("head update skipped")));
            },
        },
        RefUpdate::Conflict => true,
        RefUpdate::Failed(m) => {
            return PublishStep::Fail(MessagePlaneError::Repo(m));
        },
    };
    assert(conflict);
    if attempt < PUBLISH_ATTEMPTS {
        PublishStep::Retry
    } else {
        PublishStep::Fail(MessagePlaneError::HeadConflict)
    }
}

} // verus!
