//! Topics, errors and ref names of the message plane.
use vstd::prelude::*;

use crate::ident::{
    concat3, is_group_name, is_topic_name, is_ulid, is_valid_group_name, is_valid_topic_name,
    is_valid_ulid,
};
use crate::text::{padded_int, push_char, push_padded, push_padded_int, zero_padded, decimal};

verus! {

/// Maximum page size enforced by subscriber reads.
pub const MAX_PAGE_SIZE: usize = 512;

/// Errors encountered during publish and subscribe workflows.
#[derive(Debug, Clone, PartialEq, Eq)]
pub enum MessagePlaneError {
    /// Repository I/O or backend failure.
    Repo(String),
    /// The requested topic ref was not found.
    TopicNotFound,
    /// The envelope failed validation.
    InvalidEnvelope(String),
    /// A compare-and-swap on a topic ref failed.
    HeadConflict,
    /// A consumer checkpoint could not be stored or read.
    Checkpoint(String),
    /// The caller supplied an invalid range or limit.
    InvalidLimit,
    /// A topic or group name used characters outside the allowed set.
    InvalidTopic(String),
}

/// The text that describes an error.
pub open spec fn error_text(e: MessagePlaneError) -> Seq<char> {
    match e {
        MessagePlaneError::Repo(m) => "repository error: "@ + m@,
        MessagePlaneError::TopicNotFound => "topic not found"@,
        MessagePlaneError::InvalidEnvelope(m) => "invalid envelope: "@ + m@,
        MessagePlaneError::HeadConflict => "topic head moved while publishing"@,
        MessagePlaneError::Checkpoint(m) => "checkpoint error: "@ + m@,
        MessagePlaneError::InvalidLimit => "invalid range/limit"@,
        MessagePlaneError::InvalidTopic(m) => "invalid topic name: "@ + m@,
    }
}

fn prefixed(prefix: &str, detail: &String) -> (r: String)
    ensures
        r@ == prefix@ + detail@,
{
    let mut r = String::from_str(prefix);
    r.append(detail.as_str());
    r
}

impl MessagePlaneError {
    /// Human-readable description of the error.
    pub fn describe(&self) -> (r: String)
        ensures
            r@ == error_text(*self),
    {
        match self {
            MessagePlaneError::Repo(e) => prefixed("repository error: ", e),
            MessagePlaneError::TopicNotFound => String::from_str("topic not found"),
            MessagePlaneError::InvalidEnvelope(e) => prefixed("invalid envelope: ", e),
            MessagePlaneError::HeadConflict => String::from_str("topic head moved while publishing"),
            MessagePlaneError::Checkpoint(e) => prefixed("checkpoint error: ", e),
            MessagePlaneError::InvalidLimit => String::from_str("invalid range/limit"),
            MessagePlaneError::InvalidTopic(t) => prefixed("invalid topic name: ", t),
        }
    }
}

/// Greeting kept for callers that probe that the library is linked.
pub fn hello_message_plane() -> (r: &'static str)
    ensures
        r@ == "Hello from gatos-message-plane!"@,
{
    "Hello from gatos-message-plane!"
}

/// Checks that `input` is a ULID; any other string is an invalid envelope.
pub fn validate_ulid_str(input: &str) -> (r: Result<(), MessagePlaneError>)
    ensures
        r is Ok <==> is_ulid(input@),
        r is Err ==> r->Err_0 is InvalidEnvelope,
{
    if is_valid_ulid(input) {
        Ok(())
    } else {
        Err(
            MessagePlaneError::InvalidEnvelope(
                String::from_str("ulid must be 26 characters of uppercase Crockford base32"),
            ),
        )
    }
}

/// Returns the topic name unchanged when it is valid.
pub fn sanitize_topic(input: &str) -> (r: Result<String, MessagePlaneError>)
    ensures
        r is Ok <==> is_topic_name(input@),
        r is Ok ==> r->Ok_0@ == input@,
        r is Err ==> r->Err_0 is InvalidTopic,
{
    if input.unicode_len() == 0 {
        Err(MessagePlaneError::InvalidTopic(String::from_str("empty")))
    } else if is_valid_topic_name(input) {
        Ok(String::from_str(input))
    } else {
        Err(MessagePlaneError::InvalidTopic(String::from_str(input)))
    }
}

/// Returns a consumer-group name unchanged when it is valid.
pub fn sanitize_identifier(input: &str) -> (r: Result<String, MessagePlaneError>)
    ensures
        r is Ok <==> is_group_name(input@),
        r is Ok ==> r->Ok_0@ == input@,
        r is Err ==> r->Err_0 is InvalidTopic,
{
    if is_valid_group_name(input) {
        Ok(String::from_str(input))
    } else {
        Err(MessagePlaneError::InvalidTopic(String::from_str(input)))
    }
}

/// Canonical reference to a message topic.
#[derive(Debug, Clone, PartialEq, Eq)]
pub struct TopicRef {
    /// Path of the repository that holds the topic's refs.
    pub repo: String,
    /// Logical topic name (`governance`, `jobs/pending`).
    pub name: String,
}

/// Calendar hour (UTC) that selects a segment.
#[derive(Debug, Clone, Copy, PartialEq, Eq)]
pub struct SegmentTime {
    pub year: i32,
    pub month: u32,
    pub day: u32,
    pub hour: u32,
}

/// `refs/gatos/messages/<topic>/head`.
pub open spec fn head_ref_of(topic: Seq<char>) -> Seq<char> {
    "refs/gatos/messages/"@ + topic + "/head"@
}

/// `<topic>/YYYY/MM/DD/HH`.
pub open spec fn segment_prefix_of(topic: Seq<char>, t: SegmentTime) -> Seq<char> {
    topic + "/"@ + padded_int(t.year as int, 4) + "/"@ + zero_padded(decimal(t.month as nat), 2)
        + "/"@ + zero_padded(decimal(t.day as nat), 2) + "/"@ + zero_padded(
        decimal(t.hour as nat),
        2,
    )
}

/// `refs/gatos/consumers/<group>/<topic>`.
pub open spec fn checkpoint_ref_of(group: Seq<char>, topic: Seq<char>) -> Seq<char> {
    "refs/gatos/consumers/"@ + group + "/"@ + topic
}

impl TopicRef {
    /// A topic named `name` in the repository at `repo`.
    pub fn new(repo: &str, name: &str) -> (r: TopicRef)
        ensures
            r.repo@ == repo@,
            r.name@ == name@,
    {
        TopicRef { repo: String::from_str(repo), name: String::from_str(name) }
    }

    /// The validated topic name.
    pub fn sanitized_name(&self) -> (r: Result<String, MessagePlaneError>)
        ensures
            r is Ok <==> is_topic_name(self.name@),
            r is Ok ==> r->Ok_0@ == self.name@,
            r is Err ==> r->Err_0 is InvalidTopic,
    {
        sanitize_topic(self.name.as_str())
    }

    /// The ref that points at the newest commit of the topic.
    pub fn head_ref(&self) -> (r: Result<String, MessagePlaneError>)
        ensures
            r is Ok <==> is_topic_name(self.name@),
            r is Ok ==> r->Ok_0@ == head_ref_of(self.name@),
            r is Err ==> r->Err_0 is InvalidTopic,
    {
        let name = self.sanitized_name()?;
        Ok(concat3("refs/gatos/messages/", name.as_str(), "/head"))
    }

    /// The segment prefix of this topic for the hour `ts`.
    pub fn segment_prefix(&self, ts: &SegmentTime) -> (r: Result<String, MessagePlaneError>)
        ensures
            r is Ok <==> is_topic_name(self.name@),
            r is Ok ==> r->Ok_0@ == segment_prefix_of(self.name@, *ts),
            r is Err ==> r->Err_0 is InvalidTopic,
    {
        let mut out = self.sanitized_name()?;
        push_char(&mut out, '/');
        push_padded_int(&mut out, ts.year as i64, 4);
        push_char(&mut out, '/');
        push_padded(&mut out, ts.month as u64, 2);
        push_char(&mut out, '/');
        push_padded(&mut out, ts.day as u64, 2);
        push_char(&mut out, '/');
        push_padded(&mut out, ts.hour as u64, 2);
        proof {
            reveal_strlit("/");
        }
        assert(out@ =~= segment_prefix_of(self.name@, *ts));
        Ok(out)
    }
}

/// The ref that holds the checkpoint of `group` on `topic`.
pub fn checkpoint_ref_name(group: &str, topic: &TopicRef) -> (r: Result<String, MessagePlaneError>)
    ensures
        r is Ok <==> is_group_name(group@) && is_topic_name(topic.name@),
        r is Ok ==> r->Ok_0@ == checkpoint_ref_of(group@, topic.name@),
        r is Err ==> r->Err_0 is InvalidTopic,
{
    let g = sanitize_identifier(group)?;
    let t = topic.sanitized_name()?;
    let head = concat3("refs/gatos/consumers/", g.as_str(), "/");
    let r = concat3(head.as_str(), t.as_str(), "");
    proof {
        reveal_strlit("");
    }
    assert(r@ =~= checkpoint_ref_of(group@, topic.name@));
    Ok(r)
}

} // verus!
