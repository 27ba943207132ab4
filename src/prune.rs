//! Segment pruning: which segment refs of a topic may be deleted.
use vstd::prelude::*;

use crate::ident::{concat3, is_topic_name};
use crate::segment::SegmentMeta;
use crate::subscriber::ConsumerCheckpoint;
use crate::text::{seq_lt, str_eq, str_lt};
use crate::topic::{MessagePlaneError, TopicRef};

verus! {

/// A segment ref of a topic, with what its commit holds: the segment metadata
/// (`None` when the commit has none) and the ULID of its envelope, which is the
/// last ULID of the segment (or the error met reading it).
#[derive(Debug)]
pub struct SegmentInfo {
    pub ref_name: String,
    pub meta: Option<SegmentMeta>,
    pub last_ulid: Result<String, MessagePlaneError>,
}

/// A checkpoint on `topic` that has not reached the ULID `last`.
pub open spec fn blocks(cp: ConsumerCheckpoint, topic: Seq<char>, last: Seq<char>) -> bool {
    cp.topic@ == topic && seq_lt(cp.ulid@, last)
}

/// The segment is at least `retention` seconds old at `now`.
pub open spec fn expired(meta: SegmentMeta, now: i64, retention: i64) -> bool {
    now - meta.started_at_epoch >= retention
}

/// No checkpoint of `topic` lags behind `last`.
pub open spec fn all_past(cps: Seq<ConsumerCheckpoint>, topic: Seq<char>, last: Seq<char>) -> bool {
    forall|i: int| 0 <= i < cps.len() ==> !blocks(#[trigger] cps[i], topic, last)
}

/// The segment's ULID has to be read to decide on it: it is a segment ref of
/// `topic`, carries metadata, and is old enough.
pub open spec fn needs_ulid(s: SegmentInfo, topic: Seq<char>, now: i64, retention: i64) -> bool {
    is_segment_ref(s.ref_name@, topic) && s.meta is Some && expired(s.meta->Some_0, now, retention)
}

/// The segment may be deleted.
pub open spec fn prunable(
    s: SegmentInfo,
    topic: Seq<char>,
    now: i64,
    retention: i64,
    cps: Seq<ConsumerCheckpoint>,
) -> bool {
    &&& needs_ulid(s, topic, now, retention)
    &&& s.last_ulid is Ok
    &&& all_past(cps, topic, s.last_ulid->Ok_0@)
}

/// Names of the prunable segments among `segs`, in order.
pub open spec fn prunable_names(
    segs: Seq<SegmentInfo>,
    topic: Seq<char>,
    now: i64,
    retention: i64,
    cps: Seq<ConsumerCheckpoint>,
) -> Seq<Seq<char>>
    decreases segs.len(),
{
    if segs.len() == 0 {
        Seq::empty()
    } else {
        let prev = prunable_names(segs.drop_last(), topic, now, retention, cps);
        if prunable(segs.last(), topic, now, retention, cps) {
            prev.push(segs.last().ref_name@)
        } else {
            prev
        }
    }
}

/// `name` is a segment ref of `topic`: below `refs/gatos/messages/<topic>/`,
/// and not the head ref.
pub open spec fn is_segment_ref(name: Seq<char>, topic: Seq<char>) -> bool {
    let prefix = "refs/gatos/messages/"@ + topic + "/"@;
    &&& name.len() >= prefix.len()
    &&& name.subrange(0, prefix.len() as int) == prefix
    &&& !(name.len() >= 5 && name.subrange(name.len() - 5, name.len() as int) == "/head"@)
}

/// Whether `name` is a segment ref of the topic named `topic`.
pub fn segment_ref_of(name: &str, topic: &str) -> (r: bool)
    ensures
        r == is_segment_ref(name@, topic@),
{
    let prefix = concat3("refs/gatos/messages/", topic, "/");
    let pl = prefix.as_str().unicode_len();
    let n = name.unicode_len();
    if n < pl || !str_eq(name.substring_char(0, pl), prefix.as_str()) {
        return false;
    }
    proof {
        reveal_strlit("/head");
    }
    !(n >= 5 && str_eq(name.substring_char(n - 5, n), "/head"))
}

fn lags(cps: &Vec<ConsumerCheckpoint>, topic: &str, last: &str) -> (r: bool)
    ensures
        r == !all_past(cps@, topic@, last@),
{
    let mut i: usize = 0;
    while i < cps.len()
        invariant
            i <= cps@.len(),
            forall|j: int| 0 <= j < i ==> !blocks(#[trigger] cps@[j], topic@, last@),
        decreases cps@.len() - i,
    {
        if str_eq(cps[i].topic.as_str(), topic) && str_lt(cps[i].ulid.as_str(), last) {
            return true;
        }
        i = i + 1;
    }
    false
}

/// The segment refs that may be deleted, in the order given: segment refs of
/// the topic (other names are ignored) that carry metadata, are at least `retention_secs` old at `now_epoch`, and whose
/// last ULID no checkpoint of the topic lags behind. Fails on an invalid topic
/// name, or with the error met reading the ULID of a segment that needed it.
pub fn find_prunable_segments(
    topic: &TopicRef,
    now_epoch: i64,
    retention_secs: i64,
    checkpoints: &Vec<ConsumerCheckpoint>,
    segments: Vec<SegmentInfo>,
) -> (r: Result<Vec<String>, MessagePlaneError>)
    ensures
        !is_topic_name(topic.name@) ==> r is Err && r->Err_0 is InvalidTopic,
        r is Ok <==> is_topic_name(topic.name@) && forall|i: int|
            0 <= i < segments@.len() ==> !(needs_ulid(#[trigger] segments@[i], topic.name@, now_epoch, retention_secs)
                && segments@[i].last_ulid is Err),
        r is Ok ==> r->Ok_0@.map_values(|s: String| s@) == prunable_names(
            segments@,
            topic.name@,
            now_epoch,
            retention_secs,
            checkpoints@,
        ),
{
    let topic_name = topic.sanitized_name()?;
    let mut out: Vec<String> = Vec::new();
    let mut i: usize = 0;
    while i < segments.len()
        invariant
            i <= segments@.len(),
            topic_name@ == topic.name@,
            is_topic_name(topic.name@),
            forall|j: int| 0 <= j < i ==> !(needs_ulid(#[trigger] segments@[j], topic.name@, now_epoch, retention_secs)
                && segments@[j].last_ulid is Err),
            out@.map_values(|s: String| s@) == prunable_names(
                segments@.subrange(0, i as int),
                topic.name@,
                now_epoch,
                retention_secs,
                checkpoints@,
            ),
        decreases segments@.len() - i,
    {
        let seg = &segments[i];
        assert(segments@.subrange(0, i + 1).drop_last() =~= segments@.subrange(0, i as int));
        let is_segment = segment_ref_of(seg.ref_name.as_str(), topic_name.as_str());
        if !is_segment {
        } else if let Some(meta) = &seg.meta {
            let age = (now_epoch as i128) - (meta.started_at_epoch as i128);
            if age >= retention_secs as i128 {
                match &seg.last_ulid {
                    Err(e) => {
                        return Err(e.clone());
                    },
                    Ok(last) => {
                        if !lags(checkpoints, topic_name.as_str(), last.as_str()) {
                            out.push(seg.ref_name.clone());
                        }
                    },
                }
            }
        }
        assert(out@.map_values(|s: String| s@) =~= prunable_names(
            segments@.subrange(0, i + 1),
            topic.name@,
            now_epoch,
            retention_secs,
            checkpoints@,
        ));
        i = i + 1;
    }
    assert(segments@.subrange(0, segments@.len() as int) =~= segments@);
    Ok(out)
}

/// No segment is pruned while a checkpoint of its topic has a ULID below the
/// segment's last ULID: every name in the prunable list is a segment ref of the
/// topic whose segment is old enough and that every checkpoint of the topic has passed.
pub proof fn lemma_prune_respects_checkpoints(
    segs: Seq<SegmentInfo>,
    topic: Seq<char>,
    now: i64,
    retention: i64,
    cps: Seq<ConsumerCheckpoint>,
    k: int,
)
    requires
        0 <= k < prunable_names(segs, topic, now, retention, cps).len(),
    ensures
        exists|i: int|
            0 <= i < segs.len() && (#[trigger] segs[i]).ref_name@ == prunable_names(
                segs,
                topic,
                now,
                retention,
                cps,
            )[k] && is_segment_ref(segs[i].ref_name@, topic) && segs[i].meta is Some && expired(segs[i].meta->Some_0, now, retention)
                && segs[i].last_ulid is Ok && forall|c: int|
                0 <= c < cps.len() ==> !(cps[c].topic@ == topic && seq_lt(
                    cps[c].ulid@,
                    segs[i].last_ulid->Ok_0@,
                )),
    decreases segs.len(),
{
    let prev = prunable_names(segs.drop_last(), topic, now, retention, cps);
    if k < prev.len() {
        lemma_prune_respects_checkpoints(segs.drop_last(), topic, now, retention, cps, k);
        let i = choose|i: int|
            0 <= i < segs.drop_last().len() && (#[trigger] segs.drop_last()[i]).ref_name@ == prev[k]
                && is_segment_ref(segs.drop_last()[i].ref_name@, topic)
                && segs.drop_last()[i].meta is Some && expired(
                segs.drop_last()[i].meta->Some_0,
                now,
                retention,
            ) && segs.drop_last()[i].last_ulid is Ok && forall|c: int|
                0 <= c < cps.len() ==> !(cps[c].topic@ == topic && seq_lt(
                    cps[c].ulid@,
                    segs.drop_last()[i].last_ulid->Ok_0@,
                ));
        assert(segs[i] == segs.drop_last()[i]);
    } else {
        let i = segs.len() - 1;
        assert(segs[i] == segs.last());
        assert forall|c: int| 0 <= c < cps.len() implies !(cps[c].topic@ == topic && seq_lt(
            cps[c].ulid@,
            segs[i].last_ulid->Ok_0@,
        )) by {
            assert(!blocks(cps[c], topic, segs.last().last_ulid->Ok_0@));
        }
    }
}

} // verus!
