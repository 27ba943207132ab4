//! Segment rotation: which segment a new message joins, and the metadata that
//! every message commit carries.
use vstd::prelude::*;

use chrono::{Datelike, Timelike};

use crate::ident::{concat3, is_topic_name};
use crate::text::str_eq;
use crate::topic::{segment_prefix_of, MessagePlaneError, SegmentTime, TopicRef};

verus! {

/// Default bound on the number of messages in one segment.
pub const DEFAULT_MAX_MESSAGES_PER_SEGMENT: u64 = 100_000;

/// Default bound on the approximate byte size of one segment (192 MiB).
pub const DEFAULT_MAX_BYTES_PER_SEGMENT: u64 = 192 * 1024 * 1024;

/// POSIX time of 9999-12-31 23:59:59 UTC.
pub const MAX_CALENDAR_EPOCH: i64 = 253_402_300_799;

/// The UTC calendar hour `(year, month, day, hour)` of a POSIX time, as chrono
/// computes it.
pub uninterp spec fn utc_hour_of(epoch: int) -> (int, int, int, int);

/// Relies on chrono's `DateTime::<Utc>::from_timestamp_secs` (`None` outside
/// chrono's range, whose dates span years -262143 to 262142, so every time
/// from the epoch to the end of year 9999 is in range) and on its calendar
/// accessors, whose documented ranges are 1..=12 for the month, 1..=31 for the
/// day and 0..=23 for the hour.
#[verifier::external_body]
fn utc_calendar_hour(epoch: i64) -> (r: Option<SegmentTime>)
    ensures
        0 <= epoch <= MAX_CALENDAR_EPOCH ==> r is Some,
        r is Some ==> utc_hour_of(epoch as int) == (
            r->Some_0.year as int,
            r->Some_0.month as int,
            r->Some_0.day as int,
            r->Some_0.hour as int,
        ),
        r is Some ==> 1 <= r->Some_0.month <= 12 && 1 <= r->Some_0.day <= 31 && r->Some_0.hour
            <= 23,
{
    match chrono::DateTime::<chrono::Utc>::from_timestamp_secs(epoch) {
        Some(dt) => Some(SegmentTime { year: dt.year(), month: dt.month(), day: dt.day(), hour: dt.hour() }),
        None => None,
    }
}

/// An instant in UTC: POSIX seconds together with the calendar hour they fall in.
#[derive(Debug, Clone, Copy, PartialEq, Eq)]
pub struct WallTime {
    /// Seconds since the Unix epoch.
    pub epoch: i64,
    /// The UTC calendar hour of `epoch`.
    pub hour: SegmentTime,
}

impl WallTime {
    /// The calendar hour agrees with the POSIX time.
    pub open spec fn wf(&self) -> bool {
        utc_hour_of(self.epoch as int) == (
            self.hour.year as int,
            self.hour.month as int,
            self.hour.day as int,
            self.hour.hour as int,
        )
    }

    /// The instant `epoch` seconds after the Unix epoch; `None` when the
    /// calendar cannot represent it.
    pub fn from_epoch(epoch: i64) -> (r: Option<WallTime>)
        ensures
            r is Some ==> r->Some_0.epoch == epoch && r->Some_0.wf(),
            0 <= epoch <= MAX_CALENDAR_EPOCH ==> r is Some,
    {
        match utc_calendar_hour(epoch) {
            Some(hour) => Some(WallTime { epoch, hour }),
            None => None,
        }
    }
}

/// Limits that close a segment.
#[derive(Debug, Clone, Copy, PartialEq, Eq)]
pub struct SegmentLimits {
    pub max_messages_per_segment: u64,
    pub max_bytes_per_segment: u64,
}

impl SegmentLimits {
    /// 100 000 messages and 192 MiB per segment.
    pub fn standard() -> (r: SegmentLimits)
        ensures
            r.max_messages_per_segment == DEFAULT_MAX_MESSAGES_PER_SEGMENT,
            r.max_bytes_per_segment == DEFAULT_MAX_BYTES_PER_SEGMENT,
    {
        SegmentLimits {
            max_messages_per_segment: DEFAULT_MAX_MESSAGES_PER_SEGMENT,
            max_bytes_per_segment: DEFAULT_MAX_BYTES_PER_SEGMENT,
        }
    }
}

impl Default for SegmentLimits {
    fn default() -> (r: SegmentLimits)
        ensures
            r.max_messages_per_segment == DEFAULT_MAX_MESSAGES_PER_SEGMENT,
            r.max_bytes_per_segment == DEFAULT_MAX_BYTES_PER_SEGMENT,
    {
        SegmentLimits::standard()
    }
}

/// Metadata of the segment a message commit belongs to, carried in the commit
/// under `meta/meta.json`.
#[derive(Debug, Clone, PartialEq, Eq)]
pub struct SegmentMeta {
    pub version: u32,
    pub segment_prefix: String,
    pub segment_ulid: String,
    pub started_at_epoch: i64,
    pub message_count: u64,
    pub approximate_bytes: u64,
}

/// A new segment must be started after `prev` for a message of `len` bytes
/// under `prefix`: the hour changed, the message count is reached, or the bytes
/// would exceed the bound.
pub open spec fn must_rotate(
    limits: SegmentLimits,
    prev: SegmentMeta,
    prefix: Seq<char>,
    len: int,
) -> bool {
    ||| prev.segment_prefix@ != prefix
    ||| prev.message_count >= limits.max_messages_per_segment
    ||| prev.approximate_bytes + len > limits.max_bytes_per_segment
}

/// `m` opens a segment under `prefix` with this first message.
pub open spec fn opens_segment(
    m: SegmentMeta,
    prefix: Seq<char>,
    ulid: Seq<char>,
    epoch: i64,
    len: int,
) -> bool {
    &&& m.version == 1
    &&& m.segment_prefix@ == prefix
    &&& m.segment_ulid@ == ulid
    &&& m.started_at_epoch == epoch
    &&& m.message_count == 1
    &&& m.approximate_bytes == len
}

/// `m` is `prev` with one more message of `len` bytes.
pub open spec fn extends_segment(m: SegmentMeta, prev: SegmentMeta, len: int) -> bool {
    &&& m.version == prev.version
    &&& m.segment_prefix@ == prev.segment_prefix@
    &&& m.segment_ulid@ == prev.segment_ulid@
    &&& m.started_at_epoch == prev.started_at_epoch
    &&& m.message_count == prev.message_count + 1
    &&& m.approximate_bytes == prev.approximate_bytes + len
}

/// `<segment_prefix>/<segment_ulid>`.
pub open spec fn segment_path_of(m: SegmentMeta) -> Seq<char> {
    m.segment_prefix@ + "/"@ + m.segment_ulid@
}

impl SegmentMeta {
    /// The metadata of a segment that starts with one message of `first_bytes`.
    pub fn new(
        segment_prefix: String,
        segment_ulid: String,
        started_at_epoch: i64,
        first_bytes: u64,
    ) -> (r: SegmentMeta)
        ensures
            opens_segment(r, segment_prefix@, segment_ulid@, started_at_epoch, first_bytes as int),
    {
        SegmentMeta {
            version: 1,
            segment_prefix,
            segment_ulid,
            started_at_epoch,
            message_count: 1,
            approximate_bytes: first_bytes,
        }
    }

    /// The segment's ref name below `refs/gatos/messages/`.
    pub fn segment_path(&self) -> (r: String)
        ensures
            r@ == segment_path_of(*self),
    {
        concat3(self.segment_prefix.as_str(), "/", self.segment_ulid.as_str())
    }
}

/// Whether a message of `payload_len` bytes under `new_prefix` must open a new
/// segment instead of joining `existing`.
pub fn should_rotate(
    limits: &SegmentLimits,
    existing: &SegmentMeta,
    new_prefix: &str,
    payload_len: u64,
) -> (r: bool)
    ensures
        r == must_rotate(*limits, *existing, new_prefix@, payload_len as int),
{
    if !str_eq(existing.segment_prefix.as_str(), new_prefix) {
        return true;
    }
    if existing.message_count >= limits.max_messages_per_segment {
        return true;
    }
    existing.approximate_bytes > limits.max_bytes_per_segment || payload_len
        > limits.max_bytes_per_segment - existing.approximate_bytes
}

/// The segment a message joins. The message has `payload_len` bytes and the
/// ULID `envelope_ulid`, is published at `now`, and follows a head whose segment
/// metadata is `previous` (if any). The flag is true when the previous segment
/// continues.
pub fn derive_segment_meta(
    limits: &SegmentLimits,
    topic: &TopicRef,
    now: &WallTime,
    payload_len: u64,
    previous: Option<&SegmentMeta>,
    envelope_ulid: &str,
) -> (r: Result<(SegmentMeta, bool), MessagePlaneError>)
    ensures
        r is Ok <==> is_topic_name(topic.name@),
        r is Err ==> r->Err_0 is InvalidTopic,
        r matches Ok((m, continuing)) ==> {
            let prefix = segment_prefix_of(topic.name@, now.hour);
            &&& continuing == (previous is Some && !must_rotate(
                *limits,
                *previous->Some_0,
                prefix,
                payload_len as int,
            ))
            &&& continuing ==> extends_segment(m, *previous->Some_0, payload_len as int)
            &&& !continuing ==> opens_segment(
                m,
                prefix,
                envelope_ulid@,
                now.epoch,
                payload_len as int,
            )
        },
{
    let prefix = topic.segment_prefix(&now.hour)?;
    if let Some(prev) = previous {
        if !should_rotate(limits, prev, prefix.as_str(), payload_len) {
            let updated = SegmentMeta {
                version: prev.version,
                segment_prefix: prev.segment_prefix.clone(),
                segment_ulid: prev.segment_ulid.clone(),
                started_at_epoch: prev.started_at_epoch,
                message_count: prev.message_count + 1,
                approximate_bytes: prev.approximate_bytes + payload_len,
            };
            return Ok((updated, true));
        }
    }
    Ok((SegmentMeta::new(prefix, String::from_str(envelope_ulid), now.epoch, payload_len), false))
}

} // verus!
