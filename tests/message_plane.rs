use gatos::digest::blake3_content_id;
use gatos::envelope::{read_message_record, MessageEnvelope, MessageRecord};
use gatos::prune::{find_prunable_segments, segment_ref_of, SegmentInfo};
use gatos::publish::{after_publish_cas, must_undo_segment, plan_publish, HeadSnapshot, PublishPlan, PublishStep, RefUpdate};
use gatos::segment::{should_rotate, SegmentLimits, SegmentMeta, WallTime};
use gatos::subscriber::{
    checkpoint_from_payload, checkpoint_record, checkpoint_ref_parts, select_page,
    validate_read_request, ConsumerCheckpoint,
};
use gatos::topic::{
    checkpoint_ref_name, hello_message_plane, sanitize_identifier, sanitize_topic, validate_ulid_str,
    MessagePlaneError, SegmentTime, TopicRef, MAX_PAGE_SIZE,
};

const GOOD_ULID: &str = "01ARZ3NDEKTSV4RRFFQ69G5FAV";

fn json(text: &str) -> serde_json::Value {
    serde_json::from_str(text).unwrap()
}

fn epoch(year: i32, month: u32, day: u32, hour: u32) -> i64 {
    chrono::NaiveDate::from_ymd_opt(year, month, day)
        .unwrap()
        .and_hms_opt(hour, 0, 0)
        .unwrap()
        .and_utc()
        .timestamp()
}

fn at(year: i32, month: u32, day: u32, hour: u32) -> WallTime {
    WallTime::from_epoch(epoch(year, month, day, hour)).unwrap()
}

fn make_envelope(ulid: &str) -> MessageEnvelope {
    let raw = format!(
        "{{\"ulid\":\"{}\",\"ns\":\"tests\",\"type\":\"demo\",\"payload\":{{}}}}",
        ulid
    );
    MessageEnvelope::from_json_str(&raw).expect("valid envelope")
}

fn topic() -> TopicRef {
    TopicRef::new("repo", "jobs/pending")
}

/// Publishes in memory: each plan's commit gets id `c<n>` and becomes the head.
fn publish_all(
    limits: &SegmentLimits,
    times: &[WallTime],
    ulids: &[&str],
) -> Vec<PublishPlan> {
    let mut head: Option<HeadSnapshot> = None;
    let mut plans = Vec::new();
    for (i, (t, u)) in times.iter().zip(ulids.iter()).enumerate() {
        let plan = plan_publish(limits, &topic(), &make_envelope(u), t, head.clone()).unwrap();
        head = Some(HeadSnapshot { commit_id: format!("c{}", i + 1), meta: Some(plan.meta.clone()) });
        plans.push(plan);
    }
    plans
}

#[test]
fn errors_describe_themselves() {
    assert_eq!(MessagePlaneError::TopicNotFound.describe(), "topic not found");
    assert_eq!(MessagePlaneError::Repo("x".into()).describe(), "repository error: x");
    assert_eq!(MessagePlaneError::InvalidTopic("a//b".into()).describe(), "invalid topic name: a//b");
}

#[test]
fn hello_message_plane_greets() {
    assert_eq!(hello_message_plane(), "Hello from gatos-message-plane!");
}

#[test]
fn ulid_validation_accepts_uppercase_crockford() {
    assert!(validate_ulid_str(GOOD_ULID).is_ok());
}

#[test]
fn ulid_validation_rejects_bad_values() {
    assert!(matches!(validate_ulid_str("short"), Err(MessagePlaneError::InvalidEnvelope(_))));
    assert!(matches!(
        validate_ulid_str("01HAF6zzzzzzzzzzzzzzzzzzz"),
        Err(MessagePlaneError::InvalidEnvelope(_))
    ));
}

#[test]
fn envelope_canonicalization_sorts_keys() {
    let envelope_json = json(
        "{\"payload\": {\"b\": 1, \"a\": 2}, \"type\": \"demo\", \"ns\": \"tests\", \"ulid\": \"01ARZ3NDEKTSV4RRFFQ69G5FAV\", \"refs\": {\"x\": \"blake3:1234\"}}",
    );
    let envelope = MessageEnvelope::from_value(envelope_json).expect("valid envelope");
    let canonical_str = String::from_utf8(envelope.canonical_bytes.clone()).unwrap();
    assert!(canonical_str.find("\"ns\"") < canonical_str.find("\"payload\""));
    assert_eq!(envelope.content_id(), envelope.content_id(), "content id should be deterministic");
    assert_eq!(
        canonical_str,
        "{\"ns\":\"tests\",\"payload\":{\"a\":2,\"b\":1},\"refs\":{\"x\":\"blake3:1234\"},\"type\":\"demo\",\"ulid\":\"01ARZ3NDEKTSV4RRFFQ69G5FAV\"}"
    );
}

#[test]
fn envelope_requires_payload() {
    let broken = json("{\"type\": \"demo\", \"ns\": \"tests\", \"ulid\": \"01ARZ3NDEKTSV4RRFFQ69G5FAV\"}");
    assert!(matches!(MessageEnvelope::from_value(broken), Err(MessagePlaneError::InvalidEnvelope(_))));
}

#[test]
fn envelope_errors_for_each_missing_member() {
    for raw in [
        "{\"ns\":\"t\",\"type\":\"d\",\"payload\":1}",
        "{\"ulid\":\"01ARZ3NDEKTSV4RRFFQ69G5FAV\",\"type\":\"d\",\"payload\":1}",
        "{\"ulid\":\"01ARZ3NDEKTSV4RRFFQ69G5FAV\",\"ns\":\"t\",\"payload\":1}",
        "{\"ulid\":\"bad\",\"ns\":\"t\",\"type\":\"d\",\"payload\":1}",
        "not json",
    ] {
        assert!(matches!(MessageEnvelope::from_json_str(raw), Err(MessagePlaneError::InvalidEnvelope(_))));
    }
}

#[test]
fn canonicalization_is_idempotent() {
    let env = make_envelope(GOOD_ULID);
    let again = MessageEnvelope::from_json_str(std::str::from_utf8(&env.canonical_bytes).unwrap()).unwrap();
    assert_eq!(again.canonical_bytes, env.canonical_bytes);
    assert_eq!(again.content_id(), env.content_id());
}

#[test]
fn content_id_is_blake3_hex_of_canonical_bytes() {
    let env = make_envelope(GOOD_ULID);
    let digest = blake3::hash(&env.canonical_bytes);
    assert_eq!(env.content_id(), format!("blake3:{}", digest.to_hex()));
}

#[test]
fn commit_message_carries_ulid_and_content_id() {
    let env = make_envelope(GOOD_ULID);
    assert_eq!(
        env.commit_message(),
        format!("demo\n\nEvent-Id: ulid:{}\nContent-Id: {}\n", GOOD_ULID, env.content_id())
    );
}

#[test]
fn sanitize_topic_checks_segments() {
    assert_eq!(sanitize_topic("jobs/pending").unwrap(), "jobs/pending");
    assert!(sanitize_topic("../evil").is_err());
    assert!(sanitize_topic("foo//bar").is_err());
    assert!(sanitize_topic("bad*segment").is_err());
    assert!(matches!(sanitize_topic(""), Err(MessagePlaneError::InvalidTopic(_))));
    assert!(sanitize_topic("/lead").is_err());
    assert!(sanitize_topic("trail/").is_err());
    assert!(sanitize_topic("a/./b").is_err());
    assert!(sanitize_identifier("workers").is_ok());
    assert!(sanitize_identifier("bad group").is_err());
}

#[test]
fn topic_refs_are_formatted() {
    let t = topic();
    assert_eq!(t.head_ref().unwrap(), "refs/gatos/messages/jobs/pending/head");
    let ts = SegmentTime { year: 2025, month: 1, day: 2, hour: 3 };
    assert_eq!(t.segment_prefix(&ts).unwrap(), "jobs/pending/2025/01/02/03");
    let odd = SegmentTime { year: -5, month: 12, day: 31, hour: 23 };
    assert_eq!(t.segment_prefix(&odd).unwrap(), format!("jobs/pending/{:04}/12/31/23", -5));
    assert_eq!(
        checkpoint_ref_name("workers", &t).unwrap(),
        "refs/gatos/consumers/workers/jobs/pending"
    );
    assert!(TopicRef::new("repo", "../x").head_ref().is_err());
}

#[test]
fn wall_time_reads_the_utc_hour() {
    let t = at(2025, 11, 20, 13);
    assert_eq!(t.hour, SegmentTime { year: 2025, month: 11, day: 20, hour: 13 });
    assert_eq!(t.epoch, 1_763_643_600);
}

#[test]
fn rotates_when_hour_changes() {
    let limits = SegmentLimits::default();
    let times = [at(2025, 11, 20, 13), at(2025, 11, 20, 13), at(2025, 11, 20, 14)];
    let ulids = ["01ARZ3NDEKTSV4RRFFQ69G5FBA", "01ARZ3NDEKTSV4RRFFQ69G5FBB", "01ARZ3NDEKTSV4RRFFQ69G5FBC"];
    let plans = publish_all(&limits, &times, &ulids);

    let latest = &plans[2].meta;
    assert_eq!(latest.message_count, 1);
    assert!(latest.segment_prefix.ends_with("/14"));
    let second = &plans[1].meta;
    assert_eq!(second.message_count, 2);
    assert!(second.segment_prefix.ends_with("/13"));
    assert_ne!(second.segment_prefix, latest.segment_prefix);
    assert_eq!(plans[1].segment_ref, format!("refs/gatos/messages/{}", second.segment_path()));
    assert_eq!(plans[1].segment_ref, "refs/gatos/messages/jobs/pending/2025/11/20/13/01ARZ3NDEKTSV4RRFFQ69G5FBA");
    assert_eq!(plans[2].segment_ref, "refs/gatos/messages/jobs/pending/2025/11/20/14/01ARZ3NDEKTSV4RRFFQ69G5FBC");
    assert!(plans[1].continuing);
    assert!(!plans[2].continuing);
    assert_eq!(plans[1].segment_expected.as_deref(), Some("c1"));
    assert_eq!(plans[2].segment_expected, None);
    assert_eq!(plans[2].head_expected.as_deref(), Some("c2"));
    assert_eq!(plans[2].head_ref, "refs/gatos/messages/jobs/pending/head");
}

#[test]
fn rotates_when_message_limit_exceeded() {
    let limits = SegmentLimits { max_messages_per_segment: 2, ..SegmentLimits::default() };
    let times = [at(2025, 11, 20, 10), at(2025, 11, 20, 10), at(2025, 11, 20, 10)];
    let ulids = ["01ARZ3NDEKTSV4RRFFQ69G5FBD", "01ARZ3NDEKTSV4RRFFQ69G5FBE", "01ARZ3NDEKTSV4RRFFQ69G5FBF"];
    let plans = publish_all(&limits, &times, &ulids);
    let latest = &plans[2].meta;
    assert_eq!(latest.message_count, 1);
    let second = &plans[1].meta;
    assert_eq!(second.message_count, 2);
    assert_eq!(second.segment_prefix, latest.segment_prefix);
    assert_ne!(second.segment_ulid, latest.segment_ulid);
}

#[test]
fn rotates_when_bytes_would_exceed_bound() {
    let prev = SegmentMeta::new("t/2025/11/20/10".to_string(), GOOD_ULID.to_string(), 0, 90);
    let limits = SegmentLimits { max_messages_per_segment: 10, max_bytes_per_segment: 100 };
    assert!(!should_rotate(&limits, &prev, "t/2025/11/20/10", 10));
    assert!(should_rotate(&limits, &prev, "t/2025/11/20/10", 11));
    assert!(should_rotate(&limits, &prev, "t/2025/11/20/11", 1));
    let full = SegmentMeta::new("t/2025/11/20/10".to_string(), GOOD_ULID.to_string(), 0, u64::MAX);
    assert!(should_rotate(&SegmentLimits { max_messages_per_segment: 10, max_bytes_per_segment: u64::MAX }, &full, "t/2025/11/20/10", 1));
}

#[test]
fn publish_rejects_bad_topic_and_envelope() {
    let limits = SegmentLimits::default();
    let now = at(2025, 11, 20, 10);
    let bad_topic = TopicRef::new("repo", "../evil");
    assert!(matches!(
        plan_publish(&limits, &bad_topic, &make_envelope(GOOD_ULID), &now, None),
        Err(MessagePlaneError::InvalidTopic(_))
    ));
    let mut env = make_envelope(GOOD_ULID);
    env.event_type = "bad\ntype".to_string();
    assert!(matches!(
        plan_publish(&limits, &topic(), &env, &now, None),
        Err(MessagePlaneError::InvalidEnvelope(_))
    ));
}

#[test]
fn publish_cas_results_retry_then_conflict() {
    let limits = SegmentLimits::default();
    let plan = plan_publish(&limits, &topic(), &make_envelope(GOOD_ULID), &at(2025, 1, 1, 0), None).unwrap();
    match after_publish_cas(1, &plan, "abc".to_string(), RefUpdate::Updated, Some(RefUpdate::Updated)) {
        PublishStep::Done(ok) => {
            assert_eq!(ok.commit_id, "abc");
            assert_eq!(ok.ulid, GOOD_ULID);
            assert_eq!(ok.content_id, make_envelope(GOOD_ULID).content_id());
        }
        other => panic!("unexpected {:?}", other),
    }
    assert!(matches!(after_publish_cas(1, &plan, "a".into(), RefUpdate::Conflict, None), PublishStep::Retry));
    assert!(matches!(
        after_publish_cas(2, &plan, "a".into(), RefUpdate::Updated, Some(RefUpdate::Conflict)),
        PublishStep::Retry
    ));
    assert!(matches!(
        after_publish_cas(3, &plan, "a".into(), RefUpdate::Conflict, None),
        PublishStep::Fail(MessagePlaneError::HeadConflict)
    ));
    assert!(matches!(
        after_publish_cas(1, &plan, "a".into(), RefUpdate::Failed("io".into()), None),
        PublishStep::Fail(MessagePlaneError::Repo(ref m)) if m == "io"
    ));
    assert!(must_undo_segment(&RefUpdate::Updated, &Some(RefUpdate::Conflict)));
    assert!(must_undo_segment(&RefUpdate::Updated, &Some(RefUpdate::Failed("x".into()))));
    assert!(!must_undo_segment(&RefUpdate::Updated, &Some(RefUpdate::Updated)));
    assert!(!must_undo_segment(&RefUpdate::Conflict, &None));
}

fn record(ulid: &str, commit: &str) -> MessageRecord {
    let env = make_envelope(ulid);
    read_message_record(commit.to_string(), env.canonical_bytes).unwrap()
}

fn chain_desc(ulids: &[&str]) -> Vec<MessageRecord> {
    ulids.iter().enumerate().rev().map(|(i, u)| record(u, &format!("c{}", i + 1))).collect()
}

#[test]
fn subscriber_reads_canonical_json_in_order() {
    let ulids = ["01ARZ3NDEKTSV4RRFFQ69G5FBG", "01ARZ3NDEKTSV4RRFFQ69G5FBH", "01ARZ3NDEKTSV4RRFFQ69G5FBJ"];
    let envelopes: Vec<_> = ulids.iter().map(|u| make_envelope(u)).collect();
    let records = select_page(chain_desc(&ulids), None, 10).unwrap();
    assert_eq!(records.len(), envelopes.len());
    let returned: Vec<_> = records.iter().map(|r| r.ulid.as_str()).collect();
    assert_eq!(returned, ulids);
    for (record, env) in records.iter().zip(envelopes.iter()) {
        assert_eq!(record.envelope_path, "message/envelope.json");
        assert_eq!(record.canonical_envelope, env.canonical_bytes);
        assert_eq!(record.content_id, env.content_id());
    }
}

#[test]
fn subscriber_respects_since_ulid_and_limit() {
    let ulids = [
        "01ARZ3NDEKTSV4RRFFQ69G5FBK",
        "01ARZ3NDEKTSV4RRFFQ69G5FBL",
        "01ARZ3NDEKTSV4RRFFQ69G5FBM",
        "01ARZ3NDEKTSV4RRFFQ69G5FBN",
    ];
    let records = select_page(chain_desc(&ulids), Some(ulids[1]), 2).expect("read succeeds");
    assert_eq!(records.len(), 2);
    assert_eq!(records[0].ulid, ulids[2]);
    assert_eq!(records[1].ulid, ulids[3]);

    let limited = select_page(chain_desc(&ulids), None, 1).expect("limit clamped");
    assert_eq!(limited.len(), 1);
    assert_eq!(limited[0].ulid, ulids[0]);
}

#[test]
fn subscriber_unknown_cursor_reads_everything() {
    let ulids = ["01ARZ3NDEKTSV4RRFFQ69G5FBK", "01ARZ3NDEKTSV4RRFFQ69G5FBL"];
    let records = select_page(chain_desc(&ulids), Some("01ARZ3NDEKTSV4RRFFQ69G5FZZ"), 5).unwrap();
    assert_eq!(records.len(), 2);
    let newest = select_page(chain_desc(&ulids), Some(ulids[1]), 5).unwrap();
    assert!(newest.is_empty());
}

#[test]
fn read_limits_are_checked() {
    assert_eq!(validate_read_request(None, 0), Err(MessagePlaneError::InvalidLimit));
    assert_eq!(validate_read_request(None, 1), Ok(1));
    assert_eq!(validate_read_request(None, 512), Ok(MAX_PAGE_SIZE));
    assert_eq!(validate_read_request(None, 10_000), Ok(MAX_PAGE_SIZE));
    assert!(matches!(validate_read_request(Some("nope"), 5), Err(MessagePlaneError::InvalidEnvelope(_))));
    assert!(matches!(select_page(Vec::new(), None, 0), Err(MessagePlaneError::InvalidLimit)));
}

#[test]
fn read_clamps_to_the_maximum_page() {
    let ulids: Vec<String> = (0..600).map(|i| format!("01ARZ3NDEKTSV4RRFFQ69G{:04}", i)).collect();
    let refs: Vec<&str> = ulids.iter().map(|s| s.as_str()).collect();
    let page = select_page(chain_desc(&refs), None, 1000).unwrap();
    assert_eq!(page.len(), 512);
    assert_eq!(page[0].ulid, ulids[0]);
    assert_eq!(page[511].ulid, ulids[511]);
}

#[test]
fn record_requires_a_ulid_member() {
    assert!(matches!(
        read_message_record("c".to_string(), b"{\"x\":1}".to_vec()),
        Err(MessagePlaneError::Repo(_))
    ));
    assert!(matches!(
        read_message_record("c".to_string(), b"{\"ulid\":\"lower\"}".to_vec()),
        Err(MessagePlaneError::InvalidEnvelope(_))
    ));
    let r = read_message_record("c".to_string(), b"{\"ulid\":\"01ARZ3NDEKTSV4RRFFQ69G5FAV\"}".to_vec()).unwrap();
    assert_eq!(r.content_id, blake3_content_id(b"{\"ulid\":\"01ARZ3NDEKTSV4RRFFQ69G5FAV\"}"));
}

#[test]
fn checkpoint_store_writes_blob_ref() {
    let t = topic();
    let (refname, doc) = checkpoint_record("workers", &t, GOOD_ULID, "abc123").unwrap();
    assert_eq!(refname, "refs/gatos/consumers/workers/jobs/pending");
    let checkpoint: serde_json::Value = serde_json::from_str(&doc).unwrap();
    assert_eq!(checkpoint.get("ulid").unwrap().as_str().unwrap(), GOOD_ULID);
    assert_eq!(checkpoint.get("commit").unwrap().as_str().unwrap(), "abc123");
    assert_eq!(checkpoint.as_object().unwrap().len(), 2);

    let loaded = checkpoint_from_payload("workers".to_string(), "jobs/pending".to_string(), doc.as_bytes())
        .expect("checkpoint exists");
    assert_eq!(loaded.group, "workers");
    assert_eq!(loaded.topic, "jobs/pending");
    assert_eq!(loaded.ulid, GOOD_ULID);
    assert_eq!(loaded.commit.as_deref(), Some("abc123"));
}

#[test]
fn checkpoint_write_checks_ulid_then_names() {
    let t = topic();
    assert!(matches!(checkpoint_record("workers", &t, "bad", "c"), Err(MessagePlaneError::InvalidEnvelope(_))));
    assert!(matches!(checkpoint_record("bad group", &t, GOOD_ULID, "c"), Err(MessagePlaneError::InvalidTopic(_))));
    let (_, doc) = checkpoint_record("workers", &t, GOOD_ULID, "quote\"here").unwrap();
    assert_eq!(doc, format!("{{\"ulid\":\"{}\",\"commit\":\"quote\\\"here\"}}", GOOD_ULID));
    assert!(matches!(
        checkpoint_from_payload("g".to_string(), "t".to_string(), b"{}"),
        Err(MessagePlaneError::Checkpoint(_))
    ));
}

#[test]
fn checkpoint_refs_are_listed_by_topic() {
    let parts = checkpoint_ref_parts("refs/gatos/consumers/workers/jobs/pending", "jobs/pending").unwrap();
    assert_eq!(parts, ("workers".to_string(), "jobs/pending".to_string()));
    assert!(checkpoint_ref_parts("refs/gatos/consumers/workers/jobs/other", "jobs/pending").is_none());
    assert!(checkpoint_ref_parts("refs/gatos/messages/workers/jobs/pending", "jobs/pending").is_none());
    assert!(checkpoint_ref_parts("refs/gatos/consumers/workers", "jobs/pending").is_none());
}

fn segment(name: &str, started: i64, last: &str) -> SegmentInfo {
    SegmentInfo {
        ref_name: name.to_string(),
        meta: Some(SegmentMeta::new("p".to_string(), "u".to_string(), started, 1)),
        last_ulid: Ok(last.to_string()),
    }
}

fn checkpoint(ulid: &str) -> ConsumerCheckpoint {
    ConsumerCheckpoint {
        group: "workers".to_string(),
        topic: "jobs/pending".to_string(),
        ulid: ulid.to_string(),
        commit: Some("deadbeef".to_string()),
    }
}

fn prune_fixture(ulids: &[&str; 3]) -> Vec<SegmentInfo> {
    // Publishes at 09:00, 09:00 and 11:00: the 09 segment ends with the
    // second message, the 11 segment holds the third.
    vec![
        segment(&format!("refs/gatos/messages/jobs/pending/2025/11/20/09/{}", ulids[0]), epoch(2025, 11, 20, 9), ulids[1]),
        segment(&format!("refs/gatos/messages/jobs/pending/2025/11/20/11/{}", ulids[2]), epoch(2025, 11, 20, 11), ulids[2]),
    ]
}

#[test]
fn pruner_skips_when_checkpoint_lags() {
    let ulids = ["01ARZ3NDEKTSV4RRFFQ69G5FBD", "01ARZ3NDEKTSV4RRFFQ69G5FBE", "01ARZ3NDEKTSV4RRFFQ69G5FBF"];
    let candidates = find_prunable_segments(
        &topic(),
        epoch(2025, 11, 20, 13),
        3 * 3600,
        &vec![checkpoint(ulids[0])],
        prune_fixture(&ulids),
    )
    .unwrap();
    assert!(candidates.is_empty());
}

#[test]
fn pruner_allows_old_segment_once_checkpoints_advance() {
    let ulids = ["01ARZ3NDEKTSV4RRFFQ69G5FBG", "01ARZ3NDEKTSV4RRFFQ69G5FBH", "01ARZ3NDEKTSV4RRFFQ69G5FBJ"];
    let candidates = find_prunable_segments(
        &topic(),
        epoch(2025, 11, 20, 13),
        3 * 3600,
        &vec![checkpoint(ulids[2])],
        prune_fixture(&ulids),
    )
    .unwrap();
    assert_eq!(candidates.len(), 1);
    assert!(candidates[0].contains(ulids[0]));
}

#[test]
fn pruner_ignores_other_topics_and_reports_read_errors() {
    let ulids = ["01ARZ3NDEKTSV4RRFFQ69G5FBG", "01ARZ3NDEKTSV4RRFFQ69G5FBH", "01ARZ3NDEKTSV4RRFFQ69G5FBJ"];
    let mut other = checkpoint(ulids[0]);
    other.topic = "other".to_string();
    let candidates =
        find_prunable_segments(&topic(), epoch(2025, 11, 20, 13), 3 * 3600, &vec![other], prune_fixture(&ulids)).unwrap();
    assert_eq!(candidates.len(), 1);

    let broken = vec![SegmentInfo {
        ref_name: "refs/gatos/messages/jobs/pending/2025/11/20/09/X".to_string(),
        meta: Some(SegmentMeta::new("p".to_string(), "u".to_string(), 0, 1)),
        last_ulid: Err(MessagePlaneError::Repo("gone".to_string())),
    }];
    assert_eq!(
        find_prunable_segments(&topic(), 100, 10, &Vec::new(), broken),
        Err(MessagePlaneError::Repo("gone".to_string()))
    );
    let foreign = vec![
        segment("refs/gatos/messages/jobs/other/2025/11/20/09/X", 0, GOOD_ULID),
        segment("refs/gatos/messages/jobs/pending/head", 0, GOOD_ULID),
    ];
    assert!(find_prunable_segments(&topic(), epoch(2025, 11, 20, 13), 10, &Vec::new(), foreign).unwrap().is_empty());
    assert!(matches!(
        find_prunable_segments(&TopicRef::new("r", "a//b"), 0, 0, &Vec::new(), Vec::new()),
        Err(MessagePlaneError::InvalidTopic(_))
    ));
}

#[test]
fn segment_refs_exclude_the_head() {
    assert!(segment_ref_of("refs/gatos/messages/jobs/pending/2025/11/20/09/X", "jobs/pending"));
    assert!(!segment_ref_of("refs/gatos/messages/jobs/pending/head", "jobs/pending"));
    assert!(!segment_ref_of("refs/gatos/messages/jobs/other/2025", "jobs/pending"));
}
