use gatos::event::EventEnvelope;
use gatos::ident::{validate_actor, validate_event_type, validate_namespace, validate_ulid};
use gatos::journal::{journal_ref_name, prepare_append};

fn payload(text: &str) -> serde_json::Value {
    serde_json::from_str(text).unwrap()
}

fn envelope(ulid: &str) -> EventEnvelope {
    EventEnvelope {
        event_type: "event.test".into(),
        ulid: ulid.into(),
        actor: "user:alice".into(),
        caps: vec![],
        payload: payload("{\"x\": 1}"),
        policy_root: "deadbeef".into(),
        sig_alg: None,
        ts: None,
    }
}

#[test]
fn validate_ulid_rejects_newline_injection() {
    let env = envelope("01ARZ3\nMalicious: evil");
    assert!(env.validate().is_err());
}

#[test]
fn validate_ulid_rejects_invalid_chars() {
    let env = envelope("01ARZ3NDEKTSV4RRFFQ69G5F@V");
    assert!(env.validate().is_err());

    let env2 = envelope("01ARZ3NDEKTSV4RRFFQ69G5F+V");
    assert!(env2.validate().is_err());
}

#[test]
fn validate_ulid_rejects_wrong_length() {
    let env = envelope("01ARZ3");
    assert!(env.validate().is_err());

    let env2 = envelope("01ARZ3NDEKTSV4RRFFQ69G5FAVEXTRA");
    assert!(env2.validate().is_err());

    let env3 = envelope("");
    assert!(env3.validate().is_err());
}

#[test]
fn validate_ulid_accepts_valid_ulid() {
    let env = envelope("01ARZ3NDEKTSV4RRFFQ69G5FAV");
    assert!(env.validate().is_ok());
}

#[test]
fn validate_event_type_rejects_newline_injection() {
    let mut env = envelope("01ARZ3NDEKTSV4RRFFQ69G5FAV");
    env.event_type = "event.append\nSigned-off-by: evil".into();
    assert!(env.validate().is_err());
}

#[test]
fn validate_event_type_rejects_control_chars() {
    let mut env = envelope("01ARZ3NDEKTSV4RRFFQ69G5FAV");
    env.event_type = "event\x00null".into();
    assert!(env.validate().is_err());

    let mut env2 = envelope("01ARZ3NDEKTSV4RRFFQ69G5FAV");
    env2.event_type = "event\ttype".into();
    assert!(env2.validate().is_err());
}

#[test]
fn validate_event_type_accepts_valid_type() {
    let mut env = envelope("01ARZ3NDEKTSV4RRFFQ69G5FAV");
    env.event_type = "event.append".into();
    assert!(env.validate().is_ok());

    let mut env2 = envelope("01ARZ3NDEKTSV4RRFFQ69G5FAV");
    env2.event_type = "user.login-v2".into();
    assert!(env2.validate().is_ok());

    let mut env3 = envelope("01ARZ3NDEKTSV4RRFFQ69G5FAV");
    env3.event_type = "app_event_123".into();
    assert!(env3.validate().is_ok());
}

#[test]
fn validate_rejects_oversized_payload() {
    let mut env = envelope("01ARZ3NDEKTSV4RRFFQ69G5FAV");
    env.payload = payload(&format!("{{\"data\": \"{}\"}}", "x".repeat(2_000_000)));
    assert!(env.validate().is_err());
}

#[test]
fn payload_at_the_size_bound_is_accepted() {
    let mut env = envelope("01ARZ3NDEKTSV4RRFFQ69G5FAV");
    // {"data":"..."} adds 11 bytes around the text.
    env.payload = payload(&format!("{{\"data\": \"{}\"}}", "x".repeat(1024 * 1024 - 11)));
    assert!(env.validate().is_ok());
    env.payload = payload(&format!("{{\"data\": \"{}\"}}", "x".repeat(1024 * 1024 - 10)));
    assert!(env.validate().is_err());
}

#[test]
fn ulid_alphabet_follows_the_crockford_ranges() {
    assert!(validate_ulid("01ARZ3NDEKTSV4RRFFQ69G5FAV").is_ok());
    assert!(validate_ulid("01ARZ3NDEKTSV4RRFFQ69G5FAL").is_ok());
    assert!(validate_ulid("01ARZ3NDEKTSV4RRFFQ69G5FAI").is_err());
    assert!(validate_ulid("01ARZ3NDEKTSV4RRFFQ69G5FAO").is_err());
    assert!(validate_ulid("01ARZ3NDEKTSV4RRFFQ69G5FAU").is_err());
    assert!(validate_ulid("01arz3ndektsv4rrffq69g5fav").is_err());
}

#[test]
fn event_type_length_bounds() {
    assert!(validate_event_type("").is_err());
    assert!(validate_event_type(&"a".repeat(64)).is_ok());
    assert!(validate_event_type(&"a".repeat(65)).is_err());
}

#[test]
fn validate_namespace_rejects_path_traversal() {
    assert!(validate_namespace("../../../heads").is_err());
    assert!(validate_namespace("ns/../audit").is_err());
    assert!(validate_namespace("./local").is_err());
    assert!(validate_namespace("ns/subdir").is_err());
    assert!(validate_namespace(r"ns\windows").is_err());
}

#[test]
fn validate_namespace_rejects_git_special_chars() {
    assert!(validate_namespace("ns:evil").is_err());
    assert!(validate_namespace("ns*glob").is_err());
    assert!(validate_namespace("ns?query").is_err());
    assert!(validate_namespace("ns[bracket").is_err());
    assert!(validate_namespace("ns~1").is_err());
    assert!(validate_namespace("ns^caret").is_err());
    assert!(validate_namespace("ns@at").is_err());
    assert!(validate_namespace("ns{brace").is_err());
}

#[test]
fn validate_namespace_rejects_empty_and_too_long() {
    assert!(validate_namespace("").is_err());
    assert!(validate_namespace(&"a".repeat(65)).is_err());
}

#[test]
fn validate_namespace_accepts_valid_names() {
    assert!(validate_namespace("ns1").is_ok());
    assert!(validate_namespace("my-namespace").is_ok());
    assert!(validate_namespace("my_namespace").is_ok());
    assert!(validate_namespace("MyNamespace123").is_ok());
    assert!(validate_namespace(&"a".repeat(64)).is_ok());
}

#[test]
fn validate_actor_rejects_invalid_input() {
    assert!(validate_actor("../../../admin").is_err());
    assert!(validate_actor("actor~1").is_err());
    assert!(validate_actor("").is_err());
    assert!(validate_actor(&"a".repeat(129)).is_err());
}

#[test]
fn validate_actor_accepts_valid_names() {
    assert!(validate_actor("alice").is_ok());
    assert!(validate_actor("user-123").is_ok());
    assert!(validate_actor("my_actor").is_ok());
    assert!(validate_actor(&"a".repeat(128)).is_ok());
}

fn journal_envelope(ulid: &str) -> EventEnvelope {
    EventEnvelope {
        event_type: "event.append".into(),
        ulid: ulid.into(),
        actor: "user:alice".into(),
        caps: vec!["cap.write".into()],
        payload: payload("{\"hello\":\"world\"}"),
        policy_root: "deadbeef".into(),
        sig_alg: Some("ed25519".into()),
        ts: Some("2025-11-21T00:00:00Z".into()),
    }
}

#[test]
fn append_with_invalid_namespace_fails() {
    let result = prepare_append(
        "../../../heads/main",
        "alice",
        &journal_envelope("01ARZ3NDEKTSV4RRFFQ69G5FAV"),
    );
    assert!(result.is_err());
    assert!(result.unwrap_err().contains("namespace"));
}

#[test]
fn append_with_invalid_actor_fails() {
    let result = prepare_append("ns1", "actor~1", &journal_envelope("01ARZ3NDEKTSV4RRFFQ69G5FAV"));
    assert!(result.is_err());
    assert!(result.unwrap_err().contains("actor"));
}

#[test]
fn append_targets_the_actor_journal_ref() {
    let refname = prepare_append("default", "alice", &journal_envelope("01ARZ3NDEKTSV4RRFFQ69G5FAV"))
        .unwrap();
    assert_eq!(refname, "refs/gatos/journal/default/alice");
    assert_eq!(journal_ref_name("ns", "actor").unwrap(), "refs/gatos/journal/ns/actor");
}

#[test]
fn append_rejects_invalid_envelope_after_identifiers() {
    let result = prepare_append("default", "alice", &journal_envelope("bad"));
    assert!(result.unwrap_err().starts_with("ulid"));
}

#[test]
fn identifier_errors_start_with_the_field() {
    assert!(validate_namespace("").unwrap_err().starts_with("namespace"));
    assert!(validate_namespace(&"a".repeat(65)).unwrap_err().starts_with("namespace"));
    assert!(validate_namespace("a.b").unwrap_err().starts_with("namespace"));
    assert!(validate_actor("a/b").unwrap_err().starts_with("actor"));
    assert!(validate_event_type("").unwrap_err().starts_with("event_type"));
    assert!(prepare_append("ns", "bad~actor", &journal_envelope("01ARZ3NDEKTSV4RRFFQ69G5FAV")).unwrap_err().starts_with("actor"));
}
