use gatos::privacy::{check_pointer, Algo, Kind, OpaquePointer, PointerError};

fn pointer(digest: Option<&str>, cipher: Option<&str>, extensions: Option<&str>) -> OpaquePointer {
    OpaquePointer {
        kind: Kind::OpaquePointer,
        algo: Algo::Blake3,
        digest: digest.map(String::from),
        ciphertext_digest: cipher.map(String::from),
        size: Some(10),
        location: "s3://bucket/key".into(),
        capability: "cap".into(),
        extensions: extensions.map(|e| serde_json::from_str(e).unwrap()),
    }
}

#[test]
fn pointer_needs_some_digest() {
    assert_eq!(pointer(None, None, None).validate(), Err(PointerError::MissingDigest));
    assert_eq!(pointer(Some(""), Some(""), None).validate(), Err(PointerError::MissingDigest));
    assert_eq!(pointer(Some("blake3:aa"), None, None).validate(), Ok(()));
}

#[test]
fn both_digests_allowed_when_not_low_entropy() {
    assert_eq!(pointer(Some("blake3:aa"), Some("blake3:bb"), None).validate(), Ok(()));
    assert_eq!(
        pointer(Some("blake3:aa"), Some("blake3:bb"), Some("{\"class\":\"public\"}")).validate(),
        Ok(())
    );
}

#[test]
fn low_entropy_pointer_rules() {
    let low = Some("{\"class\":\"low-entropy\"}");
    assert_eq!(pointer(None, Some("blake3:bb"), low).validate(), Ok(()));
    assert_eq!(
        pointer(Some("blake3:aa"), Some("blake3:bb"), low).validate(),
        Err(PointerError::LowEntropyForbidsPlainDigest)
    );
    assert_eq!(
        pointer(Some("blake3:aa"), None, low).validate(),
        Err(PointerError::LowEntropyNeedsCiphertextDigest)
    );
    assert_eq!(
        check_pointer(&Some("a".into()), &None, Some("low-entropy".into())),
        Err(PointerError::LowEntropyNeedsCiphertextDigest)
    );
}
