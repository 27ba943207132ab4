use gatos::digest::{blake3_content_id, blake3_digest, to_hex};
use gatos::ledger::{
    blake3_map_ref, check_object_id, compute_commit_id, compute_content_id, stub_notice, Commit,
    CommitCore, Signature, StoreError,
};

fn fixed_core() -> CommitCore {
    CommitCore {
        parent: Some([0x11; 32]),
        tree: [0x22; 32],
        message: "hello".to_string(),
        timestamp: 1_725_000_000,
    }
}

#[test]
fn test_compute_commit_id_invariant_under_signatures() {
    let core = fixed_core();
    let id_core = compute_content_id(&core).unwrap();

    let commit0 = Commit { core: core.clone(), sigs: Vec::new() };
    let id0 = compute_commit_id(&commit0).unwrap();

    let sig1 = Signature { signer: [0xAA; 32], sig: [0xBB; 64] };
    let commit1 = Commit { core: core.clone(), sigs: vec![sig1] };
    let id1 = compute_commit_id(&commit1).unwrap();

    let sig2 = Signature { signer: [0xCC; 32], sig: [0xDD; 64] };
    let commit2a = Commit { core: core.clone(), sigs: vec![sig1, sig2] };
    let commit2b = Commit {
        core: core.clone(),
        sigs: vec![sig2, Signature { signer: [0xAA; 32], sig: [0xBB; 64] }],
    };
    let id2a = compute_commit_id(&commit2a).unwrap();
    let id2b = compute_commit_id(&commit2b).unwrap();

    assert_eq!(id_core, id0);
    assert_eq!(id0, id1);
    assert_eq!(id1, id2a);
    assert_eq!(id2a, id2b);
    assert_eq!(id0.len(), 32);
    assert_eq!(to_hex(&id0).len(), 64);
}

#[test]
fn test_compute_content_id_stability() {
    let core = fixed_core();
    let id1 = compute_content_id(&core).unwrap();
    let id2 = compute_content_id(&core).unwrap();
    assert_eq!(id1, id2);
}

#[test]
fn commit_id_is_blake3_of_the_bincode_encoding() {
    let core = CommitCore { parent: None, tree: [0u8; 32], message: "m".to_string(), timestamp: 5 };
    // bincode standard: 0 for None, 32 tree bytes, length 1 then 'm', varint 5.
    let mut expected = vec![0u8];
    expected.extend_from_slice(&[0u8; 32]);
    expected.extend_from_slice(&[1, b'm', 5]);
    assert_eq!(compute_content_id(&core).unwrap(), blake3_digest(&expected));
}

#[test]
fn commit_id_changes_with_the_core() {
    let a = fixed_core();
    let mut b = fixed_core();
    b.timestamp += 1;
    assert_ne!(compute_content_id(&a).unwrap(), compute_content_id(&b).unwrap());
}

#[test]
fn stub_notice_mentions_backend() {
    assert!(stub_notice().contains("backend"));
}

#[test]
fn content_id_of_empty_input_is_the_known_digest() {
    assert_eq!(
        blake3_content_id(b""),
        "blake3:af1349b9f5f9a1a6a0404dea36dcc9499bcb25c9adc112b7cc9a93cae41f3262"
    );
}

#[test]
fn hex_is_lowercase_two_digits_per_byte() {
    assert_eq!(to_hex(&[0x00, 0x0f, 0xab, 0xff]), "000fabff");
}

#[test]
fn object_put_rejects_mismatched_id() {
    let data = b"payload";
    let id = blake3_digest(data);
    assert_eq!(check_object_id(&id, data), Ok(()));
    let mut wrong = id;
    wrong[31] ^= 1;
    assert_eq!(check_object_id(&wrong, data), Err(StoreError::Corruption));
    assert_eq!(check_object_id(&id, b"other"), Err(StoreError::Corruption));
}

#[test]
fn blake3_map_ref_names_the_hex_id() {
    let id = [0xabu8; 32];
    assert_eq!(blake3_map_ref(&id), format!("refs/gatos/blake3-map/{}", "ab".repeat(32)));
}
