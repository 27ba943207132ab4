//! Ledger core: commit identities, detached signatures and content-addressed
//! object storage.
use vstd::prelude::*;

use crate::digest::{blake3_digest, blake3_of, hex_of, to_hex};

verus! {

/// 256-bit BLAKE3 digest, verbatim.
pub type Hash = [u8; 32];

/// Public key bytes of a signer.
pub type PubKey = [u8; 32];

/// Notice of the ledger backend's state.
pub fn stub_notice() -> (r: &'static str)
    ensures
        r@ == "gatos-ledger-git backend is under reconstruction"@,
{
    "gatos-ledger-git backend is under reconstruction"
}

/// Errors of content-addressed storage backends.
#[derive(Debug, Clone, Copy, PartialEq, Eq)]
pub enum StoreError {
    /// Backend I/O or system failure.
    Io,
    /// The data does not match its id, or an expected entry is missing.
    Corruption,
    /// The backend does not support the operation.
    Unsupported,
    /// An internal invariant does not hold (a map ref without a direct target).
    Invariant,
}

/// Content-addressed object storage: `id` is the BLAKE3 hash of the data.
pub trait ObjectStore {
    /// Stores `data` under `id`; storing the same pair again is no error.
    fn put_object(&mut self, id: &Hash, data: &[u8]) -> Result<(), StoreError>;

    /// The bytes stored under `id`, or `None` when there are none.
    fn get_object(&self, id: &Hash) -> Result<Option<Vec<u8>>, StoreError>;
}

/// The admission check of every `put_object`: the id must be the BLAKE3
/// digest of the data, else the data is corrupt.
pub fn check_object_id(id: &Hash, data: &[u8]) -> (r: Result<(), StoreError>)
    ensures
        r is Ok <==> id@ == blake3_of(data@),
        r is Err ==> r == Err::<(), StoreError>(StoreError::Corruption),
{
    let digest = blake3_digest(data);
    let mut i: usize = 0;
    while i < 32
        invariant
            i <= 32,
            digest@ == blake3_of(data@),
            forall|j: int| 0 <= j < i ==> id@[j] == digest@[j],
        decreases 32 - i,
    {
        if id[i] != digest[i] {
            return Err(StoreError::Corruption);
        }
        i = i + 1;
    }
    assert(id@ =~= digest@);
    Ok(())
}

/// `refs/gatos/blake3-map/<hex id>`.
pub open spec fn blake3_map_ref_of(id: Seq<u8>) -> Seq<char> {
    "refs/gatos/blake3-map/"@ + hex_of(id)
}

/// The ref that maps a content id to the blob holding its bytes.
pub fn blake3_map_ref(id: &Hash) -> (r: String)
    ensures
        r@ == blake3_map_ref_of(id@),
{
    let hex = to_hex(id);
    let mut r = String::from_str("refs/gatos/blake3-map/");
    r.append(hex.as_str());
    r
}

/// Unsigned core of a commit; its identity is the digest of its encoding.
#[derive(Debug, Clone, PartialEq, Eq)]
pub struct CommitCore {
    pub parent: Option<Hash>,
    pub tree: Hash,
    /// Human-readable description of the change.
    pub message: String,
    /// Seconds since the Unix epoch (UTC).
    pub timestamp: u64,
}

/// A detached signature over a commit id.
#[derive(Debug, Clone, Copy, PartialEq, Eq)]
pub struct Signature {
    pub signer: PubKey,
    pub sig: [u8; 64],
}

/// A commit: its core and any number of detached signatures.
#[derive(Debug, Clone, PartialEq, Eq)]
pub struct Commit {
    pub core: CommitCore,
    pub sigs: Vec<Signature>,
}

/// The bytes bincode's standard configuration writes for a commit core's
/// fields, in order: parent, tree, message, timestamp.
pub uninterp spec fn core_encoding(
    parent: Option<Seq<u8>>,
    tree: Seq<u8>,
    message: Seq<char>,
    timestamp: int,
) -> Seq<u8>;

pub open spec fn opt_hash(h: Option<Hash>) -> Option<Seq<u8>> {
    match h {
        Some(x) => Some(x@),
        None => None,
    }
}

/// The identity of a commit core: BLAKE3 of its canonical encoding.
pub open spec fn commit_id_of(core: CommitCore) -> Seq<u8> {
    blake3_of(core_encoding(opt_hash(core.parent), core.tree@, core.message@, core.timestamp as int))
}

/// Relies on `bincode::encode_to_vec` with `config::standard()` on the tuple of
/// the core's fields, which bincode writes as it writes a struct with those
/// fields in that order. The target is a `Vec`, whose writer never fails, and
/// the standard configuration sets no size limit, so encoding these fields
/// succeeds; the error is rendered through `Display`.
#[verifier::external_body]
fn encode_core(parent: Option<Hash>, tree: Hash, message: &String, timestamp: u64) -> (r: Result<Vec<u8>, String>)
    ensures
        r is Ok,
        r is Ok ==> r->Ok_0@ == core_encoding(opt_hash(parent), tree@, message@, timestamp as int),
{
    bincode::encode_to_vec((parent, tree, message, timestamp), bincode::config::standard()).map_err(
        |e: bincode::error::EncodeError| e.to_string(),
    )
}

/// The canonical id of unsigned commit content.
pub fn compute_content_id(core: &CommitCore) -> (r: Result<Hash, String>)
    ensures
        r is Ok,
        r is Ok ==> r->Ok_0@ == commit_id_of(*core),
{
    let bytes = encode_core(core.parent, core.tree, &core.message, core.timestamp)?;
    Ok(blake3_digest(bytes.as_slice()))
}

/// The canonical id of a commit: that of its core; signatures do not count.
pub fn compute_commit_id(commit: &Commit) -> (r: Result<Hash, String>)
    ensures
        r is Ok,
        r is Ok ==> r->Ok_0@ == commit_id_of(commit.core),
{
    compute_content_id(&commit.core)
}

/// Signatures never change a commit id: two commits with the same core have
/// the same id, whatever signatures each carries and in whatever order.
pub proof fn lemma_commit_id_ignores_signatures(a: Commit, b: Commit)
    requires
        a.core == b.core,
    ensures
        commit_id_of(a.core) == commit_id_of(b.core),
{
}

} // verus!
