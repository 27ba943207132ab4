//! BLAKE3 digests and their lowercase hex form.
use vstd::prelude::*;

verus! {

/// The 32-byte BLAKE3-256 digest of `data`, as the blake3 crate computes it.
pub uninterp spec fn blake3_of(data: Seq<u8>) -> Seq<u8>;

/// Relies on `blake3::hash`: the 32-byte BLAKE3 digest, a function of the input
/// bytes alone.
#[verifier::external_body]
pub fn blake3_digest(data: &[u8]) -> (r: [u8; 32])
    ensures
        r@ == blake3_of(data@),
{
    *blake3::hash(data).as_bytes()
}

/// Lowercase hex digit of `n < 16`.
pub open spec fn hex_digit(n: u8) -> char {
    if n < 10 {
        ((n + 48) as u8) as char
    } else {
        ((n + 87) as u8) as char
    }
}

/// Two lowercase hex digits per byte, most significant nibble first.
pub open spec fn hex_of(b: Seq<u8>) -> Seq<char>
    decreases b.len(),
{
    if b.len() == 0 {
        Seq::empty()
    } else {
        hex_of(b.drop_last()) + seq![hex_digit(b.last() / 16), hex_digit(b.last() % 16)]
    }
}

/// Relies on `hex::encode`: two lowercase hex digits for each byte, in order.
#[verifier::external_body]
pub fn to_hex(b: &[u8]) -> (r: String)
    ensures
        r@ == hex_of(b@),
{
    hex::encode(b)
}

/// `blake3:<hex digest>` of the given bytes.
pub open spec fn content_id_of(bytes: Seq<u8>) -> Seq<char> {
    "blake3:"@ + hex_of(blake3_of(bytes))
}

/// The content id of `bytes`: `blake3:` followed by the hex BLAKE3 digest.
pub fn blake3_content_id(bytes: &[u8]) -> (r: String)
    ensures
        r@ == content_id_of(bytes@),
{
    let digest = blake3_digest(bytes);
    let hex = to_hex(&digest);
    let mut out = String::from_str("blake3:");
    out.append(hex.as_str());
    out
}

/// A content id depends on the bytes alone: equal bytes, in any run and on any
/// platform, give equal ids.
pub proof fn lemma_content_id_deterministic(a: Seq<u8>, b: Seq<u8>)
    requires
        a == b,
    ensures
        content_id_of(a) == content_id_of(b),
{
}

} // verus!
