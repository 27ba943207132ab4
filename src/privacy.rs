//! Opaque pointers of the hybrid privacy model and their invariants.
use vstd::prelude::*;

use crate::envelope::{json_member, json_text};
use crate::text::str_eq;

verus! {

/// The kind tag of a pointer document.
#[derive(Debug, Clone, Copy, PartialEq, Eq)]
pub enum Kind {
    OpaquePointer,
}

/// Digest algorithm of a pointer.
#[derive(Debug, Clone, Copy, PartialEq, Eq)]
pub enum Algo {
    Blake3,
}

/// Why a pointer breaks the model's invariants.
#[derive(Debug, Clone, Copy, PartialEq, Eq)]
pub enum PointerError {
    /// Neither a plaintext nor a ciphertext digest is given.
    MissingDigest,
    /// A low-entropy pointer must carry the ciphertext digest.
    LowEntropyNeedsCiphertextDigest,
    /// A low-entropy pointer must not reveal the plaintext digest.
    LowEntropyForbidsPlainDigest,
}

/// A pointer to content kept outside the ledger.
#[derive(Debug, Clone, PartialEq, Eq)]
pub struct OpaquePointer {
    pub kind: Kind,
    pub algo: Algo,
    pub digest: Option<String>,
    pub ciphertext_digest: Option<String>,
    pub size: Option<u64>,
    pub location: String,
    pub capability: String,
    pub extensions: Option<serde_json::Value>,
}

/// The digest is present and non-empty.
pub open spec fn has_digest(d: Option<String>) -> bool {
    d is Some && d->Some_0@.len() > 0
}

/// The outcome that the invariants give for the digests present and for
/// whether the pointer is of the low-entropy class.
pub open spec fn pointer_verdict(plain: bool, cipher: bool, low_entropy: bool) -> Result<(), PointerError> {
    if !(plain || cipher) {
        Err(PointerError::MissingDigest)
    } else if low_entropy && !cipher {
        Err(PointerError::LowEntropyNeedsCiphertextDigest)
    } else if low_entropy && plain {
        Err(PointerError::LowEntropyForbidsPlainDigest)
    } else {
        Ok(())
    }
}

fn present(d: &Option<String>) -> (r: bool)
    ensures
        r == has_digest(*d),
{
    match d {
        Some(s) => s.as_str().unicode_len() > 0,
        None => false,
    }
}

/// Applies the invariants to a pointer whose `extensions.class` member reads
/// `class` (`None` when absent or not a string).
pub fn check_pointer(digest: &Option<String>, ciphertext_digest: &Option<String>, class: Option<String>) -> (r: Result<(), PointerError>)
    ensures
        r == pointer_verdict(
            has_digest(*digest),
            has_digest(*ciphertext_digest),
            class is Some && class->Some_0@ == "low-entropy"@,
        ),
{
    let has_plain = present(digest);
    let has_cipher = present(ciphertext_digest);
    if !(has_plain || has_cipher) {
        return Err(PointerError::MissingDigest);
    }
    let low_entropy = match &class {
        Some(c) => str_eq(c.as_str(), "low-entropy"),
        None => false,
    };
    if low_entropy {
        if !has_cipher {
            return Err(PointerError::LowEntropyNeedsCiphertextDigest);
        }
        if has_plain {
            return Err(PointerError::LowEntropyForbidsPlainDigest);
        }
    }
    Ok(())
}

impl OpaquePointer {
    /// Checks the invariants beyond the document's schema.
    pub fn validate(&self) -> (r: Result<(), PointerError>)
        ensures
            !(has_digest(self.digest) || has_digest(self.ciphertext_digest)) ==> r == Err::<(), PointerError>(PointerError::MissingDigest),
            r is Ok ==> has_digest(self.digest) || has_digest(self.ciphertext_digest),
            has_digest(self.ciphertext_digest) && !has_digest(self.digest) ==> r is Ok,
    {
        let class = match &self.extensions {
            Some(ext) => match json_member(ext, "class") {
                Some(c) => json_text(c),
                None => None,
            },
            None => None,
        };
        check_pointer(&self.digest, &self.ciphertext_digest, class)
    }
}

} // verus!
