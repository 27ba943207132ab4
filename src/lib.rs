//! Verified core of a commit-backed message plane and ledger journal:
//! identifier validation, canonical identities, segment rotation, subscriber
//! pages, journal windows, consumer checkpoints, pruning and policy-gated
//! appends. Reading and writing the object database is left to the caller,
//! which hands these functions plain values and carries out what they decide.
use vstd::prelude::*;

pub mod digest;
pub mod envelope;
pub mod event;
pub mod ident;
pub mod journal;
pub mod ledger;
pub mod policy_guard;
pub mod ports;
pub mod privacy;
pub mod prune;
pub mod publish;
pub mod rpc;
pub mod segment;
pub mod subscriber;
pub mod text;
pub mod topic;

pub use envelope::{MessageEnvelope, MessageRecord, PublishReceipt};
pub use event::EventEnvelope;
pub use ledger::{compute_commit_id, compute_content_id, stub_notice, Commit, CommitCore, Signature};
pub use topic::{hello_message_plane, validate_ulid_str, MessagePlaneError, TopicRef};

verus! {

} // verus!
