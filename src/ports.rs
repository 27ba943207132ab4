//! Interfaces between the ledger and its collaborators: clock, policy,
//! audit and journal storage. Implementations live with their backends.
use vstd::prelude::*;

verus! {

/// POSIX seconds since the Unix epoch (UTC).
pub trait Clock {
    fn now(&self) -> u64;
}

/// Outcome of a policy evaluation.
#[derive(Debug, Clone, Copy, PartialEq, Eq)]
pub enum PolicyOutcome {
    Allow,
    Deny,
}

/// A policy decision with its metadata.
#[derive(Debug, Clone, PartialEq, Eq)]
pub struct PolicyDecision {
    pub outcome: PolicyOutcome,
    /// Version or hash of the policy that decided.
    pub policy_version: Option<String>,
    /// Reasons for a denial, or notes on an approval.
    pub reasons: Vec<String>,
}

/// Minimal caller identity.
#[derive(Debug, Clone, PartialEq, Eq)]
pub struct Caller {
    pub subject: String,
    pub groups: Vec<String>,
}

/// What a policy sees of an append.
#[derive(Debug, Clone, PartialEq, Eq)]
pub struct AppendContext {
    /// Topic or namespace appended to.
    pub topic: String,
    /// ULID of the event.
    pub ulid: String,
    /// Content identifier of the canonical event.
    pub content_id: String,
    /// Who appends.
    pub caller: Caller,
    /// Opaque metadata for the policy.
    pub metadata: Vec<u8>,
}

/// Errors of a policy client.
#[derive(Debug, Clone, PartialEq, Eq)]
pub enum PolicyError {
    Unavailable,
    InvalidRequest,
    Other(String),
}

/// Consults the policy plane.
pub trait PolicyClient {
    fn evaluate_append(&self, ctx: &AppendContext) -> Result<PolicyDecision, PolicyError>;
}

/// The audit record of one policy decision.
#[derive(Debug, Clone, PartialEq, Eq)]
pub struct PolicyAuditEntry {
    pub decision: PolicyDecision,
    pub ctx: AppendContext,
    pub timestamp: u64,
}

/// Errors of an audit sink.
#[derive(Debug, Clone, PartialEq, Eq)]
pub enum AuditError {
    Io,
    Conflict,
    Other(String),
}

/// Durable audit log of policy decisions.
pub trait AuditSink {
    fn record_policy_decision(&self, entry: &PolicyAuditEntry) -> Result<(), AuditError>;
}

/// Per-namespace, per-actor linear journal.
pub trait JournalStore {
    type Event;
    type Error;

    /// Appends `event` to the journal of `actor` in `ns`; returns the commit id.
    fn append(&mut self, ns: &str, actor: &str, event: Self::Event) -> Result<String, Self::Error>;

    /// Events between the commit `start` (exclusive) and the commit `end`
    /// (inclusive), oldest first.
    fn read_window(
        &self,
        ns: &str,
        actor: Option<&str>,
        start: Option<&str>,
        end: Option<&str>,
    ) -> Result<Vec<Self::Event>, Self::Error>;

    /// At most `limit` events of the window, and the commit id to resume from
    /// when more remain.
    fn read_window_paginated(
        &self,
        ns: &str,
        actor: Option<&str>,
        start: Option<&str>,
        end: Option<&str>,
        limit: usize,
    ) -> Result<(Vec<Self::Event>, Option<String>), Self::Error>;
}

} // verus!
