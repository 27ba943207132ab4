//! Policy-gated appends: consult the policy, record the decision in the audit
//! log, and append only when the policy allows.
use vstd::prelude::*;

use crate::event::EventEnvelope;
use crate::journal::APPEND_ATTEMPTS;
use crate::ident::{concat3, is_actor, is_namespace, validate_actor, validate_namespace};
use crate::ports::{
    AppendContext, AuditError, AuditSink, Caller, Clock, JournalStore, PolicyAuditEntry, PolicyClient,
    PolicyDecision, PolicyError, PolicyOutcome,
};
use crate::publish::RefUpdate;

verus! {

/// Why a policy-gated append did not happen.
#[derive(Debug, Clone, PartialEq, Eq)]
pub enum PolicyGuardError {
    /// The policy denied the append (or rejected the request).
    Denied,
    /// The policy could not be consulted.
    PolicyUnavailable,
    /// The decision could not be recorded, so nothing was appended.
    AuditFailed,
    /// The journal append failed.
    AppendFailed(String),
}

/// The text that describes a guard error.
pub open spec fn guard_error_text(e: PolicyGuardError) -> Seq<char> {
    match e {
        PolicyGuardError::Denied => "policy denied"@,
        PolicyGuardError::PolicyUnavailable => "policy unavailable"@,
        PolicyGuardError::AuditFailed => "audit failed"@,
        PolicyGuardError::AppendFailed(m) => "append failed: "@ + m@,
    }
}

impl PolicyGuardError {
    /// Human-readable description of the error.
    pub fn describe(&self) -> (r: String)
        ensures
            r@ == guard_error_text(*self),
    {
        match self {
            PolicyGuardError::Denied => String::from_str("policy denied"),
            PolicyGuardError::PolicyUnavailable => String::from_str("policy unavailable"),
            PolicyGuardError::AuditFailed => String::from_str("audit failed"),
            PolicyGuardError::AppendFailed(e) => {
                let mut r = String::from_str("append failed: ");
                r.append(e.as_str());
                r
            },
        }
    }
}

/// What a policy evaluation leads to: a decision to record, or an error that
/// stops the append before anything is recorded.
pub fn decision_or_error(r: Result<PolicyDecision, PolicyError>) -> (out: Result<PolicyDecision, PolicyGuardError>)
    ensures
        r is Ok ==> out is Ok && out->Ok_0 == r->Ok_0,
        r matches Err(PolicyError::InvalidRequest) ==> out == Err::<PolicyDecision, PolicyGuardError>(PolicyGuardError::Denied),
        r matches Err(PolicyError::Unavailable) ==> out == Err::<PolicyDecision, PolicyGuardError>(PolicyGuardError::PolicyUnavailable),
        r matches Err(PolicyError::Other(_)) ==> out == Err::<PolicyDecision, PolicyGuardError>(PolicyGuardError::PolicyUnavailable),
{
    match r {
        Ok(d) => Ok(d),
        Err(PolicyError::Unavailable) => Err(PolicyGuardError::PolicyUnavailable),
        Err(PolicyError::InvalidRequest) => Err(PolicyGuardError::Denied),
        Err(PolicyError::Other(_)) => Err(PolicyGuardError::PolicyUnavailable),
    }
}

/// Whether to append once the decision `outcome` has been recorded with the
/// result `recorded`: a failed record stops the append, a denial is final.
pub fn gate_after_audit(outcome: PolicyOutcome, recorded: Result<(), AuditError>) -> (r: Result<(), PolicyGuardError>)
    ensures
        recorded is Err ==> r == Err::<(), PolicyGuardError>(PolicyGuardError::AuditFailed),
        recorded is Ok && outcome == PolicyOutcome::Deny ==> r == Err::<(), PolicyGuardError>(PolicyGuardError::Denied),
        r is Ok <==> recorded is Ok && outcome == PolicyOutcome::Allow,
{
    match recorded {
        Err(_) => Err(PolicyGuardError::AuditFailed),
        Ok(()) => match outcome {
            PolicyOutcome::Allow => Ok(()),
            PolicyOutcome::Deny => Err(PolicyGuardError::Denied),
        },
    }
}

/// The result of the journal append itself.
pub fn append_result(r: Result<String, String>) -> (out: Result<String, PolicyGuardError>)
    ensures
        r is Ok ==> out is Ok && out->Ok_0 == r->Ok_0,
        r is Err ==> out == Err::<String, PolicyGuardError>(PolicyGuardError::AppendFailed(r->Err_0)),
{
    match r {
        Ok(c) => Ok(c),
        Err(e) => Err(PolicyGuardError::AppendFailed(e)),
    }
}

/// The context a policy sees for an append of `envelope` into `ns`.
pub fn append_context(
    ns: &str,
    envelope: &EventEnvelope,
    content_id: String,
    caller: Caller,
    metadata: Vec<u8>,
) -> (r: AppendContext)
    ensures
        r.topic@ == ns@,
        r.ulid@ == envelope.ulid@,
        r.content_id == content_id,
        r.caller == caller,
        r.metadata == metadata,
{
    AppendContext { topic: String::from_str(ns), ulid: envelope.ulid.clone(), content_id, caller, metadata }
}

/// The audit record of `decision` taken on `ctx`, stamped `now`.
pub fn audit_entry(decision: PolicyDecision, ctx: AppendContext, now: u64) -> (r: PolicyAuditEntry)
    ensures
        r.decision == decision,
        r.ctx == ctx,
        r.timestamp == now,
{
    PolicyAuditEntry { decision, ctx, timestamp: now }
}

/// Appends `envelope` to the journal of `actor` in `ns` when the policy allows
/// it, recording the decision first. `content_id` is the event's content id
/// (its CID). The policy sees `append_context(ns, envelope, content_id,
/// caller, metadata)`; the sink receives `audit_entry(decision, context,
/// clock.now())`. Nothing is recorded when the policy cannot decide; nothing is
/// appended when the decision cannot be recorded or is a denial: every error
/// but a failed append leaves the journal as it was.
pub fn append_with_policy<C: Clock, P: PolicyClient, A: AuditSink, J: JournalStore<
    Event = EventEnvelope,
    Error = String,
>>(
    clock: &C,
    policy: &P,
    audit: &A,
    journal: &mut J,
    ns: &str,
    actor: &str,
    envelope: &EventEnvelope,
    content_id: String,
    caller: Caller,
    metadata: Vec<u8>,
) -> (r: Result<String, PolicyGuardError>)
    ensures
        r is Err && !(r->Err_0 is AppendFailed) ==> *final(journal) == *old(journal),
{
    let ctx = append_context(ns, envelope, content_id, caller, metadata);
    let decision = decision_or_error(policy.evaluate_append(&ctx))?;
    let outcome = decision.outcome;
    let entry = audit_entry(decision, ctx, clock.now());
    gate_after_audit(outcome, audit.record_policy_decision(&entry))?;
    append_result(journal.append(ns, actor, envelope.clone()))
}

/// What recording a decision does after a compare-and-swap of the audit ref.
#[derive(Debug)]
pub enum AuditStep {
    /// Read the audit head again and make another attempt.
    Retry,
    /// Stop with this result.
    Finished(Result<(), AuditError>),
}

/// The step after attempt number `attempt` (from 1) of an audit write whose
/// ref update ended with `update`: the audit log follows the journal's
/// discipline, retrying a lost compare-and-swap until the attempts are spent.
pub fn after_audit_cas(attempt: u32, update: RefUpdate) -> (r: AuditStep)
    ensures
        update is Updated ==> (r matches AuditStep::Finished(Ok(()))),
        update is Conflict && attempt < APPEND_ATTEMPTS ==> r is Retry,
        update is Conflict && attempt >= APPEND_ATTEMPTS ==> (r matches AuditStep::Finished(Err(AuditError::Conflict))),
        update is Failed ==> (r matches AuditStep::Finished(Err(AuditError::Io))),
{
    match update {
        RefUpdate::Conflict => {
            if attempt < APPEND_ATTEMPTS {
                AuditStep::Retry
            } else {
                AuditStep::Finished(Err(AuditError::Conflict))
            }
        },
        other => AuditStep::Finished(audit_outcome(other)),
    }
}

/// `refs/gatos/audit/policy/<ns>/<actor>`.
pub open spec fn audit_ref_of(ns: Seq<char>, actor: Seq<char>) -> Seq<char> {
    "refs/gatos/audit/policy/"@ + ns + "/"@ + actor
}

/// The audit ref of `actor` in `ns`, once both pass the identifier filter.
pub fn audit_ref_name(ns: &str, actor: &str) -> (r: Result<String, String>)
    ensures
        r is Ok <==> is_namespace(ns@) && is_actor(actor@),
        r is Ok ==> r->Ok_0@ == audit_ref_of(ns@, actor@),
{
    validate_namespace(ns)?;
    validate_actor(actor)?;
    let head = concat3("refs/gatos/audit/policy/", ns, "/");
    let r = concat3(head.as_str(), actor, "");
    proof {
        reveal_strlit("");
    }
    assert(r@ =~= audit_ref_of(ns@, actor@));
    Ok(r)
}

/// `policy:Allow` or `policy:Deny`.
pub fn audit_commit_message(outcome: PolicyOutcome) -> (r: &'static str)
    ensures
        outcome == PolicyOutcome::Allow ==> r@ == "policy:Allow"@,
        outcome == PolicyOutcome::Deny ==> r@ == "policy:Deny"@,
{
    match outcome {
        PolicyOutcome::Allow => "policy:Allow",
        PolicyOutcome::Deny => "policy:Deny",
    }
}

/// The result of recording a decision whose audit-ref update ended with
/// `update`: a lost compare-and-swap is a conflict, other failures are I/O.
pub fn audit_outcome(update: RefUpdate) -> (r: Result<(), AuditError>)
    ensures
        update is Updated <==> r is Ok,
        update is Conflict ==> r == Err::<(), AuditError>(AuditError::Conflict),
        update is Failed ==> r == Err::<(), AuditError>(AuditError::Io),
{
    match update {
        RefUpdate::Updated => Ok(()),
        RefUpdate::Conflict => Err(AuditError::Conflict),
        RefUpdate::Failed(_) => Err(AuditError::Io),
    }
}

} // verus!
