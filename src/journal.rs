//! Per-actor journals: ref names, commit messages, the compare-and-swap retry
//! decision, and the windows and pages that reads return.
use vstd::prelude::*;

use crate::event::{envelope_valid, EventEnvelope};
use crate::ident::{concat3, starts_with, is_actor, is_event_type, is_namespace, is_ulid, validate_actor, validate_namespace};
use crate::publish::RefUpdate;
use crate::text::{seq_lt, str_eq, str_lt};

verus! {

/// Number of attempts an append makes before it reports a conflict.
pub const APPEND_ATTEMPTS: u32 = 3;

/// `refs/gatos/journal/<ns>/<actor>`.
pub open spec fn journal_ref_of(ns: Seq<char>, actor: Seq<char>) -> Seq<char> {
    "refs/gatos/journal/"@ + ns + "/"@ + actor
}

/// The journal ref of `actor` in `ns`, once both pass the identifier filter
/// (the namespace is checked first).
pub fn journal_ref_name(ns: &str, actor: &str) -> (r: Result<String, String>)
    ensures
        r is Ok <==> is_namespace(ns@) && is_actor(actor@),
        r is Ok ==> r->Ok_0@ == journal_ref_of(ns@, actor@),
        !is_namespace(ns@) ==> r is Err && starts_with(r->Err_0@, "namespace"@),
        is_namespace(ns@) && !is_actor(actor@) ==> r is Err && starts_with(r->Err_0@, "actor"@),
{
    validate_namespace(ns)?;
    validate_actor(actor)?;
    let head = concat3("refs/gatos/journal/", ns, "/");
    let r = concat3(head.as_str(), actor, "");
    proof {
        reveal_strlit("");
    }
    assert(r@ =~= journal_ref_of(ns@, actor@));
    Ok(r)
}

/// `<event_type>\n\nEvent-CID: <cid>\n`.
pub open spec fn journal_commit_text(event_type: Seq<char>, cid: Seq<char>) -> Seq<char> {
    event_type + "\n\nEvent-CID: "@ + cid + "\n"@
}

/// The message of a journal commit for an event of `event_type` with `cid`.
pub fn journal_commit_message(event_type: &str, cid: &str) -> (r: String)
    ensures
        r@ == journal_commit_text(event_type@, cid@),
{
    let tail = concat3(cid, "\n", "");
    proof {
        reveal_strlit("");
    }
    let r = concat3(event_type, "\n\nEvent-CID: ", tail.as_str());
    assert(r@ =~= journal_commit_text(event_type@, cid@));
    r
}

/// The journal ref an append of `envelope` by `actor` in `ns` moves, once the
/// namespace, the actor and the envelope are valid (checked in that order).
/// Nothing is written before this succeeds, so a rejected identifier leaves
/// every ref as it was.
pub fn prepare_append(ns: &str, actor: &str, envelope: &EventEnvelope) -> (r: Result<String, String>)
    ensures
        r is Ok <==> is_namespace(ns@) && is_actor(actor@) && envelope_valid(*envelope),
        r is Ok ==> r->Ok_0@ == journal_ref_of(ns@, actor@),
        !is_namespace(ns@) ==> r is Err && starts_with(r->Err_0@, "namespace"@),
        is_namespace(ns@) && !is_actor(actor@) ==> r is Err && starts_with(r->Err_0@, "actor"@),
{
    let refname = journal_ref_name(ns, actor)?;
    envelope.validate()?;
    Ok(refname)
}

/// What an append does after a compare-and-swap of the journal head.
#[derive(Debug)]
pub enum AppendStep {
    /// Read the head again and make another attempt.
    Retry,
    /// Stop with this result.
    Finished(Result<String, String>),
}

/// The step after attempt number `attempt` (from 1) of an append whose new
/// commit is `commit_id` ended its compare-and-swap with `outcome`: success
/// returns the commit; a conflict retries until the attempts are spent and
/// then reports `head_conflict`; any other failure is returned as it is.
pub fn after_cas(attempt: u32, outcome: RefUpdate, commit_id: String) -> (r: AppendStep)
    ensures
        outcome is Updated ==> (r matches AppendStep::Finished(Ok(c)) && c@ == commit_id@),
        outcome is Conflict && attempt < APPEND_ATTEMPTS ==> r is Retry,
        outcome is Conflict && attempt >= APPEND_ATTEMPTS ==> (r matches AppendStep::Finished(Err(e))
            && e@ == "head_conflict"@),
        outcome matches RefUpdate::Failed(m) ==> (r matches AppendStep::Finished(Err(e)) && e@ == m@),
{
    match outcome {
        RefUpdate::Updated => AppendStep::Finished(Ok(commit_id)),
        RefUpdate::Conflict => {
            if attempt >= APPEND_ATTEMPTS {
                AppendStep::Finished(Err(String::from_str("head_conflict")))
            } else {
                AppendStep::Retry
            }
        },
        RefUpdate::Failed(m) => AppendStep::Finished(Err(m)),
    }
}

/// `name` starts with `refs/gatos/journal/<ns>/`.
pub open spec fn in_namespace(name: Seq<char>, ns: Seq<char>) -> bool {
    let prefix = "refs/gatos/journal/"@ + ns + "/"@;
    name.len() >= prefix.len() && name.subrange(0, prefix.len() as int) == prefix
}

fn has_prefix(name: &str, prefix: &str) -> (r: bool)
    ensures
        r == (name@.len() >= prefix@.len() && name@.subrange(0, prefix@.len() as int) == prefix@),
{
    let n = name.unicode_len();
    let p = prefix.unicode_len();
    n >= p && str_eq(name.substring_char(0, p), prefix)
}

/// The journal a read of `ns` goes to: the one of `actor` when given, else the
/// lexicographically first journal ref of the namespace among `refs`.
pub fn pick_journal_ref(ns: &str, actor: Option<&str>, refs: &Vec<String>) -> (r: Result<String, String>)
    ensures
        actor is Some ==> (r is Ok <==> is_namespace(ns@) && is_actor(actor->Some_0@)),
        actor is Some && r is Ok ==> r->Ok_0@ == journal_ref_of(ns@, actor->Some_0@),
        actor is None ==> (r is Ok <==> is_namespace(ns@) && exists|i: int|
            0 <= i < refs@.len() && in_namespace((#[trigger] refs@[i])@, ns@)),
        actor is None && r is Ok ==> exists|i: int|
            0 <= i < refs@.len() && (#[trigger] refs@[i])@ == r->Ok_0@ && in_namespace(r->Ok_0@, ns@),
        actor is None && r is Ok ==> forall|i: int|
            0 <= i < refs@.len() && in_namespace((#[trigger] refs@[i])@, ns@) ==> !seq_lt(
                refs@[i]@,
                r->Ok_0@,
            ),
{
    if let Some(a) = actor {
        return journal_ref_name(ns, a);
    }
    validate_namespace(ns)?;
    let prefix = concat3("refs/gatos/journal/", ns, "/");
    let mut best: Option<usize> = None;
    let mut i: usize = 0;
    while i < refs.len()
        invariant
            i <= refs@.len(),
            prefix@ == "refs/gatos/journal/"@ + ns@ + "/"@,
            best is None ==> forall|j: int| 0 <= j < i ==> !in_namespace((#[trigger] refs@[j])@, ns@),
            best is Some ==> best->Some_0 < i && in_namespace(refs@[best->Some_0 as int]@, ns@),
            best is Some ==> forall|j: int|
                0 <= j < i && in_namespace((#[trigger] refs@[j])@, ns@) ==> !seq_lt(
                    refs@[j]@,
                    refs@[best->Some_0 as int]@,
                ),
        decreases refs@.len() - i,
    {
        proof {
            lemma_seq_lt_irreflexive(refs@[i as int]@);
        }
        if has_prefix(refs[i].as_str(), prefix.as_str()) {
            match best {
                None => {
                    best = Some(i);
                },
                Some(b) => {
                    if str_lt(refs[i].as_str(), refs[b].as_str()) {
                        proof {
                            lemma_seq_lt_trans_or_total(refs@, i as int, b as int);
                        }
                        best = Some(i);
                    }
                },
            }
        }
        i = i + 1;
    }
    match best {
        Some(b) => Ok(refs[b].clone()),
        None => Err(String::from_str("no journal refs found")),
    }
}

proof fn lemma_seq_lt_trans_or_total(refs: Seq<String>, i: int, b: int)
    requires
        0 <= i < refs.len(),
        0 <= b < refs.len(),
        seq_lt(refs[i]@, refs[b]@),
    ensures
        forall|j: int|
            0 <= j < refs.len() && !seq_lt(refs[j]@, refs[b]@) ==> !seq_lt(refs[j]@, refs[i]@),
{
    assert forall|j: int|
        0 <= j < refs.len() && !seq_lt(refs[j]@, refs[b]@) implies !seq_lt(refs[j]@, refs[i]@) by {
        if seq_lt(refs[j]@, refs[i]@) {
            lemma_seq_lt_transitive(refs[j]@, refs[i]@, refs[b]@);
        }
    }
}

/// Lexicographic order is irreflexive.
pub proof fn lemma_seq_lt_irreflexive(a: Seq<char>)
    ensures
        !seq_lt(a, a),
    decreases a.len(),
{
    if a.len() > 0 {
        lemma_seq_lt_irreflexive(a.drop_first());
    }
}

/// Lexicographic order is transitive.
pub proof fn lemma_seq_lt_transitive(a: Seq<char>, b: Seq<char>, c: Seq<char>)
    requires
        seq_lt(a, b),
        seq_lt(b, c),
    ensures
        seq_lt(a, c),
    decreases a.len(),
{
    if a.len() > 0 && b.len() > 0 && c.len() > 0 && a[0] == b[0] && b[0] == c[0] {
        lemma_seq_lt_transitive(a.drop_first(), b.drop_first(), c.drop_first());
    }
}

/// The commit ids of a chain of `(commit id, event)` pairs.
pub open spec fn ids_of<E>(s: Seq<(String, E)>) -> Seq<Seq<char>> {
    s.map_values(|p: (String, E)| p.0@)
}

/// `i` is the first index at or after `from` where `ids` holds `target`, or
/// the length of `ids` when there is none.
pub open spec fn first_from(ids: Seq<Seq<char>>, target: Seq<char>, from: int, i: int) -> bool {
    &&& from <= i <= ids.len()
    &&& forall|j: int| from <= j < i ==> ids[j] != target
    &&& i < ids.len() ==> ids[i] == target
}

/// `lo` is where the window starts: after the first commit `start`.
pub open spec fn start_bound(ids: Seq<Seq<char>>, start: Option<Seq<char>>, lo: int) -> bool {
    match start {
        None => lo == 0,
        Some(s) => lo >= 1 && first_from(ids, s, 0, lo - 1) && lo - 1 < ids.len(),
    }
}

/// `hi` is where the window ends: just after the first commit `end` at or
/// after `lo`, or at the end of the chain.
pub open spec fn end_bound(ids: Seq<Seq<char>>, end: Option<Seq<char>>, lo: int, hi: int) -> bool {
    match end {
        None => hi == ids.len(),
        Some(e) => {
            ||| hi == ids.len() && forall|j: int| lo <= j < ids.len() ==> ids[j] != e
            ||| lo < hi <= ids.len() && ids[hi - 1] == e && forall|j: int| lo <= j < hi - 1 ==> ids[j] != e
        },
    }
}

/// `[lo, hi)` is the window of the oldest-first ids `ids` between the commit
/// `start` (exclusive) and the commit `end` (inclusive).
pub open spec fn window_bounds(
    ids: Seq<Seq<char>>,
    start: Option<Seq<char>>,
    end: Option<Seq<char>>,
    lo: int,
    hi: int,
) -> bool {
    start_bound(ids, start, lo) && end_bound(ids, end, lo, hi)
}

pub open spec fn opt_str(o: Option<&str>) -> Option<Seq<char>> {
    match o {
        Some(s) => Some(s@),
        None => None,
    }
}

/// The window of a journal read. `chain_desc` is the chain walked from the
/// head to the root (newest first); the window is oldest first, starts after
/// the commit `start` and ends with the commit `end`. An unknown `start` is an
/// error.
pub fn window_from_chain<E>(chain_desc: Vec<(String, E)>, start: Option<&str>, end: Option<&str>) -> (r:
    Result<Vec<(String, E)>, String>)
    ensures
        r is Err <==> start is Some && forall|j: int|
            0 <= j < chain_desc@.len() ==> (#[trigger] chain_desc@[j]).0@ != start->Some_0@,
        r is Ok ==> exists|lo: int, hi: int|
            window_bounds(ids_of(chain_desc@.reverse()), opt_str(start), opt_str(end), lo, hi)
                && r->Ok_0@ == chain_desc@.reverse().subrange(lo, hi),
{
    let ghost desc = chain_desc@;
    let ghost asc = desc.reverse();
    let ghost ids = ids_of(asc);
    let n = chain_desc.len();
    let mut chain = chain_desc;
    assert(asc.len() == n);
    assert(ids.len() == n);
    let mut lo: usize = 0;
    if let Some(s) = start {
        let mut i: usize = 0;
        while i < n && !str_eq(chain[n - 1 - i].0.as_str(), s)
            invariant
                n == desc.len(),
                chain@ == desc,
                asc == desc.reverse(),
                ids == ids_of(asc),
                i <= n,
                forall|j: int| 0 <= j < i ==> ids[j] != s@,
            decreases n - i,
        {
            assert(ids[i as int] == desc[n - 1 - i].0@);
            i = i + 1;
        }
        proof {
            if i < n {
                assert(ids[i as int] == desc[n - 1 - i].0@);
            }
        }
        if i == n {
            proof {
                assert forall|j: int| 0 <= j < desc.len() implies (#[trigger] desc[j]).0@ != s@ by {
                    assert(ids[n - 1 - j] == desc[j].0@);
                }
            }
            return Err(String::from_str("start commit not found"));
        }
        lo = i + 1;
        assert(opt_str(start) == Some(s@));
        assert(first_from(ids, s@, 0, lo - 1));
    }
    let mut hi: usize = n;
    if let Some(e) = end {
        let mut k: usize = lo;
        while k < n && !str_eq(chain[n - 1 - k].0.as_str(), e)
            invariant
                n == desc.len(),
                chain@ == desc,
                asc == desc.reverse(),
                ids == ids_of(asc),
                lo <= k <= n,
                forall|j: int| lo <= j < k ==> ids[j] != e@,
                start_bound(ids, opt_str(start), lo as int),
            decreases n - k,
        {
            assert(ids[k as int] == desc[n - 1 - k].0@);
            k = k + 1;
        }
        proof {
            if k < n {
                assert(ids[k as int] == desc[n - 1 - k].0@);
            }
        }
        assert(first_from(ids, e@, lo as int, k as int));
        hi = if k < n {
            k + 1
        } else {
            k
        };
        assert(opt_str(end) == Some(e@));
        assert(end_bound(ids, opt_str(end), lo as int, hi as int));
    } else {
        assert(end_bound(ids, opt_str(end), lo as int, hi as int));
    }
    assert(start_bound(ids, opt_str(start), lo as int));
    assert(window_bounds(ids, opt_str(start), opt_str(end), lo as int, hi as int));
    proof {
        if start is Some {
            let s = start->Some_0@;
            assert(ids[lo - 1] == s);
            assert(desc[n - lo].0@ == s);
        }
    }
    chain.truncate(n - lo);
    let mut out: Vec<(String, E)> = Vec::new();
    while out.len() < hi - lo
        invariant
            lo <= hi <= n,
            n == desc.len(),
            asc == desc.reverse(),
            chain@ == desc.subrange(0, n - lo - out@.len()),
            out@.len() <= hi - lo,
            forall|j: int| 0 <= j < out@.len() ==> out@[j] == asc[lo + j],
        decreases hi - lo - out@.len(),
    {
        let item = chain.pop().unwrap();
        out.push(item);
    }
    assert(out@ =~= asc.subrange(lo as int, hi as int));
    Ok(out)
}

/// A read with neither bound returns every event of the chain, oldest first:
/// when the chain walked from the head is the reverse of the order in which
/// the events were appended, the read gives them back in append order, with no
/// duplicate and no gap.
pub proof fn lemma_full_window_is_append_order<E>(appended: Seq<(String, E)>, lo: int, hi: int)
    requires
        window_bounds(ids_of(appended.reverse().reverse()), None, None, lo, hi),
    ensures
        appended.reverse().reverse().subrange(lo, hi) == appended,
{
    assert(appended.reverse().reverse() =~= appended);
    assert(appended.subrange(0, appended.len() as int) =~= appended);
}

/// One page of a window: at most `limit` events, and when more remain, the
/// commit id of the last event returned as the cursor to resume from. A limit
/// of zero is rejected.
pub fn paginate<E>(events: Vec<(String, E)>, limit: usize) -> (r: Result<(Vec<E>, Option<String>), String>)
    ensures
        r is Ok <==> limit >= 1,
        r matches Ok((page, cursor)) ==> {
            let n = if events@.len() > limit { limit as int } else { events@.len() as int };
            &&& page@.len() == n
            &&& forall|j: int| 0 <= j < n ==> page@[j] == (#[trigger] events@[j]).1
            &&& (events@.len() > limit) == (cursor is Some)
            &&& cursor is Some ==> cursor->Some_0@ == events@[limit - 1].0@
        },
{
    if limit == 0 {
        return Err(String::from_str("limit must be at least 1"));
    }
    let ghost all = events@;
    let len = events.len();
    let mut rest = events;
    let cursor = if len > limit {
        Some(rest[limit - 1].0.clone())
    } else {
        None
    };
    let n = if len > limit {
        limit
    } else {
        len
    };
    rest.truncate(n);
    let mut rev: Vec<E> = Vec::new();
    while rest.len() > 0
        invariant
            rest@ == all.subrange(0, n - rev@.len()),
            rev@.len() <= n,
            n <= all.len(),
            forall|j: int| 0 <= j < rev@.len() ==> rev@[j] == all[n - 1 - j].1,
        decreases rest@.len(),
    {
        let (_, ev) = rest.pop().unwrap();
        rev.push(ev);
    }
    let mut page: Vec<E> = Vec::new();
    while rev.len() > 0
        invariant
            rev@.len() + page@.len() == n,
            n <= all.len(),
            forall|j: int| 0 <= j < rev@.len() ==> rev@[j] == all[n - 1 - j].1,
            forall|j: int| 0 <= j < page@.len() ==> page@[j] == all[j].1,
        decreases rev@.len(),
    {
        let ev = rev.pop().unwrap();
        page.push(ev);
    }
    Ok((page, cursor))
}

} // verus!
