//! Session handoffs: when a session grows too large, a deterministic plan
//! says what is done, what is still open and what the next session must
//! know; accepting the plan starts a continued session seeded from it.

use vstd::prelude::*;

use crate::text::{clone_opt, clone_strings, chars_of, opt_view, is_whitespace, is_ws, own, push_str, str_eq, str_trim, string_from_chars, take_chars, take_prefix, trim, views};

verus! {

/// What the user decided about a handoff.
#[derive(Debug, Clone, Copy, PartialEq, Eq, Structural)]
pub enum HandoffDecision {
    Pending,
    Accepted,
    Declined,
    Deferred,
}

/// The wire name of each [`HandoffDecision`] value.
pub open spec fn handoff_decision_name(x: HandoffDecision) -> Seq<char> {
    match x {
        HandoffDecision::Pending => "pending"@,
        HandoffDecision::Accepted => "accepted"@,
        HandoffDecision::Declined => "declined"@,
        HandoffDecision::Deferred => "deferred"@,
    }
}

/// The value that `HandoffDecision::parse` gives for `s`: the variant whose wire
/// name is `s`, or `Pending` for any other text.
pub open spec fn handoff_decision_parsed(s: Seq<char>) -> HandoffDecision {
    if s == "accepted"@ {
        HandoffDecision::Accepted
    } else if s == "declined"@ {
        HandoffDecision::Declined
    } else if s == "deferred"@ {
        HandoffDecision::Deferred
    } else {
        HandoffDecision::Pending
    }
}

impl HandoffDecision {
    /// The wire name of the value.
    pub fn as_str(&self) -> (r: &'static str)
        ensures
            r@ == handoff_decision_name(*self),
    {
        match self {
            HandoffDecision::Pending => "pending",
            HandoffDecision::Accepted => "accepted",
            HandoffDecision::Declined => "declined",
            HandoffDecision::Deferred => "deferred",
        }
    }

    /// Reads a wire name; unknown text gives `Pending`.
    pub fn parse(s: &str) -> (r: Self)
        ensures
            r == handoff_decision_parsed(s@),
    {
        if str_eq(s, "accepted") {
            HandoffDecision::Accepted
        } else if str_eq(s, "declined") {
            HandoffDecision::Declined
        } else if str_eq(s, "deferred") {
            HandoffDecision::Deferred
        } else {
            HandoffDecision::Pending
        }
    }
}

/// Reading back the wire name of any value gives that value.
pub proof fn lemma_handoff_decision_round_trip(x: HandoffDecision)
    ensures
        handoff_decision_parsed(handoff_decision_name(x)) == x,
{
    reveal_strlit("pending");
    reveal_strlit("accepted");
    reveal_strlit("declined");
    reveal_strlit("deferred");
    assert("pending"@.len() != "accepted"@.len());
    assert("pending"@ != "accepted"@);
    assert("pending"@.len() != "declined"@.len());
    assert("pending"@ != "declined"@);
    assert("pending"@.len() != "deferred"@.len());
    assert("pending"@ != "deferred"@);
    assert("accepted"@[0] != "declined"@[0]);
    assert("accepted"@ != "declined"@);
    assert("accepted"@[0] != "deferred"@[0]);
    assert("accepted"@ != "deferred"@);
    assert("declined"@[2] != "deferred"@[2]);
    assert("declined"@ != "deferred"@);
}

/// The human-readable part of a handoff.
#[derive(Debug, Clone)]
pub struct HandoffSections {
    pub title: String,
    pub completed_so_far: Vec<String>,
    pub open_threads: Vec<String>,
    pub must_know_constraints: Vec<String>,
    pub artifact_refs: Vec<String>,
    pub memory_refs: Vec<String>,
    /// The first message the user is offered to send in the new session.
    pub suggested_first_message: String,
}

/// What the new session starts with.
#[derive(Debug, Clone)]
pub struct HandoffColdStart {
    pub rolling_summary_excerpt: String,
    pub pinned_memory_ids: Vec<String>,
    pub pinned_artifact_ids: Vec<String>,
}

/// A recent piece of activity: its title and the wire name of its card
/// status.
#[derive(Debug, Clone)]
pub struct ActivitySummary {
    pub title: String,
    pub status: String,
}

/// A handoff proposal: the plan for a session, what the user decided about
/// it, and the session that continues it once accepted. Times are
/// milliseconds since the Unix epoch.
#[derive(Debug, Clone)]
pub struct HandoffSnapshot {
    pub id: String,
    pub source_session_id: String,
    pub target_session_id: Option<String>,
    pub trace_id: Option<String>,
    pub sections: HandoffSections,
    pub cold_start: HandoffColdStart,
    pub user_decision: HandoffDecision,
    pub advisory_level: String,
    pub generated_at: i64,
    pub decided_at: Option<i64>,
}

/// What the planner reads: the session (its id, title and resolved and
/// unresolved threads), the trace, the advisory level, the recent activity
/// (newest first), and what the next session should keep close.
#[derive(Debug, Clone)]
pub struct PlanInputs {
    pub session_id: String,
    pub trace_id: Option<String>,
    pub session_title: String,
    pub session_resolved: Vec<String>,
    pub session_unresolved: Vec<String>,
    pub advisory_level: String,
    pub recent_activity: Vec<ActivitySummary>,
    pub pinned_memory_ids: Vec<String>,
    pub pinned_artifact_ids: Vec<String>,
    pub rolling_summary_excerpt: String,
    pub must_know_constraints: Vec<String>,
}

/// Activity in this state is done.
pub open spec fn is_done_status(s: Seq<char>) -> bool {
    s == "success"@ || s == "done"@ || s == "completed"@
}

/// Activity in this state is still open.
pub open spec fn is_open_status(s: Seq<char>) -> bool {
    s == "running"@ || s == "waiting_user"@ || s == "pending"@ || s == "suspended"@
}

/// The titles of the activities of `acts` whose status passes `pick`, in
/// order.
pub open spec fn titles_where(acts: Seq<ActivitySummary>, done: bool) -> Seq<Seq<char>>
    decreases acts.len(),
{
    if acts.len() == 0 {
        Seq::empty()
    } else {
        let rest = titles_where(acts.drop_last(), done);
        let s = acts.last().status@;
        if (done && is_done_status(s)) || (!done && is_open_status(s)) {
            rest.push(acts.last().title@)
        } else {
            rest
        }
    }
}

/// The listed items, or the session's own list when none were listed.
pub open spec fn or_session(listed: Seq<Seq<char>>, own_list: Seq<Seq<char>>) -> Seq<Seq<char>> {
    if listed.len() == 0 {
        own_list
    } else {
        listed
    }
}

/// The title of a handoff of a session titled `session_title`.
pub open spec fn handoff_title(session_title: Seq<char>, advisory: Seq<char>) -> Seq<char> {
    (if trim(session_title).len() == 0 { "Session"@ } else { session_title }) + " — handoff (advisory="@ + advisory
        + ")"@
}

/// The first message offered for the new session.
pub open spec fn first_message(session_title: Seq<char>, done: Seq<Seq<char>>, open: Seq<Seq<char>>) -> Seq<char> {
    if open.len() > 0 {
        "继续 "@ + session_title + "："@ + open[0]
    } else if done.len() > 0 {
        "基于上次「"@ + done[0] + "」继续推进"@
    } else {
        "继续上次的任务"@
    }
}

fn titles(acts: &Vec<ActivitySummary>, done: bool) -> (r: Vec<String>)
    ensures
        views(r@) == titles_where(acts@, done),
{
    let mut out: Vec<String> = Vec::new();
    let mut i: usize = 0;
    while i < acts.len()
        invariant
            i <= acts.len(),
            views(out@) == titles_where(acts@.take(i as int), done),
        decreases acts.len() - i,
    {
        proof {
            assert(acts@.take(i + 1).drop_last() =~= acts@.take(i as int));
        }
        let s = acts[i].status.as_str();
        let hit = if done {
            str_eq(s, "success") || str_eq(s, "done") || str_eq(s, "completed")
        } else {
            str_eq(s, "running") || str_eq(s, "waiting_user") || str_eq(s, "pending") || str_eq(s, "suspended")
        };
        if hit {
            out.push(acts[i].title.clone());
            proof {
                assert(views(out@) =~= titles_where(acts@.take(i as int), done).push(acts@[i as int].title@));
            }
        }
        i = i + 1;
    }
    proof {
        assert(acts@.take(i as int) =~= acts@);
    }
    out
}

/// `s` and `c` are the sections and cold start that the plan for `inputs`
/// holds. Done activities become the completed list and open ones the open
/// threads, each falling back to the session's own resolved or unresolved
/// threads when no activity qualifies; the constraints and pinned
/// references are carried over; the cold start holds the summary excerpt
/// and the pinned ids.
pub open spec fn planned(s: HandoffSections, c: HandoffColdStart, inputs: PlanInputs) -> bool {
    let done = or_session(titles_where(inputs.recent_activity@, true), views(inputs.session_resolved@));
    let open = or_session(titles_where(inputs.recent_activity@, false), views(inputs.session_unresolved@));
    &&& s.title@ == handoff_title(inputs.session_title@, inputs.advisory_level@)
    &&& views(s.completed_so_far@) == done
    &&& views(s.open_threads@) == open
    &&& views(s.must_know_constraints@) == views(inputs.must_know_constraints@)
    &&& views(s.artifact_refs@) == views(inputs.pinned_artifact_ids@)
    &&& views(s.memory_refs@) == views(inputs.pinned_memory_ids@)
    &&& s.suggested_first_message@ == first_message(inputs.session_title@, done, open)
    &&& c.rolling_summary_excerpt@ == inputs.rolling_summary_excerpt@
    &&& views(c.pinned_memory_ids@) == views(inputs.pinned_memory_ids@)
    &&& views(c.pinned_artifact_ids@) == views(inputs.pinned_artifact_ids@)
}

/// The handoff snapshot `id` planned for `inputs` at `now` ([`planned`]):
/// from the input session, on the input trace, with the advisory level,
/// pending the user's decision and with no continuing session yet.
pub fn plan(inputs: &PlanInputs, id: &str, now: i64) -> (r: HandoffSnapshot)
    ensures
        r.id@ == id@,
        r.source_session_id@ == inputs.session_id@,
        r.target_session_id.is_none(),
        opt_view(r.trace_id) == opt_view(inputs.trace_id),
        planned(r.sections, r.cold_start, *inputs),
        r.user_decision == HandoffDecision::Pending,
        r.advisory_level@ == inputs.advisory_level@,
        r.generated_at == now,
        r.decided_at.is_none(),
{
    let (sections, cold_start) = plan_parts(inputs);
    HandoffSnapshot {
        id: own(id),
        source_session_id: inputs.session_id.clone(),
        target_session_id: None,
        trace_id: clone_opt(&inputs.trace_id),
        sections,
        cold_start,
        user_decision: HandoffDecision::Pending,
        advisory_level: inputs.advisory_level.clone(),
        generated_at: now,
        decided_at: None,
    }
}

fn plan_parts(inputs: &PlanInputs) -> (r: (HandoffSections, HandoffColdStart))
    ensures
        planned(r.0, r.1, *inputs),
        ({
            let done = or_session(titles_where(inputs.recent_activity@, true), views(inputs.session_resolved@));
            let open = or_session(titles_where(inputs.recent_activity@, false), views(inputs.session_unresolved@));
            &&& r.0.title@ == handoff_title(inputs.session_title@, inputs.advisory_level@)
            &&& views(r.0.completed_so_far@) == done
            &&& views(r.0.open_threads@) == open
            &&& views(r.0.must_know_constraints@) == views(inputs.must_know_constraints@)
            &&& views(r.0.artifact_refs@) == views(inputs.pinned_artifact_ids@)
            &&& views(r.0.memory_refs@) == views(inputs.pinned_memory_ids@)
            &&& r.0.suggested_first_message@ == first_message(inputs.session_title@, done, open)
        }),
        r.1.rolling_summary_excerpt@ == inputs.rolling_summary_excerpt@,
        views(r.1.pinned_memory_ids@) == views(inputs.pinned_memory_ids@),
        views(r.1.pinned_artifact_ids@) == views(inputs.pinned_artifact_ids@),
{
    let mut title: Vec<char> = Vec::new();
    let trimmed = str_trim(inputs.session_title.as_str());
    if trimmed.len() == 0 {
        push_str(&mut title, "Session");
    } else {
        push_str(&mut title, inputs.session_title.as_str());
    }
    push_str(&mut title, " — handoff (advisory=");
    push_str(&mut title, inputs.advisory_level.as_str());
    push_str(&mut title, ")");

    let mut completed = titles(&inputs.recent_activity, true);
    let mut open = titles(&inputs.recent_activity, false);
    if completed.len() == 0 {
        completed = clone_strings(&inputs.session_resolved);
    }
    if open.len() == 0 {
        open = clone_strings(&inputs.session_unresolved);
    }

    let mut msg: Vec<char> = Vec::new();
    if open.len() > 0 {
        push_str(&mut msg, "继续 ");
        push_str(&mut msg, inputs.session_title.as_str());
        push_str(&mut msg, "：");
        push_str(&mut msg, open[0].as_str());
    } else if completed.len() > 0 {
        push_str(&mut msg, "基于上次「");
        push_str(&mut msg, completed[0].as_str());
        push_str(&mut msg, "」继续推进");
    } else {
        push_str(&mut msg, "继续上次的任务");
    }

    let sections = HandoffSections {
        title: string_from_chars(&title),
        completed_so_far: completed,
        open_threads: open,
        must_know_constraints: clone_strings(&inputs.must_know_constraints),
        artifact_refs: clone_strings(&inputs.pinned_artifact_ids),
        memory_refs: clone_strings(&inputs.pinned_memory_ids),
        suggested_first_message: string_from_chars(&msg),
    };
    let cold_start = HandoffColdStart {
        rolling_summary_excerpt: inputs.rolling_summary_excerpt.clone(),
        pinned_memory_ids: clone_strings(&inputs.pinned_memory_ids),
        pinned_artifact_ids: clone_strings(&inputs.pinned_artifact_ids),
    };
    (sections, cold_start)
}

/// A handoff can be accepted while it is pending or deferred; an accepted
/// or declined one is final.
pub fn check_acceptable(decision: HandoffDecision) -> (r: Result<(), String>)
    ensures
        match r {
            Ok(()) => decision == HandoffDecision::Pending || decision == HandoffDecision::Deferred,
            Err(e) => (decision == HandoffDecision::Accepted || decision == HandoffDecision::Declined) && e@
                == "snapshot already finalised as "@ + handoff_decision_name(decision),
        },
{
    match decision {
        HandoffDecision::Accepted | HandoffDecision::Declined => {
            let mut m: Vec<char> = Vec::new();
            push_str(&mut m, "snapshot already finalised as ");
            push_str(&mut m, decision.as_str());
            Err(string_from_chars(&m))
        },
        _ => Ok(()),
    }
}

/// `s` without its trailing closing brackets and whitespace.
pub open spec fn trim_closing(s: Seq<char>) -> Seq<char>
    decreases s.len(),
{
    if s.len() > 0 && (s.last() == ')' || is_ws(s.last())) {
        trim_closing(s.drop_last())
    } else {
        s
    }
}

/// The default title of the session that continues a handoff titled
/// `title`.
pub open spec fn continued_title(title: Seq<char>) -> Seq<char> {
    trim_closing(title) + " (continued)"@
}

/// The lifecycle status of a session.
#[derive(Debug, Clone, Copy, PartialEq, Eq, Structural)]
pub enum SessionStatus {
    Active,
    Archived,
}

/// What a handoff needs of the session it continues: its id, its domain
/// and its status, and when it was last updated.
#[derive(Debug, Clone)]
pub struct SourceSession {
    pub id: String,
    pub domain: String,
    pub status: SessionStatus,
    pub updated_at: i64,
}

/// The session that continues an accepted handoff.
#[derive(Debug, Clone)]
pub struct ContinuedSession {
    pub id: String,
    pub domain: String,
    pub status: SessionStatus,
    pub created_at: i64,
    pub title: String,
    pub summary: String,
    pub long_summary: String,
    pub unresolved: Vec<String>,
    pub resolved: Vec<String>,
    pub memory_refs: Vec<String>,
}

/// The session `id` in `domain` that continues an accepted handoff, active
/// and created at `now`: titled `new_title`, or after the handoff's title; summarised by the first two hundred
/// characters of the excerpt (the whole excerpt as the long summary); with
/// the open threads as unresolved, the completed ones as resolved, and the
/// pinned memories.
pub fn continued_session(
    sections: &HandoffSections,
    cold_start: &HandoffColdStart,
    new_title: Option<&str>,
    id: &str,
    domain: &str,
    now: i64,
) -> (r: ContinuedSession)
    ensures
        r.id@ == id@,
        r.domain@ == domain@,
        r.status == SessionStatus::Active,
        r.created_at == now,
        r.title@ == match new_title {
            Some(t) => t@,
            None => continued_title(sections.title@),
        },
        r.summary@ == take_chars(cold_start.rolling_summary_excerpt@, 200),
        r.long_summary@ == cold_start.rolling_summary_excerpt@,
        views(r.unresolved@) == views(sections.open_threads@),
        views(r.resolved@) == views(sections.completed_so_far@),
        views(r.memory_refs@) == views(cold_start.pinned_memory_ids@),
{
    let title = match new_title {
        Some(t) => own(t),
        None => {
            let cs = chars_of(sections.title.as_str());
            let mut n: usize = cs.len();
            proof {
                assert(cs@.take(cs@.len() as int) =~= cs@);
            }
            while n > 0 && (cs[n - 1] == ')' || is_whitespace(cs[n - 1]))
                invariant
                    n <= cs.len(),
                    trim_closing(cs@) == trim_closing(cs@.take(n as int)),
                decreases n,
            {
                proof {
                    assert(cs@.take(n as int).drop_last() =~= cs@.take(n - 1));
                }
                n = n - 1;
            }
            let mut out: Vec<char> = Vec::new();
            let mut i: usize = 0;
            while i < n
                invariant
                    n <= cs.len(),
                    i <= n,
                    out@ == cs@.take(i as int),
                decreases n - i,
            {
                out.push(cs[i]);
                i = i + 1;
                proof {
                    assert(out@ =~= cs@.take(i as int));
                }
            }
            push_str(&mut out, " (continued)");
            string_from_chars(&out)
        },
    };
    let summary = take_prefix(cold_start.rolling_summary_excerpt.as_str(), 200);
    ContinuedSession {
        id: own(id),
        domain: own(domain),
        status: SessionStatus::Active,
        created_at: now,
        title,
        summary: string_from_chars(&summary),
        long_summary: cold_start.rolling_summary_excerpt.clone(),
        unresolved: clone_strings(&sections.open_threads),
        resolved: clone_strings(&sections.completed_so_far),
        memory_refs: clone_strings(&cold_start.pinned_memory_ids),
    }
}

/// The domain of the session that continues a handoff: the source
/// session's, or `general` when the source session is gone.
pub open spec fn continued_domain(source: Option<SourceSession>) -> Seq<char> {
    match source {
        Some(src) => src.domain@,
        None => "general"@,
    }
}

/// Accepts the handoff `snap` on behalf of the user at `now`. A snapshot
/// already accepted or declined is refused and nothing changes. Otherwise
/// the source session (when it still exists) is archived, the snapshot is
/// frozen as accepted with `new_id` as its target, and the continued session
/// `new_id` is returned: active, in the source's domain, seeded from the
/// snapshot ([`continued_session`]).
pub fn accept(
    snap: &mut HandoffSnapshot,
    source: &mut Option<SourceSession>,
    new_id: &str,
    new_title: Option<&str>,
    now: i64,
) -> (r: Result<ContinuedSession, String>)
    ensures
        r is Ok <==> (old(snap).user_decision == HandoffDecision::Pending || old(snap).user_decision
            == HandoffDecision::Deferred),
        match r {
            Err(e) => {
                &&& e@ == "snapshot already finalised as "@ + handoff_decision_name(old(snap).user_decision)
                &&& *final(snap) == *old(snap)
                &&& *final(source) == *old(source)
            },
            Ok(c) => {
                &&& final(snap).user_decision == HandoffDecision::Accepted
                &&& opt_view(final(snap).target_session_id) == Some(new_id@)
                &&& final(snap).decided_at == Some(now)
                &&& final(snap).id == old(snap).id
                &&& final(snap).source_session_id == old(snap).source_session_id
                &&& final(snap).trace_id == old(snap).trace_id
                &&& final(snap).sections == old(snap).sections
                &&& final(snap).cold_start == old(snap).cold_start
                &&& final(snap).advisory_level == old(snap).advisory_level
                &&& final(snap).generated_at == old(snap).generated_at
                &&& match *old(source) {
                    Some(src) => *final(source) matches Some(after) && after.status == SessionStatus::Archived
                        && after.updated_at == now && after.id == src.id && after.domain == src.domain,
                    None => final(source).is_none(),
                }
                &&& c.id@ == new_id@
                &&& c.status == SessionStatus::Active
                &&& c.domain@ == continued_domain(*old(source))
                &&& c.created_at == now
                &&& c.title@ == match new_title {
                    Some(t) => t@,
                    None => continued_title(old(snap).sections.title@),
                }
                &&& c.summary@ == take_chars(old(snap).cold_start.rolling_summary_excerpt@, 200)
                &&& c.long_summary@ == old(snap).cold_start.rolling_summary_excerpt@
                &&& views(c.unresolved@) == views(old(snap).sections.open_threads@)
                &&& views(c.resolved@) == views(old(snap).sections.completed_so_far@)
                &&& views(c.memory_refs@) == views(old(snap).cold_start.pinned_memory_ids@)
            },
        },
{
    match check_acceptable(snap.user_decision) {
        Err(e) => {
            return Err(e);
        },
        Ok(()) => {},
    }
    let domain = match source {
        Some(src) => {
            src.status = SessionStatus::Archived;
            src.updated_at = now;
            src.domain.clone()
        },
        None => own("general"),
    };
    let continued = continued_session(&snap.sections, &snap.cold_start, new_title, new_id, domain.as_str(), now);
    snap.user_decision = HandoffDecision::Accepted;
    snap.target_session_id = Some(own(new_id));
    snap.decided_at = Some(now);
    Ok(continued)
}

/// Whether a status passes the pick for done (`done`) or open activity.
pub open spec fn picks(done: bool, s: Seq<char>) -> bool {
    if done {
        is_done_status(s)
    } else {
        is_open_status(s)
    }
}

/// The titles picked keep every activity whose status passes: each such
/// title is among them, each of them is such a title, and the first such
/// activity leads.
proof fn lemma_picked_titles(acts: Seq<ActivitySummary>, done: bool)
    ensures
        forall|i: int|
            0 <= i < acts.len() && picks(done, acts[i].status@) ==> titles_where(acts, done).contains(
                #[trigger] acts[i].title@,
            ),
        forall|x: Seq<char>|
            #[trigger] titles_where(acts, done).contains(x) ==> exists|i: int|
                0 <= i < acts.len() && picks(done, acts[i].status@) && acts[i].title@ == x,
        forall|i: int|
            0 <= i < acts.len() && picks(done, #[trigger] acts[i].status@) && (forall|j: int|
                0 <= j < i ==> !picks(done, acts[j].status@)) ==> titles_where(acts, done).len() > 0
                && titles_where(acts, done)[0] == acts[i].title@,
    decreases acts.len(),
{
    if acts.len() > 0 {
        let d = acts.drop_last();
        let last = acts.len() - 1;
        let w = titles_where(d, done);
        let tw = titles_where(acts, done);
        lemma_picked_titles(d, done);
        assert forall|i: int| 0 <= i < last implies #[trigger] acts[i] == d[i] by {}
        assert forall|i: int|
            0 <= i < acts.len() && picks(done, acts[i].status@) implies tw.contains(#[trigger] acts[i].title@) by {
            if i < last {
                assert(acts[i] == d[i]);
                assert(w.contains(d[i].title@));
                let p = choose|p: int| 0 <= p < w.len() && w[p] == d[i].title@;
                assert(tw[p] == w[p]);
            } else {
                assert(tw[tw.len() - 1] == acts[i].title@);
            }
        }
        assert forall|x: Seq<char>| #[trigger] tw.contains(x) implies exists|i: int|
            0 <= i < acts.len() && picks(done, acts[i].status@) && acts[i].title@ == x by {
            let p = choose|p: int| 0 <= p < tw.len() && tw[p] == x;
            if p < w.len() {
                assert(w[p] == x);
                assert(w.contains(x));
                let i = choose|i: int| 0 <= i < d.len() && picks(done, d[i].status@) && d[i].title@ == x;
                assert(acts[i] == d[i]);
            } else {
                assert(acts[last].title@ == x);
            }
        }
        assert forall|i: int|
            0 <= i < acts.len() && picks(done, #[trigger] acts[i].status@) && (forall|j: int|
                0 <= j < i ==> !picks(done, acts[j].status@)) implies tw.len() > 0 && tw[0] == acts[i].title@ by {
            if i < last {
                assert(d[i] == acts[i]);
                assert forall|j: int| 0 <= j < i implies !picks(done, d[j].status@) by {
                    assert(d[j] == acts[j]);
                }
                assert(picks(done, d[i].status@));
                assert(w.len() > 0 && w[0] == d[i].title@);
                assert(tw[0] == w[0]);
            } else {
                if w.len() > 0 {
                    assert(w.contains(w[0]));
                    let k = choose|k: int| 0 <= k < d.len() && picks(done, d[k].status@) && d[k].title@ == w[0];
                    assert(acts[k] == d[k]);
                    assert(!picks(done, acts[k].status@));
                }
                assert(tw[0] == acts[i].title@);
            }
        }
    }
}

/// The open threads of a handoff carry the open recent activity: the title
/// of every recent activity that is running, waiting for the user, pending
/// or suspended is among them; when there is such an activity they hold
/// only such titles; and the suggested first message continues the first
/// of them.
pub proof fn lemma_open_activity_carried(s: HandoffSections, c: HandoffColdStart, inputs: PlanInputs)
    requires
        planned(s, c, inputs),
    ensures
        forall|i: int|
            0 <= i < inputs.recent_activity@.len() && ({
                let st = inputs.recent_activity@[i].status@;
                st == "running"@ || st == "waiting_user"@ || st == "pending"@ || st == "suspended"@
            }) ==> views(s.open_threads@).contains(#[trigger] inputs.recent_activity@[i].title@),
        (exists|i: int|
            0 <= i < inputs.recent_activity@.len() && ({
                let st = #[trigger] inputs.recent_activity@[i].status@;
                st == "running"@ || st == "waiting_user"@ || st == "pending"@ || st == "suspended"@
            })) ==> forall|x: Seq<char>|
            #[trigger] views(s.open_threads@).contains(x) ==> exists|j: int|
                0 <= j < inputs.recent_activity@.len() && #[trigger] inputs.recent_activity@[j].title@ == x && ({
                    let st = inputs.recent_activity@[j].status@;
                    st == "running"@ || st == "waiting_user"@ || st == "pending"@ || st == "suspended"@
                }),
        forall|i: int|
            0 <= i < inputs.recent_activity@.len() && ({
                let st = inputs.recent_activity@[i].status@;
                st == "running"@ || st == "waiting_user"@ || st == "pending"@ || st == "suspended"@
            }) && (forall|j: int|
                0 <= j < i ==> !({
                    let st = #[trigger] inputs.recent_activity@[j].status@;
                    st == "running"@ || st == "waiting_user"@ || st == "pending"@ || st == "suspended"@
                })) ==> s.suggested_first_message@ == "继续 "@ + inputs.session_title@ + "："@
                + #[trigger] inputs.recent_activity@[i].title@,
{
    let acts = inputs.recent_activity@;
    lemma_picked_titles(acts, false);
    let tw = titles_where(acts, false);
    assert forall|i: int| 0 <= i < acts.len() && is_open_status(acts[i].status@) implies tw.len() > 0 by {
        assert(picks(false, acts[i].status@));
        assert(tw.contains(acts[i].title@));
    }
}

/// The completed list of a handoff carries the finished recent activity:
/// the title of every recent activity that succeeded, is done or is
/// completed is among it; when there is such an activity it holds only such
/// titles; and when no activity is open, the suggested first message builds
/// on the first finished one.
pub proof fn lemma_done_activity_carried(s: HandoffSections, c: HandoffColdStart, inputs: PlanInputs)
    requires
        planned(s, c, inputs),
    ensures
        forall|i: int|
            0 <= i < inputs.recent_activity@.len() && ({
                let st = inputs.recent_activity@[i].status@;
                st == "success"@ || st == "done"@ || st == "completed"@
            }) ==> views(s.completed_so_far@).contains(#[trigger] inputs.recent_activity@[i].title@),
        (exists|i: int|
            0 <= i < inputs.recent_activity@.len() && ({
                let st = #[trigger] inputs.recent_activity@[i].status@;
                st == "success"@ || st == "done"@ || st == "completed"@
            })) ==> forall|x: Seq<char>|
            #[trigger] views(s.completed_so_far@).contains(x) ==> exists|j: int|
                0 <= j < inputs.recent_activity@.len() && #[trigger] inputs.recent_activity@[j].title@ == x && ({
                    let st = inputs.recent_activity@[j].status@;
                    st == "success"@ || st == "done"@ || st == "completed"@
                }),
        forall|i: int|
            0 <= i < inputs.recent_activity@.len() && ({
                let st = inputs.recent_activity@[i].status@;
                st == "success"@ || st == "done"@ || st == "completed"@
            }) && (forall|j: int|
                0 <= j < i ==> !({
                    let st = #[trigger] inputs.recent_activity@[j].status@;
                    st == "success"@ || st == "done"@ || st == "completed"@
                })) && (forall|j: int|
                0 <= j < inputs.recent_activity@.len() ==> !({
                    let st = #[trigger] inputs.recent_activity@[j].status@;
                    st == "running"@ || st == "waiting_user"@ || st == "pending"@ || st == "suspended"@
                })) && inputs.session_unresolved@.len() == 0 ==> s.suggested_first_message@ == "基于上次「"@
                + #[trigger] inputs.recent_activity@[i].title@ + "」继续推进"@,
{
    let acts = inputs.recent_activity@;
    lemma_picked_titles(acts, true);
    lemma_picked_titles(acts, false);
    let tw = titles_where(acts, true);
    let to = titles_where(acts, false);
    assert forall|i: int| 0 <= i < acts.len() && is_done_status(acts[i].status@) implies tw.len() > 0 by {
        assert(picks(true, acts[i].status@));
        assert(tw.contains(acts[i].title@));
    }
    if to.len() > 0 {
        assert(to.contains(to[0]));
    }
}

} // verus!
