//! Interrupts of running sub-agents: soft (checkpoint, then stop), hard
//! (stop now) and async (keep running, stop waiting). The controller keeps
//! the soft signals that are still waiting for a checkpoint and escalates
//! those that waited too long.

use vstd::prelude::*;

use crate::text::{own, push_str, str_eq, string_from_chars};

verus! {

/// The three kinds of interrupt.
#[derive(Debug, Clone, Copy, PartialEq, Eq, Structural)]
pub enum InterruptKind {
    Soft,
    Hard,
    Async,
}

/// The wire name of each [`InterruptKind`] value.
pub open spec fn interrupt_kind_name(x: InterruptKind) -> Seq<char> {
    match x {
        InterruptKind::Soft => "soft"@,
        InterruptKind::Hard => "hard"@,
        InterruptKind::Async => "async"@,
    }
}

impl InterruptKind {
    /// The wire name of the value.
    pub fn as_str(&self) -> (r: &'static str)
        ensures
            r@ == interrupt_kind_name(*self),
    {
        match self {
            InterruptKind::Soft => "soft",
            InterruptKind::Hard => "hard",
            InterruptKind::Async => "async",
        }
    }
}

/// What an interrupt call did.
#[derive(Debug, Clone, Copy, PartialEq, Eq, Structural)]
pub enum InterruptOutcome {
    /// The soft signal was recorded; the sub-agent is expected to
    /// checkpoint within the grace period.
    SoftAcked,
    /// The soft signal waited too long without a checkpoint and was turned
    /// into a hard interrupt.
    EscalatedToHard,
    /// The hard interrupt was applied and the channel closed.
    HardApplied,
    /// The channel was tagged async; the sub-agent keeps running.
    AsyncTagged,
}

/// Timing of soft interrupts, in milliseconds.
#[derive(Debug, Clone, Copy)]
pub struct InterruptPolicy {
    pub soft_grace_ms: u64,
    /// How long a soft signal may stay unacknowledged before it is
    /// escalated.
    pub soft_escalation_timeout_ms: u64,
}

impl InterruptPolicy {
    /// Ten seconds of grace; escalation after twenty.
    pub fn defaults() -> (r: Self)
        ensures
            r.soft_grace_ms == 10_000,
            r.soft_escalation_timeout_ms == 20_000,
    {
        InterruptPolicy { soft_grace_ms: 10_000, soft_escalation_timeout_ms: 20_000 }
    }
}

/// A soft signal still waiting for its checkpoint; `issued_at` is read from
/// a monotonic clock, in milliseconds.
#[derive(Debug, Clone)]
pub struct PendingSoft {
    pub sub_task_id: String,
    pub issued_at: u64,
}

/// How long ago `issued` was at `now` (never negative).
pub open spec fn age(issued: u64, now: u64) -> int {
    if now >= issued {
        now - issued
    } else {
        0
    }
}

/// The signal has waited at least `timeout`.
pub open spec fn timed_out(p: (Seq<char>, u64), now: u64, timeout: u64) -> bool {
    age(p.1, now) >= timeout
}

/// The signals of `s` that have not timed out, in order.
pub open spec fn still_waiting(s: Seq<(Seq<char>, u64)>, now: u64, timeout: u64) -> Seq<(Seq<char>, u64)>
    decreases s.len(),
{
    if s.len() == 0 {
        s
    } else if timed_out(s.last(), now, timeout) {
        still_waiting(s.drop_last(), now, timeout)
    } else {
        still_waiting(s.drop_last(), now, timeout).push(s.last())
    }
}

/// The sub-task ids of the signals of `s` that have timed out, in order.
pub open spec fn overdue(s: Seq<(Seq<char>, u64)>, now: u64, timeout: u64) -> Seq<Seq<char>>
    decreases s.len(),
{
    if s.len() == 0 {
        Seq::empty()
    } else if timed_out(s.last(), now, timeout) {
        overdue(s.drop_last(), now, timeout).push(s.last().0)
    } else {
        overdue(s.drop_last(), now, timeout)
    }
}

/// The signals of `s` that are not for `sub_task`, in order.
pub open spec fn without(s: Seq<(Seq<char>, u64)>, sub_task: Seq<char>) -> Seq<(Seq<char>, u64)>
    decreases s.len(),
{
    if s.len() == 0 {
        s
    } else if s.last().0 == sub_task {
        without(s.drop_last(), sub_task)
    } else {
        without(s.drop_last(), sub_task).push(s.last())
    }
}

/// The soft signals of a session that are waiting for a checkpoint, and the
/// policy that decides when they are escalated.
#[derive(Debug)]
pub struct InterruptController {
    policy: InterruptPolicy,
    pending: Vec<PendingSoft>,
}

impl InterruptController {
    /// The waiting signals as (sub-task id, issue time), oldest first.
    pub closed spec fn pending_view(&self) -> Seq<(Seq<char>, u64)> {
        self.pending@.map_values(|p: PendingSoft| (p.sub_task_id@, p.issued_at))
    }

    /// The policy in force.
    pub closed spec fn policy_view(&self) -> InterruptPolicy {
        self.policy
    }

    /// A controller with the default policy and nothing pending.
    pub fn new() -> (r: Self)
        ensures
            r.pending_view() == Seq::<(Seq<char>, u64)>::empty(),
            r.policy_view() == (InterruptPolicy { soft_grace_ms: 10_000, soft_escalation_timeout_ms: 20_000 }),
    {
        InterruptController { policy: InterruptPolicy::defaults(), pending: Vec::new() }
    }

    /// A controller with `policy` and nothing pending.
    pub fn with_policy(policy: InterruptPolicy) -> (r: Self)
        ensures
            r.pending_view() == Seq::<(Seq<char>, u64)>::empty(),
            r.policy_view() == policy,
    {
        InterruptController { policy, pending: Vec::new() }
    }

    /// The policy in force.
    pub fn policy(&self) -> (r: InterruptPolicy)
        ensures
            r == self.policy_view(),
    {
        self.policy
    }

    /// Records a soft interrupt of `sub_task_id` issued at `now`.
    pub fn soft(&mut self, sub_task_id: &str, now: u64) -> (r: InterruptOutcome)
        ensures
            r == InterruptOutcome::SoftAcked,
            final(self).pending_view() == old(self).pending_view().push((sub_task_id@, now)),
            final(self).policy_view() == old(self).policy_view(),
    {
        self.pending.push(PendingSoft { sub_task_id: own(sub_task_id), issued_at: now });
        proof {
            assert(self.pending@.map_values(|p: PendingSoft| (p.sub_task_id@, p.issued_at)) =~= old(
                self,
            ).pending@.map_values(|p: PendingSoft| (p.sub_task_id@, p.issued_at)).push((sub_task_id@, now)));
        }
        InterruptOutcome::SoftAcked
    }

    fn forget(&mut self, sub_task_id: &str)
        ensures
            final(self).pending_view() == without(old(self).pending_view(), sub_task_id@),
            final(self).policy_view() == old(self).policy_view(),
    {
        let ghost before = self.pending_view();
        let mut kept: Vec<PendingSoft> = Vec::new();
        let mut i: usize = 0;
        while i < self.pending.len()
            invariant
                i <= self.pending.len(),
                before == self.pending@.map_values(|p: PendingSoft| (p.sub_task_id@, p.issued_at)),
                kept@.map_values(|p: PendingSoft| (p.sub_task_id@, p.issued_at)) == without(
                    before.take(i as int),
                    sub_task_id@,
                ),
            decreases self.pending.len() - i,
        {
            let p = &self.pending[i];
            proof {
                assert(before.take(i + 1).drop_last() =~= before.take(i as int));
                assert(before.take(i + 1).last() == (p.sub_task_id@, p.issued_at));
            }
            if !str_eq(p.sub_task_id.as_str(), sub_task_id) {
                kept.push(PendingSoft { sub_task_id: p.sub_task_id.clone(), issued_at: p.issued_at });
                proof {
                    let ghost kv = kept@.map_values(|p: PendingSoft| (p.sub_task_id@, p.issued_at));
                    assert(kv =~= without(before.take(i as int), sub_task_id@).push(before[i as int]));
                }
            }
            i = i + 1;
        }
        proof {
            assert(before.take(i as int) =~= before);
        }
        self.pending = kept;
    }

    /// The sub-agent of `sub_task_id` saved its checkpoint: its waiting
    /// soft signals are dropped.
    pub fn acknowledge_soft(&mut self, sub_task_id: &str)
        ensures
            final(self).pending_view() == without(old(self).pending_view(), sub_task_id@),
            final(self).policy_view() == old(self).policy_view(),
    {
        self.forget(sub_task_id);
    }

    /// A hard interrupt of `sub_task_id`: its waiting soft signals are
    /// dropped (closing its channel and failing its node is the caller's
    /// part).
    pub fn hard(&mut self, sub_task_id: &str) -> (r: InterruptOutcome)
        ensures
            r == InterruptOutcome::HardApplied,
            final(self).pending_view() == without(old(self).pending_view(), sub_task_id@),
            final(self).policy_view() == old(self).policy_view(),
    {
        self.forget(sub_task_id);
        InterruptOutcome::HardApplied
    }

    /// An async tag leaves the waiting signals as they are.
    pub fn async_tag(&self) -> (r: InterruptOutcome)
        ensures
            r == InterruptOutcome::AsyncTagged,
    {
        InterruptOutcome::AsyncTagged
    }

    /// Takes out the soft signals that have waited at least the escalation
    /// timeout at `now` and returns their sub-task ids, oldest first; the
    /// others keep waiting. The caller applies a hard interrupt to each id
    /// returned.
    pub fn evaluate_pending(&mut self, now: u64) -> (r: Vec<String>)
        ensures
            r@.map_values(|s: String| s@) == overdue(
                old(self).pending_view(),
                now,
                old(self).policy_view().soft_escalation_timeout_ms,
            ),
            final(self).pending_view() == still_waiting(
                old(self).pending_view(),
                now,
                old(self).policy_view().soft_escalation_timeout_ms,
            ),
            final(self).policy_view() == old(self).policy_view(),
    {
        let ghost before = self.pending_view();
        let timeout = self.policy.soft_escalation_timeout_ms;
        let mut kept: Vec<PendingSoft> = Vec::new();
        let mut out: Vec<String> = Vec::new();
        let mut i: usize = 0;
        while i < self.pending.len()
            invariant
                i <= self.pending.len(),
                timeout == self.policy.soft_escalation_timeout_ms,
                before == self.pending@.map_values(|p: PendingSoft| (p.sub_task_id@, p.issued_at)),
                kept@.map_values(|p: PendingSoft| (p.sub_task_id@, p.issued_at)) == still_waiting(
                    before.take(i as int),
                    now,
                    timeout,
                ),
                out@.map_values(|s: String| s@) == overdue(before.take(i as int), now, timeout),
            decreases self.pending.len() - i,
        {
            let p = &self.pending[i];
            proof {
                assert(before.take(i + 1).drop_last() =~= before.take(i as int));
                assert(before.take(i + 1).last() == (p.sub_task_id@, p.issued_at));
            }
            let waited: u64 = if now >= p.issued_at {
                now - p.issued_at
            } else {
                0
            };
            if waited >= timeout {
                out.push(p.sub_task_id.clone());
                proof {
                    assert(out@.map_values(|s: String| s@) =~= overdue(before.take(i as int), now, timeout).push(
                        before[i as int].0,
                    ));
                }
            } else {
                kept.push(PendingSoft { sub_task_id: p.sub_task_id.clone(), issued_at: p.issued_at });
                proof {
                    let ghost kv = kept@.map_values(|p: PendingSoft| (p.sub_task_id@, p.issued_at));
                    assert(kv =~= still_waiting(before.take(i as int), now, timeout).push(before[i as int]));
                }
            }
            i = i + 1;
        }
        proof {
            assert(before.take(i as int) =~= before);
        }
        self.pending = kept;
        out
    }
}

/// Every signal is either escalated or still waiting after an evaluation:
/// none is lost and none is counted twice.
pub proof fn lemma_evaluation_partitions(s: Seq<(Seq<char>, u64)>, now: u64, timeout: u64)
    ensures
        still_waiting(s, now, timeout).len() + overdue(s, now, timeout).len() == s.len(),
        forall|i: int|
            0 <= i < still_waiting(s, now, timeout).len() ==> !timed_out(
                #[trigger] still_waiting(s, now, timeout)[i],
                now,
                timeout,
            ),
    decreases s.len(),
{
    if s.len() > 0 {
        lemma_evaluation_partitions(s.drop_last(), now, timeout);
    }
}

/// After a signal of `sub_task` is acknowledged (or the sub-task is
/// interrupted hard), no signal of that sub-task is left waiting.
pub proof fn lemma_forget_clears(s: Seq<(Seq<char>, u64)>, sub_task: Seq<char>)
    ensures
        forall|i: int| 0 <= i < without(s, sub_task).len() ==> (#[trigger] without(s, sub_task)[i]).0 != sub_task,
        without(s, sub_task).len() <= s.len(),
    decreases s.len(),
{
    if s.len() > 0 {
        lemma_forget_clears(s.drop_last(), sub_task);
    }
}

/// The audit record of an interrupt: a JSON object with the interrupt's
/// id, its sub-task, its kind and its timestamp.
pub open spec fn audit_record(id: Seq<char>, sub_task_id: Seq<char>, kind: InterruptKind, ts: Seq<char>) -> Seq<char> {
    "{\"id\":\""@ + id + "\",\"sub_task_id\":\""@ + sub_task_id + "\",\"kind\":\""@ + interrupt_kind_name(kind)
        + "\",\"ts\":\""@ + ts + "\"}"@
}

/// The audit record of an interrupt ([`audit_record`]).
pub fn audit_payload(id: &str, sub_task_id: &str, kind: InterruptKind, ts: &str) -> (r: String)
    ensures
        r@ == audit_record(id@, sub_task_id@, kind, ts@),
{
    let mut out: Vec<char> = Vec::new();
    push_str(&mut out, "{\"id\":\"");
    push_str(&mut out, id);
    push_str(&mut out, "\",\"sub_task_id\":\"");
    push_str(&mut out, sub_task_id);
    push_str(&mut out, "\",\"kind\":\"");
    push_str(&mut out, kind.as_str());
    push_str(&mut out, "\",\"ts\":\"");
    push_str(&mut out, ts);
    push_str(&mut out, "\"}");
    string_from_chars(&out)
}

} // verus!
