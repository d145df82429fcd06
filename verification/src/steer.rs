//! The steer protocol: users nudge a running sub-agent with directional
//! messages. Steers are throttled per sub-task, move through
//! pending → injected → acknowledged, and are checked for admissibility
//! before they are sent to an agent.

use vstd::prelude::*;

use crate::text::{chars_of, clone_opt, contains, lowercase, opt_view, own, seq_contains, str_eq, to_lowercase, trim, trim_chars};

verus! {

/// What a steer constrains.
#[derive(Debug, Clone, Copy, PartialEq, Eq, Structural)]
pub enum SteerScope {
    Direction,
    Constraint,
    Priority,
}

/// The wire name of each [`SteerScope`] value.
pub open spec fn steer_scope_name(x: SteerScope) -> Seq<char> {
    match x {
        SteerScope::Direction => "direction"@,
        SteerScope::Constraint => "constraint"@,
        SteerScope::Priority => "priority"@,
    }
}

/// The value a stored scope name reads back as: the variant whose wire
/// name is `s`, or `Constraint` for any other text.
pub open spec fn steer_scope_parsed(s: Seq<char>) -> SteerScope {
    if s == "direction"@ {
        SteerScope::Direction
    } else if s == "priority"@ {
        SteerScope::Priority
    } else {
        SteerScope::Constraint
    }
}

impl SteerScope {
    /// The wire name of the value.
    pub fn as_str(&self) -> (r: &'static str)
        ensures
            r@ == steer_scope_name(*self),
    {
        match self {
            SteerScope::Direction => "direction",
            SteerScope::Constraint => "constraint",
            SteerScope::Priority => "priority",
        }
    }

    /// Reads a stored scope name; unknown text gives `Constraint`.
    pub fn parse(s: &str) -> (r: Self)
        ensures
            r == steer_scope_parsed(s@),
    {
        if str_eq(s, "direction") {
            SteerScope::Direction
        } else if str_eq(s, "priority") {
            SteerScope::Priority
        } else {
            SteerScope::Constraint
        }
    }
}

/// Reading back the wire name of any scope gives that scope.
pub proof fn lemma_steer_scope_round_trip(x: SteerScope)
    ensures
        steer_scope_parsed(steer_scope_name(x)) == x,
{
    reveal_strlit("direction");
    reveal_strlit("constraint");
    reveal_strlit("priority");
    assert("direction"@.len() != "constraint"@.len());
    assert("direction"@ != "constraint"@);
    assert("direction"@.len() != "priority"@.len());
    assert("direction"@ != "priority"@);
    assert("constraint"@.len() != "priority"@.len());
    assert("constraint"@ != "priority"@);
}

/// When the agent takes a steer in.
#[derive(Debug, Clone, Copy, PartialEq, Eq, Structural)]
pub enum InjectAt {
    NextStep,
    NextToolCall,
    NextCheckpoint,
}

/// The wire name of each [`InjectAt`] value.
pub open spec fn inject_at_name(x: InjectAt) -> Seq<char> {
    match x {
        InjectAt::NextStep => "next_step"@,
        InjectAt::NextToolCall => "next_tool_call"@,
        InjectAt::NextCheckpoint => "next_checkpoint"@,
    }
}

/// The value a stored injection point reads back as: the variant whose
/// wire name is `s`, or `NextStep` for any other text.
pub open spec fn inject_at_parsed(s: Seq<char>) -> InjectAt {
    if s == "next_tool_call"@ {
        InjectAt::NextToolCall
    } else if s == "next_checkpoint"@ {
        InjectAt::NextCheckpoint
    } else {
        InjectAt::NextStep
    }
}

impl InjectAt {
    /// The wire name of the value.
    pub fn as_str(&self) -> (r: &'static str)
        ensures
            r@ == inject_at_name(*self),
    {
        match self {
            InjectAt::NextStep => "next_step",
            InjectAt::NextToolCall => "next_tool_call",
            InjectAt::NextCheckpoint => "next_checkpoint",
        }
    }

    /// Reads a stored injection point; unknown text gives `NextStep`.
    pub fn parse(s: &str) -> (r: Self)
        ensures
            r == inject_at_parsed(s@),
    {
        if str_eq(s, "next_tool_call") {
            InjectAt::NextToolCall
        } else if str_eq(s, "next_checkpoint") {
            InjectAt::NextCheckpoint
        } else {
            InjectAt::NextStep
        }
    }
}

/// Reading back the wire name of any injection point gives that point.
pub proof fn lemma_inject_at_round_trip(x: InjectAt)
    ensures
        inject_at_parsed(inject_at_name(x)) == x,
{
    reveal_strlit("next_step");
    reveal_strlit("next_tool_call");
    reveal_strlit("next_checkpoint");
    assert("next_step"@.len() != "next_tool_call"@.len());
    assert("next_step"@ != "next_tool_call"@);
    assert("next_step"@.len() != "next_checkpoint"@.len());
    assert("next_step"@ != "next_checkpoint"@);
    assert("next_tool_call"@.len() != "next_checkpoint"@.len());
    assert("next_tool_call"@ != "next_checkpoint"@);
}

/// Where a steer is in its lifecycle.
#[derive(Debug, Clone, Copy, PartialEq, Eq, Structural)]
pub enum SteerStatus {
    Pending,
    Injected,
    Acknowledged,
    Expired,
    Rejected,
}

/// The wire name of each [`SteerStatus`] value.
pub open spec fn steer_status_name(x: SteerStatus) -> Seq<char> {
    match x {
        SteerStatus::Pending => "pending"@,
        SteerStatus::Injected => "injected"@,
        SteerStatus::Acknowledged => "acknowledged"@,
        SteerStatus::Expired => "expired"@,
        SteerStatus::Rejected => "rejected"@,
    }
}

/// The value that `SteerStatus::parse` gives for `s`: the variant whose wire
/// name is `s`, or `Pending` for any other text.
pub open spec fn steer_status_parsed(s: Seq<char>) -> SteerStatus {
    if s == "pending"@ {
        SteerStatus::Pending
    } else if s == "injected"@ {
        SteerStatus::Injected
    } else if s == "acknowledged"@ {
        SteerStatus::Acknowledged
    } else if s == "expired"@ {
        SteerStatus::Expired
    } else if s == "rejected"@ {
        SteerStatus::Rejected
    } else {
        SteerStatus::Pending
    }
}

impl SteerStatus {
    /// The wire name of the value.
    pub fn as_str(&self) -> (r: &'static str)
        ensures
            r@ == steer_status_name(*self),
    {
        match self {
            SteerStatus::Pending => "pending",
            SteerStatus::Injected => "injected",
            SteerStatus::Acknowledged => "acknowledged",
            SteerStatus::Expired => "expired",
            SteerStatus::Rejected => "rejected",
        }
    }

    /// Reads a wire name; unknown text gives `Pending`.
    pub fn parse(s: &str) -> (r: Self)
        ensures
            r == steer_status_parsed(s@),
    {
        if str_eq(s, "pending") {
            SteerStatus::Pending
        } else if str_eq(s, "injected") {
            SteerStatus::Injected
        } else if str_eq(s, "acknowledged") {
            SteerStatus::Acknowledged
        } else if str_eq(s, "expired") {
            SteerStatus::Expired
        } else if str_eq(s, "rejected") {
            SteerStatus::Rejected
        } else {
            SteerStatus::Pending
        }
    }
}

/// Reading back the wire name of any value gives that value.
pub proof fn lemma_steer_status_round_trip(x: SteerStatus)
    ensures
        steer_status_parsed(steer_status_name(x)) == x,
{
    reveal_strlit("pending");
    reveal_strlit("injected");
    reveal_strlit("acknowledged");
    reveal_strlit("expired");
    reveal_strlit("rejected");
    assert("pending"@.len() != "injected"@.len());
    assert("pending"@ != "injected"@);
    assert("pending"@.len() != "acknowledged"@.len());
    assert("pending"@ != "acknowledged"@);
    assert("pending"@[0] != "expired"@[0]);
    assert("pending"@ != "expired"@);
    assert("pending"@.len() != "rejected"@.len());
    assert("pending"@ != "rejected"@);
    assert("injected"@.len() != "acknowledged"@.len());
    assert("injected"@ != "acknowledged"@);
    assert("injected"@.len() != "expired"@.len());
    assert("injected"@ != "expired"@);
    assert("injected"@[0] != "rejected"@[0]);
    assert("injected"@ != "rejected"@);
    assert("acknowledged"@.len() != "expired"@.len());
    assert("acknowledged"@ != "expired"@);
    assert("acknowledged"@.len() != "rejected"@.len());
    assert("acknowledged"@ != "rejected"@);
    assert("expired"@.len() != "rejected"@.len());
    assert("expired"@ != "rejected"@);
}

/// How an adapter hands a steer to the agent. Jarvis only ever sends `Append`.
#[derive(Debug, Clone, Copy, PartialEq, Eq, Structural)]
pub enum AdapterMode {
    Append,
    Override,
}

/// The wire name of each [`AdapterMode`] value.
pub open spec fn adapter_mode_name(x: AdapterMode) -> Seq<char> {
    match x {
        AdapterMode::Append => "append"@,
        AdapterMode::Override => "override"@,
    }
}

impl AdapterMode {
    /// The wire name of the value.
    pub fn as_str(&self) -> (r: &'static str)
        ensures
            r@ == adapter_mode_name(*self),
    {
        match self {
            AdapterMode::Append => "append",
            AdapterMode::Override => "override",
        }
    }
}

/// A steer signal. Timestamps are milliseconds since the Unix epoch.
#[derive(Debug, Clone)]
pub struct SteerSignal {
    pub id: String,
    pub session_id: String,
    pub sub_task_id: String,
    pub trace_id: Option<String>,
    pub content: String,
    pub scope: SteerScope,
    pub inject_at: InjectAt,
    pub status: SteerStatus,
    pub created_at: i64,
    pub injected_at: Option<i64>,
    pub acknowledged_at: Option<i64>,
}

/// What a caller asks to enqueue.
#[derive(Debug, Clone)]
pub struct EnqueueRequest {
    pub session_id: String,
    pub sub_task_id: String,
    pub trace_id: Option<String>,
    pub content: String,
    pub scope: SteerScope,
    pub inject_at: InjectAt,
}

/// The answer to an enqueue request.
#[derive(Debug)]
pub enum SteerEnqueueOutcome {
    Accepted(SteerSignal),
    /// Too many recent steers for the sub-task.
    RateLimited { recent_count: u32 },
}

/// The throttle: at most `max_per_window` steers per sub-task within the
/// last `window_ms` milliseconds.
#[derive(Debug, Clone, Copy)]
pub struct SteerPolicy {
    pub max_per_window: u32,
    pub window_ms: i64,
}

impl SteerPolicy {
    /// Three steers per sixty seconds.
    pub fn defaults() -> (r: Self)
        ensures
            r.max_per_window == 3,
            r.window_ms == 60_000,
    {
        SteerPolicy { max_per_window: 3, window_ms: 60_000 }
    }
}

/// Applies the steer policy.
#[derive(Debug, Clone, Copy)]
pub struct SteerController {
    pub policy: SteerPolicy,
}

/// `s` counts against `sub_task`'s throttle window ending at `now`.
pub open spec fn in_window(s: SteerSignal, sub_task: Seq<char>, window_start: int) -> bool {
    s.sub_task_id@ == sub_task && s.created_at >= window_start
}

/// The number of signals of `sub_task` created at or after `window_start`.
pub open spec fn recent_count(signals: Seq<SteerSignal>, sub_task: Seq<char>, window_start: int) -> nat
    decreases signals.len(),
{
    if signals.len() == 0 {
        0
    } else {
        recent_count(signals.drop_last(), sub_task, window_start) + if in_window(signals.last(), sub_task, window_start) {
            1nat
        } else {
            0nat
        }
    }
}

/// The signal `enqueue` creates from `req`.
pub open spec fn signal_from(s: SteerSignal, req: EnqueueRequest, id: Seq<char>, now: i64) -> bool {
    &&& s.id@ == id
    &&& s.session_id@ == req.session_id@
    &&& s.sub_task_id@ == req.sub_task_id@
    &&& opt_view(s.trace_id) == opt_view(req.trace_id)
    &&& s.content@ == req.content@
    &&& s.scope == req.scope
    &&& s.inject_at == req.inject_at
    &&& s.status == SteerStatus::Pending
    &&& s.created_at == now
    &&& s.injected_at.is_none()
    &&& s.acknowledged_at.is_none()
}

impl SteerController {
    /// A controller with the default policy.
    pub fn new() -> (r: Self)
        ensures
            r.policy.max_per_window == 3,
            r.policy.window_ms == 60_000,
    {
        SteerController { policy: SteerPolicy::defaults() }
    }

    /// A controller with `policy`.
    pub fn with_policy(policy: SteerPolicy) -> (r: Self)
        ensures
            r.policy == policy,
    {
        SteerController { policy }
    }

    /// The start of the throttle window ending at `now`.
    pub open spec fn window_start(&self, now: i64) -> int {
        now - self.policy.window_ms
    }

    /// How many of `signals` belong to `sub_task_id` and were created
    /// within the window ending at `now`.
    pub fn count_recent(&self, signals: &[SteerSignal], sub_task_id: &str, now: i64) -> (r: u32)
        requires
            signals@.len() <= u32::MAX,
        ensures
            r == recent_count(signals@, sub_task_id@, self.window_start(now)),
    {
        let start: i128 = now as i128 - self.policy.window_ms as i128;
        let mut n: u32 = 0;
        let mut i: usize = 0;
        while i < signals.len()
            invariant
                i <= signals.len(),
                signals@.len() <= u32::MAX,
                start == self.window_start(now),
                n == recent_count(signals@.take(i as int), sub_task_id@, start as int),
                n <= i,
            decreases signals.len() - i,
        {
            assert(signals@.take((i + 1) as int).drop_last() =~= signals@.take(i as int));
            if str_eq(signals[i].sub_task_id.as_str(), sub_task_id) && signals[i].created_at as i128 >= start {
                n = n + 1;
            }
            i = i + 1;
        }
        assert(signals@.take(i as int) =~= signals@);
        n
    }

    /// Decides an enqueue request given `recent` steers of the sub-task in
    /// the current window: rate-limited at `max_per_window`, otherwise a
    /// new pending signal `id` created at `now`.
    pub fn enqueue(&self, req: &EnqueueRequest, recent: u32, id: &str, now: i64) -> (r: SteerEnqueueOutcome)
        ensures
            recent >= self.policy.max_per_window ==> (r matches SteerEnqueueOutcome::RateLimited { recent_count } && recent_count == recent),
            recent < self.policy.max_per_window ==> (r matches SteerEnqueueOutcome::Accepted(s) && signal_from(s, *req, id@, now)),
    {
        if recent >= self.policy.max_per_window {
            return SteerEnqueueOutcome::RateLimited { recent_count: recent };
        }
        SteerEnqueueOutcome::Accepted(pending_signal(req, id, now))
    }
}

/// The pending signal `id` that `req` asks for, created at `now`.
fn pending_signal(req: &EnqueueRequest, id: &str, now: i64) -> (s: SteerSignal)
    ensures
        signal_from(s, *req, id@, now),
{
    SteerSignal {
        id: own(id),
        session_id: req.session_id.clone(),
        sub_task_id: req.sub_task_id.clone(),
        trace_id: clone_opt(&req.trace_id),
        content: req.content.clone(),
        scope: req.scope,
        inject_at: req.inject_at,
        status: SteerStatus::Pending,
        created_at: now,
        injected_at: None,
        acknowledged_at: None,
    }
}

/// Accepting a steer never takes a sub-task's window above the limit:
/// if the window holds at most `max_per_window` steers and the controller
/// accepts a new one (which needs fewer than the limit), the window with
/// the new steer still holds at most `max_per_window`.
pub proof fn lemma_throttle_bound(
    c: SteerController,
    signals: Seq<SteerSignal>,
    s: SteerSignal,
    now: i64,
)
    requires
        recent_count(signals, s.sub_task_id@, c.window_start(now)) < c.policy.max_per_window,
    ensures
        recent_count(signals.push(s), s.sub_task_id@, c.window_start(now)) <= c.policy.max_per_window,
{
    assert(signals.push(s).drop_last() =~= signals);
}

/// The status after an injection: pending becomes injected, any other
/// status stays.
pub open spec fn status_after_inject(s: SteerStatus) -> SteerStatus {
    if s == SteerStatus::Pending {
        SteerStatus::Injected
    } else {
        s
    }
}

/// The status after an acknowledgement: injected becomes acknowledged, any
/// other status stays.
pub open spec fn status_after_acknowledge(s: SteerStatus) -> SteerStatus {
    if s == SteerStatus::Injected {
        SteerStatus::Acknowledged
    } else {
        s
    }
}

/// The audit record of an accepted steer: which signal, for which session,
/// trace and sub-task, what it says and how it is to be injected.
#[derive(Debug, Clone)]
pub struct SteerAuditEvent {
    pub signal_id: String,
    pub session_id: String,
    pub trace_id: Option<String>,
    pub sub_task_id: String,
    pub content: String,
    pub scope: SteerScope,
    pub inject_at: InjectAt,
}

/// `e` records the acceptance of `s`.
pub open spec fn audits(e: SteerAuditEvent, s: SteerSignal) -> bool {
    &&& e.signal_id@ == s.id@
    &&& e.session_id@ == s.session_id@
    &&& opt_view(e.trace_id) == opt_view(s.trace_id)
    &&& e.sub_task_id@ == s.sub_task_id@
    &&& e.content@ == s.content@
    &&& e.scope == s.scope
    &&& e.inject_at == s.inject_at
}

/// The stored steer signals, oldest first, and the audit trail of the
/// accepted ones.
#[derive(Debug, Clone)]
pub struct SteerStore {
    pub signals: Vec<SteerSignal>,
    pub audit: Vec<SteerAuditEvent>,
}

impl SteerStore {
    /// A store with no signals and no audit records.
    pub fn new() -> (r: Self)
        ensures
            r.signals@.len() == 0,
            r.audit@.len() == 0,
    {
        SteerStore { signals: Vec::new(), audit: Vec::new() }
    }

    /// How many stored signals of `sub_task_id` fall in `ctrl`'s window
    /// ending at `now`.
    pub fn count_recent(&self, ctrl: &SteerController, sub_task_id: &str, now: i64) -> (r: u32)
        requires
            self.signals@.len() <= u32::MAX,
        ensures
            r == recent_count(self.signals@, sub_task_id@, ctrl.window_start(now)),
    {
        ctrl.count_recent(self.signals.as_slice(), sub_task_id, now)
    }

    /// The index of the oldest stored signal of `sub_task_id` waiting to be
    /// injected at `inject_at` ([`next_pending`]).
    pub fn next_pending(&self, sub_task_id: &str, inject_at: InjectAt) -> (r: Option<usize>)
        ensures
            match r {
                None => forall|j: int| 0 <= j < self.signals@.len() ==> !waiting(self.signals@[j], sub_task_id@, inject_at),
                Some(i) => is_next_pending(self.signals@, sub_task_id@, inject_at, i as int),
            },
    {
        next_pending(self.signals.as_slice(), sub_task_id, inject_at)
    }

    /// Enqueues `req` at `now` under `ctrl`'s throttle, counting the stored
    /// signals itself. When the sub-task already has `max_per_window`
    /// steers in the window the request is rate-limited and nothing is
    /// stored; otherwise the new pending signal `id` is stored and audited.
    pub fn enqueue(&mut self, ctrl: &SteerController, req: &EnqueueRequest, id: &str, now: i64) -> (r:
        SteerEnqueueOutcome)
        requires
            old(self).signals@.len() < u32::MAX,
        ensures
            ({
                let recent = recent_count(old(self).signals@, req.sub_task_id@, ctrl.window_start(now));
                &&& recent >= ctrl.policy.max_per_window ==> {
                    &&& r matches SteerEnqueueOutcome::RateLimited { recent_count } && recent_count == recent
                    &&& final(self).signals@ == old(self).signals@
                    &&& final(self).audit@ == old(self).audit@
                }
                &&& recent < ctrl.policy.max_per_window ==> {
                    &&& r matches SteerEnqueueOutcome::Accepted(s) && signal_from(s, *req, id@, now)
                    &&& final(self).signals@.len() == old(self).signals@.len() + 1
                    &&& final(self).signals@.drop_last() == old(self).signals@
                    &&& signal_from(final(self).signals@.last(), *req, id@, now)
                    &&& final(self).audit@.len() == old(self).audit@.len() + 1
                    &&& final(self).audit@.drop_last() == old(self).audit@
                    &&& audits(final(self).audit@.last(), final(self).signals@.last())
                    &&& waiting(final(self).signals@.last(), req.sub_task_id@, req.inject_at)
                    &&& ctrl.policy.window_ms >= 0 ==> recent_count(
                        final(self).signals@,
                        req.sub_task_id@,
                        ctrl.window_start(now),
                    ) == recent + 1
                }
            }),
    {
        let recent = ctrl.count_recent(self.signals.as_slice(), req.sub_task_id.as_str(), now);
        let outcome = ctrl.enqueue(req, recent, id, now);
        if recent < ctrl.policy.max_per_window {
            let ghost before = self.signals@;
            let ghost audit_before = self.audit@;
            let stored = pending_signal(req, id, now);
            let event = SteerAuditEvent {
                signal_id: stored.id.clone(),
                session_id: stored.session_id.clone(),
                trace_id: clone_opt(&stored.trace_id),
                sub_task_id: stored.sub_task_id.clone(),
                content: stored.content.clone(),
                scope: stored.scope,
                inject_at: stored.inject_at,
            };
            self.signals.push(stored);
            self.audit.push(event);
            proof {
                assert(self.signals@.drop_last() =~= before);
                assert(self.audit@.drop_last() =~= audit_before);
            }
        }
        outcome
    }
}

impl SteerSignal {
    /// A pending signal becomes injected at `now`; others are unchanged.
    pub fn mark_injected(&mut self, now: i64)
        ensures
            final(self).status == status_after_inject(old(self).status),
            old(self).status == SteerStatus::Pending ==> final(self).injected_at == Some(now),
            old(self).status != SteerStatus::Pending ==> final(self).injected_at == old(self).injected_at,
            final(self).acknowledged_at == old(self).acknowledged_at,
            final(self).id == old(self).id,
            final(self).created_at == old(self).created_at,
    {
        if self.status == SteerStatus::Pending {
            self.status = SteerStatus::Injected;
            self.injected_at = Some(now);
        }
    }

    /// An injected signal becomes acknowledged at `now`; others are unchanged.
    pub fn mark_acknowledged(&mut self, now: i64)
        ensures
            final(self).status == status_after_acknowledge(old(self).status),
            old(self).status == SteerStatus::Injected ==> final(self).acknowledged_at == Some(now),
            old(self).status != SteerStatus::Injected ==> final(self).acknowledged_at == old(self).acknowledged_at,
            final(self).injected_at == old(self).injected_at,
            final(self).id == old(self).id,
            final(self).created_at == old(self).created_at,
    {
        if self.status == SteerStatus::Injected {
            self.status = SteerStatus::Acknowledged;
            self.acknowledged_at = Some(now);
        }
    }
}

/// The position of a status along pending → injected → acknowledged.
pub open spec fn stage(s: SteerStatus) -> int {
    match s {
        SteerStatus::Pending => 0,
        SteerStatus::Injected => 1,
        SteerStatus::Acknowledged => 2,
        _ => 3,
    }
}

/// The lifecycle only moves forward: neither transition lowers a signal's
/// stage, and a pending signal cannot be acknowledged before it has been
/// injected.
pub proof fn lemma_steer_lifecycle_forward(before: SteerStatus)
    ensures
        stage(status_after_inject(before)) >= stage(before),
        stage(status_after_acknowledge(before)) >= stage(before),
        before == SteerStatus::Pending ==> status_after_acknowledge(before) == SteerStatus::Pending,
        status_after_acknowledge(status_after_inject(SteerStatus::Pending)) == SteerStatus::Acknowledged,
{
}

/// `s` waits to be injected at `at` for `sub_task`.
pub open spec fn waiting(s: SteerSignal, sub_task: Seq<char>, at: InjectAt) -> bool {
    s.sub_task_id@ == sub_task && s.status == SteerStatus::Pending && s.inject_at == at
}

/// `i` is the oldest waiting signal (the first among equally old ones).
pub open spec fn is_next_pending(signals: Seq<SteerSignal>, sub_task: Seq<char>, at: InjectAt, i: int) -> bool {
    &&& 0 <= i < signals.len()
    &&& waiting(signals[i], sub_task, at)
    &&& forall|j: int| 0 <= j < signals.len() && waiting(signals[j], sub_task, at) ==> signals[i].created_at <= signals[j].created_at
    &&& forall|j: int| 0 <= j < i && waiting(signals[j], sub_task, at) ==> signals[i].created_at < signals[j].created_at
}

/// The index of the oldest signal waiting to be injected at `inject_at`
/// for `sub_task_id`.
pub fn next_pending(signals: &[SteerSignal], sub_task_id: &str, inject_at: InjectAt) -> (r: Option<usize>)
    ensures
        match r {
            None => forall|j: int| 0 <= j < signals@.len() ==> !waiting(signals@[j], sub_task_id@, inject_at),
            Some(i) => is_next_pending(signals@, sub_task_id@, inject_at, i as int),
        },
{
    let mut best: Option<usize> = None;
    let mut i: usize = 0;
    while i < signals.len()
        invariant
            i <= signals.len(),
            match best {
                None => forall|j: int| 0 <= j < i ==> !waiting(signals@[j], sub_task_id@, inject_at),
                Some(b) => b < i && is_next_pending(signals@.take(i as int), sub_task_id@, inject_at, b as int),
            },
        decreases signals.len() - i,
    {
        let s = &signals[i];
        if str_eq(s.sub_task_id.as_str(), sub_task_id) && s.status == SteerStatus::Pending && s.inject_at == inject_at {
            match best {
                None => {
                    best = Some(i);
                },
                Some(b) => {
                    if s.created_at < signals[b].created_at {
                        best = Some(i);
                    }
                },
            }
        }
        i = i + 1;
        assert(signals@.take(i as int).take((i - 1) as int) =~= signals@.take((i - 1) as int));
    }
    assert(signals@.take(i as int) =~= signals@);
    best
}

/// What an adapter sends to the agent.
#[derive(Debug, Clone)]
pub struct AdapterPayload {
    pub message: String,
    pub mode: AdapterMode,
    pub scope: String,
    pub inject_at: String,
    pub source_signal_id: String,
}

impl AdapterPayload {
    /// The append-mode payload for `signal`.
    pub fn from_signal(signal: &SteerSignal) -> (r: Self)
        ensures
            r.message@ == signal.content@,
            r.mode == AdapterMode::Append,
            r.scope@ == steer_scope_name(signal.scope),
            r.inject_at@ == inject_at_name(signal.inject_at),
            r.source_signal_id@ == signal.id@,
    {
        AdapterPayload {
            message: signal.content.clone(),
            mode: AdapterMode::Append,
            scope: own(signal.scope.as_str()),
            inject_at: own(signal.inject_at.as_str()),
            source_signal_id: signal.id.clone(),
        }
    }
}

/// Why an adapter could not deliver a steer.
#[derive(Debug, Clone, PartialEq, Eq)]
pub enum AdapterError {
    Transport(String),
    Rejected(String),
}

/// Whether a steer may be sent: its content is not blank, it does not
/// try to override CONTEXT.md, and a constraint does not target
/// `tool_scope`. `Err` carries the reason.
pub open spec fn admissibility(content: Seq<char>, scope: SteerScope) -> Result<(), Seq<char>> {
    let lower = lowercase(content);
    if trim(content).len() == 0 {
        Err("steer content is empty"@)
    } else if seq_contains(lower, "override context.md"@) || seq_contains(lower, "覆盖 context.md"@)
        || seq_contains(lower, "覆盖context.md"@) {
        Err("attempt to override CONTEXT.md is forbidden"@)
    } else if scope == SteerScope::Constraint && (seq_contains(lower, "tool_scope"@) || seq_contains(
        lower,
        "修改 tool_scope"@,
    )) {
        Err("steer cannot modify tool_scope"@)
    } else {
        Ok(())
    }
}

fn has(hay: &Vec<char>, needle: &str) -> (r: bool)
    ensures
        r == seq_contains(hay@, needle@),
{
    let n = chars_of(needle);
    contains(hay, &n)
}

/// Checks a steer before it is sent ([`admissibility`]).
pub fn admissibility_check(signal: &SteerSignal) -> (r: Result<(), String>)
    ensures
        match r {
            Ok(()) => admissibility(signal.content@, signal.scope) is Ok,
            Err(e) => admissibility(signal.content@, signal.scope) == Err::<(), Seq<char>>(e@),
        },
{
    let content = chars_of(signal.content.as_str());
    let trimmed = trim_chars(&content);
    if trimmed.len() == 0 {
        return Err(own("steer content is empty"));
    }
    let lower_s = to_lowercase(signal.content.as_str());
    let lower = chars_of(lower_s.as_str());
    if has(&lower, "override context.md") || has(&lower, "覆盖 context.md") || has(&lower, "覆盖context.md") {
        return Err(own("attempt to override CONTEXT.md is forbidden"));
    }
    if signal.scope == SteerScope::Constraint && (has(&lower, "tool_scope") || has(&lower, "修改 tool_scope")) {
        return Err(own("steer cannot modify tool_scope"));
    }
    Ok(())
}

} // verus!
