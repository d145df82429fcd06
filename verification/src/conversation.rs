//! The conversation bus: who owns the conversation in a session, the
//! sub-channels of running sub-tasks, and how a user message is routed
//! while sub-agents work.

use vstd::prelude::*;

use crate::text::{chars_of, contains, lowercase, opt_view, own, seq_contains, str_eq, to_lowercase};

verus! {

/// What the owning agent is doing with the user.
#[derive(Debug, Clone, Copy, PartialEq, Eq, Structural)]
pub enum InteractionMode {
    Listening,
    Executing,
    WaitingUser,
}

/// The wire name of each [`InteractionMode`] value.
pub open spec fn interaction_mode_name(x: InteractionMode) -> Seq<char> {
    match x {
        InteractionMode::Listening => "listening"@,
        InteractionMode::Executing => "executing"@,
        InteractionMode::WaitingUser => "waiting_user"@,
    }
}

/// The value that `InteractionMode::parse` gives for `s`: the variant whose wire
/// name is `s`, or `Listening` for any other text.
pub open spec fn interaction_mode_parsed(s: Seq<char>) -> InteractionMode {
    if s == "listening"@ {
        InteractionMode::Listening
    } else if s == "executing"@ {
        InteractionMode::Executing
    } else if s == "waiting_user"@ {
        InteractionMode::WaitingUser
    } else {
        InteractionMode::Listening
    }
}

impl InteractionMode {
    /// The wire name of the value.
    pub fn as_str(&self) -> (r: &'static str)
        ensures
            r@ == interaction_mode_name(*self),
    {
        match self {
            InteractionMode::Listening => "listening",
            InteractionMode::Executing => "executing",
            InteractionMode::WaitingUser => "waiting_user",
        }
    }

    /// Reads a wire name; unknown text gives `Listening`.
    pub fn parse(s: &str) -> (r: Self)
        ensures
            r == interaction_mode_parsed(s@),
    {
        if str_eq(s, "listening") {
            InteractionMode::Listening
        } else if str_eq(s, "executing") {
            InteractionMode::Executing
        } else if str_eq(s, "waiting_user") {
            InteractionMode::WaitingUser
        } else {
            InteractionMode::Listening
        }
    }
}

/// Reading back the wire name of any value gives that value.
pub proof fn lemma_interaction_mode_round_trip(x: InteractionMode)
    ensures
        interaction_mode_parsed(interaction_mode_name(x)) == x,
{
    reveal_strlit("listening");
    reveal_strlit("executing");
    reveal_strlit("waiting_user");
    assert("listening"@[0] != "executing"@[0]);
    assert("listening"@ != "executing"@);
    assert("listening"@.len() != "waiting_user"@.len());
    assert("listening"@ != "waiting_user"@);
    assert("executing"@.len() != "waiting_user"@.len());
    assert("executing"@ != "waiting_user"@);
}

/// Status of a sub-channel.
#[derive(Debug, Clone, Copy, PartialEq, Eq, Structural)]
pub enum SubChannelStatus {
    Running,
    WaitingUser,
    Suspended,
    Done,
}

/// The wire name of each [`SubChannelStatus`] value.
pub open spec fn sub_channel_status_name(x: SubChannelStatus) -> Seq<char> {
    match x {
        SubChannelStatus::Running => "running"@,
        SubChannelStatus::WaitingUser => "waiting_user"@,
        SubChannelStatus::Suspended => "suspended"@,
        SubChannelStatus::Done => "done"@,
    }
}

/// The value that `SubChannelStatus::parse` gives for `s`: the variant whose wire
/// name is `s`, or `Running` for any other text.
pub open spec fn sub_channel_status_parsed(s: Seq<char>) -> SubChannelStatus {
    if s == "running"@ {
        SubChannelStatus::Running
    } else if s == "waiting_user"@ {
        SubChannelStatus::WaitingUser
    } else if s == "suspended"@ {
        SubChannelStatus::Suspended
    } else if s == "done"@ {
        SubChannelStatus::Done
    } else {
        SubChannelStatus::Running
    }
}

impl SubChannelStatus {
    /// The wire name of the value.
    pub fn as_str(&self) -> (r: &'static str)
        ensures
            r@ == sub_channel_status_name(*self),
    {
        match self {
            SubChannelStatus::Running => "running",
            SubChannelStatus::WaitingUser => "waiting_user",
            SubChannelStatus::Suspended => "suspended",
            SubChannelStatus::Done => "done",
        }
    }

    /// Reads a wire name; unknown text gives `Running`.
    pub fn parse(s: &str) -> (r: Self)
        ensures
            r == sub_channel_status_parsed(s@),
    {
        if str_eq(s, "running") {
            SubChannelStatus::Running
        } else if str_eq(s, "waiting_user") {
            SubChannelStatus::WaitingUser
        } else if str_eq(s, "suspended") {
            SubChannelStatus::Suspended
        } else if str_eq(s, "done") {
            SubChannelStatus::Done
        } else {
            SubChannelStatus::Running
        }
    }
}

/// Reading back the wire name of any value gives that value.
pub proof fn lemma_sub_channel_status_round_trip(x: SubChannelStatus)
    ensures
        sub_channel_status_parsed(sub_channel_status_name(x)) == x,
{
    reveal_strlit("running");
    reveal_strlit("waiting_user");
    reveal_strlit("suspended");
    reveal_strlit("done");
    assert("running"@.len() != "waiting_user"@.len());
    assert("running"@ != "waiting_user"@);
    assert("running"@.len() != "suspended"@.len());
    assert("running"@ != "suspended"@);
    assert("running"@.len() != "done"@.len());
    assert("running"@ != "done"@);
    assert("waiting_user"@.len() != "suspended"@.len());
    assert("waiting_user"@ != "suspended"@);
    assert("waiting_user"@.len() != "done"@.len());
    assert("waiting_user"@ != "done"@);
    assert("suspended"@.len() != "done"@.len());
    assert("suspended"@ != "done"@);
}

/// How costly it is to interrupt a sub-channel.
#[derive(Debug, Clone, Copy, PartialEq, Eq, Structural)]
pub enum InterruptCost {
    Free,
    Low,
    High,
}

/// The wire name of each [`InterruptCost`] value.
pub open spec fn interrupt_cost_name(x: InterruptCost) -> Seq<char> {
    match x {
        InterruptCost::Free => "free"@,
        InterruptCost::Low => "low"@,
        InterruptCost::High => "high"@,
    }
}

/// The value that `InterruptCost::parse` gives for `s`: the variant whose wire
/// name is `s`, or `Low` for any other text.
pub open spec fn interrupt_cost_parsed(s: Seq<char>) -> InterruptCost {
    if s == "free"@ {
        InterruptCost::Free
    } else if s == "high"@ {
        InterruptCost::High
    } else {
        InterruptCost::Low
    }
}

impl InterruptCost {
    /// The wire name of the value.
    pub fn as_str(&self) -> (r: &'static str)
        ensures
            r@ == interrupt_cost_name(*self),
    {
        match self {
            InterruptCost::Free => "free",
            InterruptCost::Low => "low",
            InterruptCost::High => "high",
        }
    }

    /// Reads a wire name; unknown text gives `Low`.
    pub fn parse(s: &str) -> (r: Self)
        ensures
            r == interrupt_cost_parsed(s@),
    {
        if str_eq(s, "free") {
            InterruptCost::Free
        } else if str_eq(s, "high") {
            InterruptCost::High
        } else {
            InterruptCost::Low
        }
    }
}

/// Reading back the wire name of any value gives that value.
pub proof fn lemma_interrupt_cost_round_trip(x: InterruptCost)
    ensures
        interrupt_cost_parsed(interrupt_cost_name(x)) == x,
{
    reveal_strlit("free");
    reveal_strlit("low");
    reveal_strlit("high");
    assert("free"@.len() != "low"@.len());
    assert("free"@ != "low"@);
    assert("free"@[0] != "high"@[0]);
    assert("free"@ != "high"@);
    assert("low"@.len() != "high"@.len());
    assert("low"@ != "high"@);
}

/// Who owns the conversation of a session. Timestamps are milliseconds
/// since the Unix epoch; `released_at` is `None` while the ownership is
/// active.
#[derive(Debug, Clone)]
pub struct OwnershipRecord {
    pub id: String,
    pub session_id: String,
    pub agent_id: String,
    pub agent_type: String,
    pub sub_task_id: Option<String>,
    pub interaction_mode: InteractionMode,
    pub acquired_at: i64,
    pub released_at: Option<i64>,
}

fn copy_opt(s: &Option<String>) -> (r: Option<String>)
    ensures
        r == *s,
{
    match s {
        Some(x) => Some(x.clone()),
        None => None,
    }
}

fn copy_record(r: &OwnershipRecord) -> (c: OwnershipRecord)
    ensures
        c == *r,
{
    OwnershipRecord {
        id: r.id.clone(),
        session_id: r.session_id.clone(),
        agent_id: r.agent_id.clone(),
        agent_type: r.agent_type.clone(),
        sub_task_id: copy_opt(&r.sub_task_id),
        interaction_mode: r.interaction_mode,
        acquired_at: r.acquired_at,
        released_at: r.released_at,
    }
}

/// The ownership history of all sessions.
#[derive(Debug)]
pub struct OwnershipLedger {
    records: Vec<OwnershipRecord>,
}

/// Record `r` is an active ownership of `session`.
pub open spec fn active_in(r: OwnershipRecord, session: Seq<char>) -> bool {
    r.session_id@ == session && r.released_at.is_none()
}

impl OwnershipLedger {
    /// The records, oldest first.
    pub closed spec fn records_view(&self) -> Seq<OwnershipRecord> {
        self.records@
    }

    /// Each session has at most one active ownership.
    pub open spec fn single_owner(&self) -> bool {
        forall|i: int, j: int|
            0 <= i < self.records_view().len() && 0 <= j < self.records_view().len() && i != j
                && self.records_view()[i].released_at.is_none() && self.records_view()[j].released_at.is_none()
                ==> self.records_view()[i].session_id@ != self.records_view()[j].session_id@
    }

    /// An empty ledger.
    pub fn new() -> (r: Self)
        ensures
            r.records_view().len() == 0,
            r.single_owner(),
    {
        OwnershipLedger { records: Vec::new() }
    }

    /// Gives `agent_id` the conversation of `session_id` at `now` as
    /// ownership `id`; every active ownership of the session is released
    /// at `now` first.
    pub fn acquire_ownership(
        &mut self,
        id: &str,
        session_id: &str,
        agent_id: &str,
        agent_type: &str,
        sub_task_id: Option<&str>,
        mode: InteractionMode,
        now: i64,
    ) -> (r: OwnershipRecord)
        requires
            old(self).single_owner(),
        ensures
            final(self).single_owner(),
            final(self).records_view().len() == old(self).records_view().len() + 1,
            forall|k: int| 0 <= k < old(self).records_view().len() ==> {
                let a = old(self).records_view()[k];
                let b = #[trigger] final(self).records_view()[k];
                &&& b.id == a.id
                &&& b.session_id == a.session_id
                &&& b.agent_id == a.agent_id
                &&& b.acquired_at == a.acquired_at
                &&& b.released_at == if active_in(a, session_id@) { Some(now) } else { a.released_at }
            },
            final(self).records_view().last() == r,
            r.id@ == id@,
            r.session_id@ == session_id@,
            r.agent_id@ == agent_id@,
            r.agent_type@ == agent_type@,
            opt_view(r.sub_task_id) == match sub_task_id { Some(s) => Some(s@), None => None },
            r.interaction_mode == mode,
            r.acquired_at == now,
            r.released_at.is_none(),
    {
        let ghost before = self.records@;
        let mut i: usize = 0;
        while i < self.records.len()
            invariant
                i <= self.records.len(),
                self.records@.len() == before.len(),
                forall|k: int| 0 <= k < before.len() ==> {
                    let a = before[k];
                    let b = #[trigger] self.records@[k];
                    &&& b.id == a.id
                    &&& b.session_id == a.session_id
                    &&& b.agent_id == a.agent_id
                    &&& b.acquired_at == a.acquired_at
                    &&& b.agent_type == a.agent_type
                    &&& b.released_at == if k < i && active_in(a, session_id@) { Some(now) } else { a.released_at }
                },
            decreases self.records.len() - i,
        {
            if str_eq(self.records[i].session_id.as_str(), session_id) && self.records[i].released_at.is_none() {
                let mut rec = copy_record(&self.records[i]);
                rec.released_at = Some(now);
                self.records.set(i, rec);
            }
            i = i + 1;
        }
        let r = OwnershipRecord {
            id: own(id),
            session_id: own(session_id),
            agent_id: own(agent_id),
            agent_type: own(agent_type),
            sub_task_id: match sub_task_id {
                Some(s) => Some(own(s)),
                None => None,
            },
            interaction_mode: mode,
            acquired_at: now,
            released_at: None,
        };
        let ghost mid = self.records@;
        self.records.push(copy_record(&r));
        assert(self.records@[mid.len() as int] == r);
        assert forall|a: int, b: int|
            0 <= a < self.records@.len() && 0 <= b < self.records@.len() && a != b
                && self.records@[a].released_at.is_none() && self.records@[b].released_at.is_none()
            implies self.records@[a].session_id@ != self.records@[b].session_id@ by {
            if a < mid.len() && b < mid.len() {
                assert(before[a].released_at.is_none());
                assert(before[b].released_at.is_none());
            }
        }
        r
    }

    /// The active ownership of `session_id`, if any.
    pub fn current_ownership(&self, session_id: &str) -> (r: Option<OwnershipRecord>)
        ensures
            match r {
                None => forall|k: int| 0 <= k < self.records_view().len() ==> !active_in(self.records_view()[k], session_id@),
                Some(x) => exists|k: int| 0 <= k < self.records_view().len() && active_in(self.records_view()[k], session_id@)
                    && x == self.records_view()[k],
            },
    {
        let mut i: usize = 0;
        while i < self.records.len()
            invariant
                i <= self.records.len(),
                forall|k: int| 0 <= k < i ==> !active_in(self.records@[k], session_id@),
            decreases self.records.len() - i,
        {
            if str_eq(self.records[i].session_id.as_str(), session_id) && self.records[i].released_at.is_none() {
                assert(active_in(self.records_view()[i as int], session_id@));
                return Some(copy_record(&self.records[i]));
            }
            i = i + 1;
        }
        None
    }

    /// Releases ownership `ownership_id` at `now` if it is still active.
    pub fn release_ownership(&mut self, ownership_id: &str, now: i64)
        requires
            old(self).single_owner(),
        ensures
            final(self).single_owner(),
            final(self).records_view().len() == old(self).records_view().len(),
            forall|k: int| 0 <= k < old(self).records_view().len() ==> {
                let a = old(self).records_view()[k];
                let b = #[trigger] final(self).records_view()[k];
                &&& b.id == a.id
                &&& b.session_id == a.session_id
                &&& b.released_at == if a.id@ == ownership_id@ && a.released_at.is_none() { Some(now) } else { a.released_at }
            },
    {
        let ghost before = self.records@;
        let mut i: usize = 0;
        while i < self.records.len()
            invariant
                i <= self.records.len(),
                self.records@.len() == before.len(),
                forall|k: int| 0 <= k < before.len() ==> {
                    let a = before[k];
                    let b = #[trigger] self.records@[k];
                    &&& b.id == a.id
                    &&& b.session_id == a.session_id
                    &&& b.released_at == if k < i && a.id@ == ownership_id@ && a.released_at.is_none() { Some(now) } else { a.released_at }
                },
            decreases self.records.len() - i,
        {
            if str_eq(self.records[i].id.as_str(), ownership_id) && self.records[i].released_at.is_none() {
                let mut rec = copy_record(&self.records[i]);
                rec.released_at = Some(now);
                self.records.set(i, rec);
            }
            i = i + 1;
        }
        assert forall|a: int, b: int|
            0 <= a < self.records@.len() && 0 <= b < self.records@.len() && a != b
                && self.records@[a].released_at.is_none() && self.records@[b].released_at.is_none()
            implies self.records@[a].session_id@ != self.records@[b].session_id@ by {
            assert(before[a].released_at.is_none());
            assert(before[b].released_at.is_none());
        }
    }
}

/// Right after `agent` acquires a session, it is the session's only
/// active owner.
pub proof fn lemma_acquire_makes_sole_owner(l: OwnershipLedger, session: Seq<char>)
    requires
        l.single_owner(),
        l.records_view().len() > 0,
        active_in(l.records_view().last(), session),
    ensures
        forall|k: int| 0 <= k < l.records_view().len() - 1 ==> !active_in(l.records_view()[k], session),
{
    let n = l.records_view().len() - 1;
    assert forall|k: int| 0 <= k < l.records_view().len() - 1 implies !active_in(l.records_view()[k], session) by {
        if active_in(l.records_view()[k], session) {
            assert(l.records_view()[n].released_at.is_none());
        }
    }
}

/// The sub-channel of a running sub-task. Timestamps are milliseconds
/// since the Unix epoch.
#[derive(Debug, Clone)]
pub struct SubChannel {
    pub id: String,
    pub session_id: String,
    pub sub_task_id: String,
    pub agent_id: Option<String>,
    pub agent_type: Option<String>,
    pub status: SubChannelStatus,
    pub can_interrupt: bool,
    pub interrupt_cost: InterruptCost,
    pub tentacle_path: Option<String>,
    pub created_at: i64,
    pub updated_at: i64,
}

impl SubChannel {
    /// A newly opened channel `id`: running, interruptible at low cost.
    pub fn open(id: &str, session_id: &str, sub_task_id: &str, agent_type: &str, tentacle_path: Option<&str>, now: i64) -> (r: Self)
        ensures
            r.id@ == id@,
            r.session_id@ == session_id@,
            r.sub_task_id@ == sub_task_id@,
            r.agent_id.is_none(),
            opt_view(r.agent_type) == Some(agent_type@),
            r.status == SubChannelStatus::Running,
            r.can_interrupt,
            r.interrupt_cost == InterruptCost::Low,
            opt_view(r.tentacle_path) == match tentacle_path { Some(t) => Some(t@), None => None },
            r.created_at == now,
            r.updated_at == now,
    {
        SubChannel {
            id: own(id),
            session_id: own(session_id),
            sub_task_id: own(sub_task_id),
            agent_id: None,
            agent_type: Some(own(agent_type)),
            status: SubChannelStatus::Running,
            can_interrupt: true,
            interrupt_cost: InterruptCost::Low,
            tentacle_path: match tentacle_path {
                Some(t) => Some(own(t)),
                None => None,
            },
            created_at: now,
            updated_at: now,
        }
    }

    /// Moves the channel to `status` at `now`.
    pub fn set_status(&mut self, status: SubChannelStatus, now: i64)
        ensures
            final(self).status == status,
            final(self).updated_at == now,
            final(self).id == old(self).id,
            final(self).session_id == old(self).session_id,
            final(self).sub_task_id == old(self).sub_task_id,
            final(self).agent_id == old(self).agent_id,
            final(self).agent_type == old(self).agent_type,
            final(self).can_interrupt == old(self).can_interrupt,
            final(self).interrupt_cost == old(self).interrupt_cost,
            final(self).tentacle_path == old(self).tentacle_path,
            final(self).created_at == old(self).created_at,
    {
        self.status = status;
        self.updated_at = now;
    }

    /// The channel still counts as active (not done).
    pub fn is_active(&self) -> (r: bool)
        ensures
            r == (self.status != SubChannelStatus::Done),
    {
        self.status != SubChannelStatus::Done
    }
}

/// Where a user message goes while sub-agents work.
#[derive(Debug, Clone, Copy, PartialEq, Eq, Structural)]
pub enum UserMessageRoute {
    Interrupt,
    Steer,
    ProgressQuery,
    Normal,
}

/// The phrases that interrupt, matched in the lowercased message.
pub open spec fn interrupt_phrases() -> Seq<Seq<char>> {
    seq!["停一下"@, "先暂停"@, "取消"@, "stop"@, "cancel"@, "等等"@]
}

/// The phrases that ask for progress, matched in the lowercased message.
pub open spec fn progress_phrases() -> Seq<Seq<char>> {
    seq!["做到哪了"@, "进度"@, "还要多久"@, "在干什么"@, "status"@]
}

/// The phrases that steer, matched in the message as written.
pub open spec fn steer_phrases() -> Seq<Seq<char>> {
    seq!["记得"@, "注意"@, "顺便"@, "对了"@, "另外"@, "别忘了"@, "不要改"@, "保持"@]
}

/// One of `phrases` occurs in `text`.
pub open spec fn mentions_any(text: Seq<char>, phrases: Seq<Seq<char>>) -> bool {
    exists|i: int| 0 <= i < phrases.len() && seq_contains(text, phrases[i])
}

/// The route of a message: interrupt phrases win over steer phrases, which
/// win over progress queries; anything else is a normal message.
pub open spec fn route_of(content: Seq<char>) -> UserMessageRoute {
    if mentions_any(lowercase(content), interrupt_phrases()) {
        UserMessageRoute::Interrupt
    } else if mentions_any(content, steer_phrases()) {
        UserMessageRoute::Steer
    } else if mentions_any(lowercase(content), progress_phrases()) {
        UserMessageRoute::ProgressQuery
    } else {
        UserMessageRoute::Normal
    }
}

/// Some phrase of `phrases` occurs in `text`.
pub fn contains_any(text: &Vec<char>, phrases: &[&str]) -> (r: bool)
    ensures
        r == mentions_any(text@, crate::text::str_views(phrases@)),
{
    let mut i: usize = 0;
    while i < phrases.len()
        invariant
            i <= phrases.len(),
            forall|j: int| 0 <= j < i ==> !seq_contains(text@, #[trigger] crate::text::str_views(phrases@)[j]),
        decreases phrases.len() - i,
    {
        let p = chars_of(phrases[i]);
        if contains(text, &p) {
            assert(seq_contains(text@, crate::text::str_views(phrases@)[i as int]));
            return true;
        }
        i = i + 1;
    }
    false
}

/// Routes user messages while sub-agents work.
#[derive(Debug, Clone, Copy)]
pub struct ConversationBus;

impl ConversationBus {
    /// A message router.
    pub fn new() -> (r: Self) {
        ConversationBus
    }

    /// Routes a user message ([`route_of`]) without acting on it.
    pub fn classify_user_message(&self, content: &str) -> (r: UserMessageRoute)
        ensures
            r == route_of(content@),
    {
        let lower_s = to_lowercase(content);
        let lower = chars_of(lower_s.as_str());
        let interrupt: [&str; 6] = ["停一下", "先暂停", "取消", "stop", "cancel", "等等"];
        assert(crate::text::str_views(interrupt@) =~= interrupt_phrases());
        if contains_any(&lower, &interrupt) {
            return UserMessageRoute::Interrupt;
        }
        let steer: [&str; 8] = ["记得", "注意", "顺便", "对了", "另外", "别忘了", "不要改", "保持"];
        assert(crate::text::str_views(steer@) =~= steer_phrases());
        let text = chars_of(content);
        if contains_any(&text, &steer) {
            return UserMessageRoute::Steer;
        }
        let progress: [&str; 5] = ["做到哪了", "进度", "还要多久", "在干什么", "status"];
        assert(crate::text::str_views(progress@) =~= progress_phrases());
        if contains_any(&lower, &progress) {
            return UserMessageRoute::ProgressQuery;
        }
        UserMessageRoute::Normal
    }
}

/// A message is routed as an interrupt exactly when its lowercased text
/// contains one of 停一下, 先暂停, 取消, stop, cancel or 等等.
pub proof fn lemma_interrupt_words(content: Seq<char>)
    ensures
        route_of(content) == UserMessageRoute::Interrupt <==> {
            let l = lowercase(content);
            ||| seq_contains(l, "停一下"@)
            ||| seq_contains(l, "先暂停"@)
            ||| seq_contains(l, "取消"@)
            ||| seq_contains(l, "stop"@)
            ||| seq_contains(l, "cancel"@)
            ||| seq_contains(l, "等等"@)
        },
{
    lemma_interrupt_phrases(content);
}

/// The lowercased text contains one of the interrupt words.
proof fn lemma_interrupt_phrases(content: Seq<char>)
    ensures
        mentions_any(lowercase(content), interrupt_phrases()) <==> {
            let l = lowercase(content);
            ||| seq_contains(l, "停一下"@)
            ||| seq_contains(l, "先暂停"@)
            ||| seq_contains(l, "取消"@)
            ||| seq_contains(l, "stop"@)
            ||| seq_contains(l, "cancel"@)
            ||| seq_contains(l, "等等"@)
        },
{
    let l = lowercase(content);
    let p = interrupt_phrases();
    assert(p.len() == 6);
    assert(p[0] == "停一下"@);
    assert(p[1] == "先暂停"@);
    assert(p[2] == "取消"@);
    assert(p[3] == "stop"@);
    assert(p[4] == "cancel"@);
    assert(p[5] == "等等"@);
    if mentions_any(l, p) {
        let i = choose|i: int| 0 <= i < p.len() && seq_contains(l, p[i]);
        assert(0 <= i < 6);
    }
    if seq_contains(l, "停一下"@) {
        assert(seq_contains(l, p[0]));
    }
    if seq_contains(l, "先暂停"@) {
        assert(seq_contains(l, p[1]));
    }
    if seq_contains(l, "取消"@) {
        assert(seq_contains(l, p[2]));
    }
    if seq_contains(l, "stop"@) {
        assert(seq_contains(l, p[3]));
    }
    if seq_contains(l, "cancel"@) {
        assert(seq_contains(l, p[4]));
    }
    if seq_contains(l, "等等"@) {
        assert(seq_contains(l, p[5]));
    }
}

/// The text as written contains one of the steer words.
proof fn lemma_steer_phrases(content: Seq<char>)
    ensures
        mentions_any(content, steer_phrases()) <==> {
            ||| seq_contains(content, "记得"@)
            ||| seq_contains(content, "注意"@)
            ||| seq_contains(content, "顺便"@)
            ||| seq_contains(content, "对了"@)
            ||| seq_contains(content, "另外"@)
            ||| seq_contains(content, "别忘了"@)
            ||| seq_contains(content, "不要改"@)
            ||| seq_contains(content, "保持"@)
        },
{
    let p = steer_phrases();
    assert(p.len() == 8);
    assert(p[0] == "记得"@);
    assert(p[1] == "注意"@);
    assert(p[2] == "顺便"@);
    assert(p[3] == "对了"@);
    assert(p[4] == "另外"@);
    assert(p[5] == "别忘了"@);
    assert(p[6] == "不要改"@);
    assert(p[7] == "保持"@);
    if mentions_any(content, p) {
        let i = choose|i: int| 0 <= i < p.len() && seq_contains(content, p[i]);
        assert(0 <= i < 8);
    }
    if seq_contains(content, "记得"@) {
        assert(seq_contains(content, p[0]));
    }
    if seq_contains(content, "注意"@) {
        assert(seq_contains(content, p[1]));
    }
    if seq_contains(content, "顺便"@) {
        assert(seq_contains(content, p[2]));
    }
    if seq_contains(content, "对了"@) {
        assert(seq_contains(content, p[3]));
    }
    if seq_contains(content, "另外"@) {
        assert(seq_contains(content, p[4]));
    }
    if seq_contains(content, "别忘了"@) {
        assert(seq_contains(content, p[5]));
    }
    if seq_contains(content, "不要改"@) {
        assert(seq_contains(content, p[6]));
    }
    if seq_contains(content, "保持"@) {
        assert(seq_contains(content, p[7]));
    }
}

/// The lowercased text contains one of the progress words.
proof fn lemma_progress_phrases(content: Seq<char>)
    ensures
        mentions_any(lowercase(content), progress_phrases()) <==> {
            let l = lowercase(content);
            ||| seq_contains(l, "做到哪了"@)
            ||| seq_contains(l, "进度"@)
            ||| seq_contains(l, "还要多久"@)
            ||| seq_contains(l, "在干什么"@)
            ||| seq_contains(l, "status"@)
        },
{
    let l = lowercase(content);
    let p = progress_phrases();
    assert(p.len() == 5);
    assert(p[0] == "做到哪了"@);
    assert(p[1] == "进度"@);
    assert(p[2] == "还要多久"@);
    assert(p[3] == "在干什么"@);
    assert(p[4] == "status"@);
    if mentions_any(l, p) {
        let i = choose|i: int| 0 <= i < p.len() && seq_contains(l, p[i]);
        assert(0 <= i < 5);
    }
    if seq_contains(l, "做到哪了"@) {
        assert(seq_contains(l, p[0]));
    }
    if seq_contains(l, "进度"@) {
        assert(seq_contains(l, p[1]));
    }
    if seq_contains(l, "还要多久"@) {
        assert(seq_contains(l, p[2]));
    }
    if seq_contains(l, "在干什么"@) {
        assert(seq_contains(l, p[3]));
    }
    if seq_contains(l, "status"@) {
        assert(seq_contains(l, p[4]));
    }
}

/// Without an interrupt word, a message is a steer exactly when it contains
/// one of 记得, 注意, 顺便, 对了, 另外, 别忘了, 不要改 or 保持 as written;
/// otherwise it is a progress query exactly when its lowercased text
/// contains one of 做到哪了, 进度, 还要多久, 在干什么 or status; anything else
/// is a normal message.
pub proof fn lemma_steer_and_progress_words(content: Seq<char>)
    requires
        route_of(content) != UserMessageRoute::Interrupt,
    ensures
        route_of(content) == UserMessageRoute::Steer <==> {
            ||| seq_contains(content, "记得"@)
            ||| seq_contains(content, "注意"@)
            ||| seq_contains(content, "顺便"@)
            ||| seq_contains(content, "对了"@)
            ||| seq_contains(content, "另外"@)
            ||| seq_contains(content, "别忘了"@)
            ||| seq_contains(content, "不要改"@)
            ||| seq_contains(content, "保持"@)
        },
        route_of(content) == UserMessageRoute::ProgressQuery <==> !({
            ||| seq_contains(content, "记得"@)
            ||| seq_contains(content, "注意"@)
            ||| seq_contains(content, "顺便"@)
            ||| seq_contains(content, "对了"@)
            ||| seq_contains(content, "另外"@)
            ||| seq_contains(content, "别忘了"@)
            ||| seq_contains(content, "不要改"@)
            ||| seq_contains(content, "保持"@)
        }) && {
            let l = lowercase(content);
            ||| seq_contains(l, "做到哪了"@)
            ||| seq_contains(l, "进度"@)
            ||| seq_contains(l, "还要多久"@)
            ||| seq_contains(l, "在干什么"@)
            ||| seq_contains(l, "status"@)
        },
        route_of(content) == UserMessageRoute::Normal <==> !({
            ||| seq_contains(content, "记得"@)
            ||| seq_contains(content, "注意"@)
            ||| seq_contains(content, "顺便"@)
            ||| seq_contains(content, "对了"@)
            ||| seq_contains(content, "另外"@)
            ||| seq_contains(content, "别忘了"@)
            ||| seq_contains(content, "不要改"@)
            ||| seq_contains(content, "保持"@)
        }) && !({
            let l = lowercase(content);
            ||| seq_contains(l, "做到哪了"@)
            ||| seq_contains(l, "进度"@)
            ||| seq_contains(l, "还要多久"@)
            ||| seq_contains(l, "在干什么"@)
            ||| seq_contains(l, "status"@)
        }),
{
    lemma_steer_phrases(content);
    lemma_progress_phrases(content);
}

} // verus!
