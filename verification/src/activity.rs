//! Activity cards: one card per running piece of work in the collaboration
//! panel, with the state transitions that status and progress updates make.

use vstd::prelude::*;

use crate::text::{clone_opt, opt_view, own, own_opt, str_eq};

verus! {

/// Lifecycle state of an activity card.
#[derive(Debug, Clone, Copy, PartialEq, Eq, Structural)]
pub enum CardStatus {
    Pending,
    Running,
    WaitingUser,
    Success,
    Failed,
    Suspended,
}

/// The wire name of each [`CardStatus`] value.
pub open spec fn card_status_name(x: CardStatus) -> Seq<char> {
    match x {
        CardStatus::Pending => "pending"@,
        CardStatus::Running => "running"@,
        CardStatus::WaitingUser => "waiting_user"@,
        CardStatus::Success => "success"@,
        CardStatus::Failed => "failed"@,
        CardStatus::Suspended => "suspended"@,
    }
}

/// The value that `CardStatus::parse` gives for `s`: the variant whose wire
/// name is `s`, or `Pending` for any other text.
pub open spec fn card_status_parsed(s: Seq<char>) -> CardStatus {
    if s == "pending"@ {
        CardStatus::Pending
    } else if s == "running"@ {
        CardStatus::Running
    } else if s == "waiting_user"@ {
        CardStatus::WaitingUser
    } else if s == "success"@ {
        CardStatus::Success
    } else if s == "failed"@ {
        CardStatus::Failed
    } else if s == "suspended"@ {
        CardStatus::Suspended
    } else {
        CardStatus::Pending
    }
}

impl CardStatus {
    /// The wire name of the value.
    pub fn as_str(&self) -> (r: &'static str)
        ensures
            r@ == card_status_name(*self),
    {
        match self {
            CardStatus::Pending => "pending",
            CardStatus::Running => "running",
            CardStatus::WaitingUser => "waiting_user",
            CardStatus::Success => "success",
            CardStatus::Failed => "failed",
            CardStatus::Suspended => "suspended",
        }
    }

    /// Reads a wire name; unknown text gives `Pending`.
    pub fn parse(s: &str) -> (r: Self)
        ensures
            r == card_status_parsed(s@),
    {
        if str_eq(s, "pending") {
            CardStatus::Pending
        } else if str_eq(s, "running") {
            CardStatus::Running
        } else if str_eq(s, "waiting_user") {
            CardStatus::WaitingUser
        } else if str_eq(s, "success") {
            CardStatus::Success
        } else if str_eq(s, "failed") {
            CardStatus::Failed
        } else if str_eq(s, "suspended") {
            CardStatus::Suspended
        } else {
            CardStatus::Pending
        }
    }
}

/// Reading back the wire name of any value gives that value.
pub proof fn lemma_card_status_round_trip(x: CardStatus)
    ensures
        card_status_parsed(card_status_name(x)) == x,
{
    reveal_strlit("pending");
    reveal_strlit("running");
    reveal_strlit("waiting_user");
    reveal_strlit("success");
    reveal_strlit("failed");
    reveal_strlit("suspended");
    assert("pending"@[0] != "running"@[0]);
    assert("pending"@ != "running"@);
    assert("pending"@.len() != "waiting_user"@.len());
    assert("pending"@ != "waiting_user"@);
    assert("pending"@[0] != "success"@[0]);
    assert("pending"@ != "success"@);
    assert("pending"@.len() != "failed"@.len());
    assert("pending"@ != "failed"@);
    assert("pending"@.len() != "suspended"@.len());
    assert("pending"@ != "suspended"@);
    assert("running"@.len() != "waiting_user"@.len());
    assert("running"@ != "waiting_user"@);
    assert("running"@[0] != "success"@[0]);
    assert("running"@ != "success"@);
    assert("running"@.len() != "failed"@.len());
    assert("running"@ != "failed"@);
    assert("running"@.len() != "suspended"@.len());
    assert("running"@ != "suspended"@);
    assert("waiting_user"@.len() != "success"@.len());
    assert("waiting_user"@ != "success"@);
    assert("waiting_user"@.len() != "failed"@.len());
    assert("waiting_user"@ != "failed"@);
    assert("waiting_user"@.len() != "suspended"@.len());
    assert("waiting_user"@ != "suspended"@);
    assert("success"@.len() != "failed"@.len());
    assert("success"@ != "failed"@);
    assert("success"@.len() != "suspended"@.len());
    assert("success"@ != "suspended"@);
    assert("failed"@.len() != "suspended"@.len());
    assert("failed"@ != "suspended"@);
}

/// A card is finished once it reached one of these states.
pub open spec fn is_closing(s: CardStatus) -> bool {
    s == CardStatus::Success || s == CardStatus::Failed || s == CardStatus::Suspended
}

/// What a caller supplies to open a card.
#[derive(Debug, Clone)]
pub struct CardDraft {
    pub session_id: String,
    pub sub_task_id: Option<String>,
    pub trace_id: Option<String>,
    pub agent_type: String,
    pub agent_display_name: String,
    pub agent_avatar_emoji: String,
    pub title: String,
}

/// One card of the collaboration panel. Timestamps are milliseconds since
/// the Unix epoch.
#[derive(Debug, Clone)]
pub struct ActivityCard {
    pub id: String,
    pub session_id: String,
    pub sub_task_id: Option<String>,
    pub trace_id: Option<String>,
    pub agent_type: String,
    pub agent_display_name: String,
    pub agent_avatar_emoji: String,
    pub status: CardStatus,
    pub title: String,
    pub current_action: Option<String>,
    pub progress_text: Option<String>,
    pub result_summary: Option<String>,
    pub error_message: Option<String>,
    pub interaction_json: Option<String>,
    pub artifacts_json: Option<String>,
    pub is_expanded: bool,
    pub can_interrupt: bool,
    pub interrupt_cost: String,
    pub started_at: i64,
    pub updated_at: i64,
    pub completed_at: Option<i64>,
}

/// `b` has the identity and the fixed content of `a`: everything but the
/// status, the progress fields, the expansion flag and the timestamps that
/// updates move.
pub open spec fn same_card(a: ActivityCard, b: ActivityCard) -> bool {
    &&& b.id@ == a.id@
    &&& b.session_id@ == a.session_id@
    &&& opt_view(b.sub_task_id) == opt_view(a.sub_task_id)
    &&& opt_view(b.trace_id) == opt_view(a.trace_id)
    &&& b.agent_type@ == a.agent_type@
    &&& b.agent_display_name@ == a.agent_display_name@
    &&& b.agent_avatar_emoji@ == a.agent_avatar_emoji@
    &&& b.title@ == a.title@
    &&& opt_view(b.result_summary) == opt_view(a.result_summary)
    &&& opt_view(b.error_message) == opt_view(a.error_message)
    &&& opt_view(b.interaction_json) == opt_view(a.interaction_json)
    &&& opt_view(b.artifacts_json) == opt_view(a.artifacts_json)
    &&& b.can_interrupt == a.can_interrupt
    &&& b.interrupt_cost@ == a.interrupt_cost@
    &&& b.started_at == a.started_at
}

impl ActivityCard {
    /// A new card `id` from `draft` at `now`: pending, expanded,
    /// interruptible at low cost, with no progress yet.
    pub fn create(draft: &CardDraft, id: &str, now: i64) -> (r: Self)
        ensures
            r.id@ == id@,
            r.session_id@ == draft.session_id@,
            opt_view(r.sub_task_id) == opt_view(draft.sub_task_id),
            opt_view(r.trace_id) == opt_view(draft.trace_id),
            r.agent_type@ == draft.agent_type@,
            r.agent_display_name@ == draft.agent_display_name@,
            r.agent_avatar_emoji@ == draft.agent_avatar_emoji@,
            r.status == CardStatus::Pending,
            r.title@ == draft.title@,
            r.current_action.is_none(),
            r.progress_text.is_none(),
            r.result_summary.is_none(),
            r.error_message.is_none(),
            r.interaction_json.is_none(),
            r.artifacts_json.is_none(),
            r.is_expanded,
            r.can_interrupt,
            r.interrupt_cost@ == "low"@,
            r.started_at == now,
            r.updated_at == now,
            r.completed_at.is_none(),
    {
        ActivityCard {
            id: own(id),
            session_id: draft.session_id.clone(),
            sub_task_id: clone_opt(&draft.sub_task_id),
            trace_id: clone_opt(&draft.trace_id),
            agent_type: draft.agent_type.clone(),
            agent_display_name: draft.agent_display_name.clone(),
            agent_avatar_emoji: draft.agent_avatar_emoji.clone(),
            status: CardStatus::Pending,
            title: draft.title.clone(),
            current_action: None,
            progress_text: None,
            result_summary: None,
            error_message: None,
            interaction_json: None,
            artifacts_json: None,
            is_expanded: true,
            can_interrupt: true,
            interrupt_cost: own("low"),
            started_at: now,
            updated_at: now,
            completed_at: None,
        }
    }

    /// Moves the card to `status` at `now`, replacing the progress text when
    /// one is given. A success, failure or suspension closes the card (it
    /// stays expanded only on failure); waiting for the user expands it.
    pub fn update_status(&mut self, status: CardStatus, progress_text: Option<&str>, now: i64)
        ensures
            same_card(*old(self), *final(self)),
            final(self).status == status,
            final(self).updated_at == now,
            opt_view(final(self).current_action) == opt_view(old(self).current_action),
            opt_view(final(self).progress_text) == (match progress_text {
                Some(t) => Some(t@),
                None => opt_view(old(self).progress_text),
            }),
            final(self).completed_at == if is_closing(status) {
                Some(now)
            } else {
                old(self).completed_at
            },
            final(self).is_expanded == if is_closing(status) {
                status == CardStatus::Failed
            } else if status == CardStatus::WaitingUser {
                true
            } else {
                old(self).is_expanded
            },
    {
        self.status = status;
        self.updated_at = now;
        if progress_text.is_some() {
            self.progress_text = own_opt(progress_text);
        }
        let closing = match status {
            CardStatus::Success | CardStatus::Failed | CardStatus::Suspended => true,
            _ => false,
        };
        if closing {
            self.completed_at = Some(now);
            self.is_expanded = status == CardStatus::Failed;
        }
        if status == CardStatus::WaitingUser {
            self.is_expanded = true;
        }
    }

    /// Records what the card's agent is doing: sets the current action and
    /// the progress text and marks the card running at `now`.
    pub fn set_progress(&mut self, action: &str, progress: &str, now: i64)
        ensures
            same_card(*old(self), *final(self)),
            final(self).status == CardStatus::Running,
            final(self).updated_at == now,
            opt_view(final(self).current_action) == Some(action@),
            opt_view(final(self).progress_text) == Some(progress@),
            final(self).completed_at == old(self).completed_at,
            final(self).is_expanded == old(self).is_expanded,
    {
        self.current_action = Some(own(action));
        self.progress_text = Some(own(progress));
        self.status = CardStatus::Running;
        self.updated_at = now;
    }
}

} // verus!
