//! Which session a message belongs to: explicit references to earlier work,
//! and how a resolution (explicit or scored) becomes the routed session
//! action.

use vstd::prelude::*;

use crate::intent::{regex_finds, regex_is_match};
use crate::text::{own, opt_view};

verus! {

/// Whether a routed message continues a session or opens a new one.
#[derive(Debug, Clone, Copy, PartialEq, Eq, Structural)]
pub enum SessionAction {
    ContinueExisting,
    CreateNew,
}

/// The wire name of each [`SessionAction`] value.
pub open spec fn session_action_name(a: SessionAction) -> Seq<char> {
    match a {
        SessionAction::ContinueExisting => "continue_existing"@,
        SessionAction::CreateNew => "create_new"@,
    }
}

impl SessionAction {
    /// The wire name of the value.
    pub fn as_str(&self) -> (r: &'static str)
        ensures
            r@ == session_action_name(*self),
    {
        match self {
            SessionAction::ContinueExisting => "continue_existing",
            SessionAction::CreateNew => "create_new",
        }
    }
}

/// What session scoring decided.
#[derive(Debug, Clone, PartialEq, Eq)]
pub enum SessionDecision {
    /// Continue `session_id`; a middling score asks for clarification.
    ContinueExisting { session_id: String, clarification_needed: bool },
    /// Open a new session.
    CreateNew,
    /// An explicit reference matched no particular session.
    NeedsClarification,
}

/// The pattern of phrases that refer back to earlier work.
pub open spec fn reference_pattern() -> Seq<char> {
    "(?i)继续|刚才那个|上面那个|这个问题|前面说的|还是那个|上次那个|continue|previous"@
}

/// Whether `input` refers back to earlier work ("继续", "刚才那个",
/// "continue", ...), matched without regard to case.
pub fn has_explicit_reference(input: &str) -> (r: bool)
    ensures
        r == regex_finds(reference_pattern(), input@),
{
    let p = "(?i)继续|刚才那个|上面那个|这个问题|前面说的|还是那个|上次那个|continue|previous";
    proof {
        assert(p@ == reference_pattern());
    }
    regex_is_match(p, input)
}

/// The session a routed message goes to.
#[derive(Debug, Clone)]
pub struct SessionResolution {
    pub action: SessionAction,
    pub target_session_id: Option<String>,
    pub clarification_needed: bool,
}

/// The session of a message that refers back to earlier work: the session
/// it came with; else the most recent session; else a new session, with a
/// request for clarification.
pub fn resolve_explicit(hint: Option<&str>, most_recent: Option<&str>) -> (r: SessionResolution)
    ensures
        match hint {
            Some(h) => r.action == SessionAction::ContinueExisting && opt_view(r.target_session_id) == Some(h@)
                && !r.clarification_needed,
            None => match most_recent {
                Some(m) => r.action == SessionAction::ContinueExisting && opt_view(r.target_session_id) == Some(m@)
                    && !r.clarification_needed,
                None => r.action == SessionAction::CreateNew && r.target_session_id.is_none()
                    && r.clarification_needed,
            },
        },
{
    match hint {
        Some(h) => SessionResolution {
            action: SessionAction::ContinueExisting,
            target_session_id: Some(own(h)),
            clarification_needed: false,
        },
        None => match most_recent {
            Some(m) => SessionResolution {
                action: SessionAction::ContinueExisting,
                target_session_id: Some(own(m)),
                clarification_needed: false,
            },
            None => SessionResolution {
                action: SessionAction::CreateNew,
                target_session_id: None,
                clarification_needed: true,
            },
        },
    }
}

/// The session a scoring decision routes to: the decided session with its
/// clarification flag, or a new session for anything else.
pub fn resolve_scored(decision: SessionDecision) -> (r: SessionResolution)
    ensures
        match decision {
            SessionDecision::ContinueExisting { session_id, clarification_needed } => r.action
                == SessionAction::ContinueExisting && opt_view(r.target_session_id) == Some(session_id@)
                && r.clarification_needed == clarification_needed,
            _ => r.action == SessionAction::CreateNew && r.target_session_id.is_none() && !r.clarification_needed,
        },
{
    match decision {
        SessionDecision::ContinueExisting { session_id, clarification_needed } => SessionResolution {
            action: SessionAction::ContinueExisting,
            target_session_id: Some(session_id),
            clarification_needed,
        },
        _ => SessionResolution { action: SessionAction::CreateNew, target_session_id: None, clarification_needed: false },
    }
}

} // verus!
