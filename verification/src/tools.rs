//! Tool results, tool scopes and the admission gate every tool call
//! passes before it is invoked.

use vstd::prelude::*;

use crate::text::{own, push_str, seq_has_str, string_from_chars, views};

verus! {

/// Outcome class of a tool call.
#[derive(Debug, Clone, Copy, PartialEq, Eq, Structural)]
pub enum ToolStatus {
    Success,
    PermissionDenied,
    BlockedByScope,
    AwaitingConfirmation,
    Timeout,
    Unavailable,
    Error,
}

/// The wire name of each tool status.
pub open spec fn tool_status_name(s: ToolStatus) -> Seq<char> {
    match s {
        ToolStatus::Success => "success"@,
        ToolStatus::PermissionDenied => "permission_denied"@,
        ToolStatus::BlockedByScope => "blocked_by_scope"@,
        ToolStatus::AwaitingConfirmation => "awaiting_confirmation"@,
        ToolStatus::Timeout => "timeout"@,
        ToolStatus::Unavailable => "unavailable"@,
        ToolStatus::Error => "error"@,
    }
}

impl ToolStatus {
    /// The wire name of the status.
    pub fn as_str(&self) -> (r: &'static str)
        ensures
            r@ == tool_status_name(*self),
    {
        match self {
            ToolStatus::Success => "success",
            ToolStatus::PermissionDenied => "permission_denied",
            ToolStatus::BlockedByScope => "blocked_by_scope",
            ToolStatus::AwaitingConfirmation => "awaiting_confirmation",
            ToolStatus::Timeout => "timeout",
            ToolStatus::Unavailable => "unavailable",
            ToolStatus::Error => "error",
        }
    }
}

/// Tool category, used to classify scope groups.
#[derive(Debug, Clone, Copy, PartialEq, Eq, Structural)]
pub enum ToolCategory {
    ReadOnly,
    SafeWrite,
    DangerousWrite,
    External,
}

/// The structured result of a tool call.
#[derive(Debug, Clone)]
pub struct ToolResult {
    pub tool: String,
    pub status: ToolStatus,
    /// Short textual summary of the output.
    pub output_summary: String,
    /// Full output payload, serialised as JSON.
    pub payload_json: Option<String>,
    /// Filled when the status indicates failure.
    pub error: Option<String>,
}

/// The summary line of a refused call: `[<status>] <why>`.
pub open spec fn deny_summary(status: ToolStatus, why: Seq<char>) -> Seq<char> {
    seq!['['] + tool_status_name(status) + seq![']', ' '] + why
}

impl ToolResult {
    /// A successful result carrying `payload_json` (the serialised payload).
    pub fn ok(tool: &str, summary: &str, payload_json: Option<String>) -> (r: Self)
        ensures
            r.tool@ == tool@,
            r.status == ToolStatus::Success,
            r.output_summary@ == summary@,
            r.payload_json == payload_json,
            r.error.is_none(),
    {
        ToolResult {
            tool: own(tool),
            status: ToolStatus::Success,
            output_summary: own(summary),
            payload_json,
            error: None,
        }
    }

    /// A refused call: the summary is `[<status>] <why>` and the error is `why`.
    pub fn deny(tool: &str, status: ToolStatus, why: &str) -> (r: Self)
        ensures
            r.tool@ == tool@,
            r.status == status,
            r.output_summary@ == deny_summary(status, why@),
            r.payload_json.is_none(),
            r.error matches Some(e) && e@ == why@,
    {
        let mut s: Vec<char> = Vec::new();
        s.push('[');
        push_str(&mut s, status.as_str());
        s.push(']');
        s.push(' ');
        push_str(&mut s, why);
        assert(s@ =~= deny_summary(status, why@));
        ToolResult {
            tool: own(tool),
            status,
            output_summary: string_from_chars(&s),
            payload_json: None,
            error: Some(own(why)),
        }
    }
}

/// Which tools an agent may call, which are blocked outright and which
/// need the user's confirmation first.
#[derive(Debug, Clone)]
pub struct ToolScope {
    pub allowed_tools: Vec<String>,
    pub blocked_tools: Vec<String>,
    pub requires_confirmation: Vec<String>,
    pub max_tool_calls: u32,
    pub max_parallel_tools: u32,
}

/// The text of a scope: allowed, blocked and confirmation-gated tools, and
/// the call limits.
pub open spec fn scope_view(s: ToolScope) -> (Seq<Seq<char>>, Seq<Seq<char>>, Seq<Seq<char>>, u32, u32) {
    (views(s.allowed_tools@), views(s.blocked_tools@), views(s.requires_confirmation@), s.max_tool_calls, s.max_parallel_tools)
}

impl ToolScope {
    /// The tool is blocked.
    pub open spec fn blocks(&self, name: Seq<char>) -> bool {
        crate::text::seq_has(views(self.blocked_tools@), name)
    }

    /// The tool is on the allow list.
    pub open spec fn allows(&self, name: Seq<char>) -> bool {
        crate::text::seq_has(views(self.allowed_tools@), name)
    }

    /// The tool needs the user's confirmation.
    pub open spec fn needs_confirmation(&self, name: Seq<char>) -> bool {
        crate::text::seq_has(views(self.requires_confirmation@), name)
    }

    /// A copy of the scope.
    pub fn copy(&self) -> (r: Self)
        ensures
            scope_view(r) == scope_view(*self),
    {
        ToolScope {
            allowed_tools: crate::text::clone_strings(&self.allowed_tools),
            blocked_tools: crate::text::clone_strings(&self.blocked_tools),
            requires_confirmation: crate::text::clone_strings(&self.requires_confirmation),
            max_tool_calls: self.max_tool_calls,
            max_parallel_tools: self.max_parallel_tools,
        }
    }

    /// A scope that allows nothing.
    pub fn empty() -> (r: Self)
        ensures
            r.allowed_tools@.len() == 0,
            r.blocked_tools@.len() == 0,
            r.requires_confirmation@.len() == 0,
            r.max_tool_calls == 0,
            r.max_parallel_tools == 0,
    {
        ToolScope {
            allowed_tools: Vec::new(),
            blocked_tools: Vec::new(),
            requires_confirmation: Vec::new(),
            max_tool_calls: 0,
            max_parallel_tools: 0,
        }
    }

    /// The tool is on the allow list.
    pub fn is_allowed(&self, name: &str) -> (r: bool)
        ensures
            r == self.allows(name@),
    {
        seq_has_str(&self.allowed_tools, name)
    }

    /// The tool needs the user's confirmation.
    pub fn requires_confirmation(&self, name: &str) -> (r: bool)
        ensures
            r == self.needs_confirmation(name@),
    {
        seq_has_str(&self.requires_confirmation, name)
    }

    /// The tool is blocked.
    pub fn is_blocked(&self, name: &str) -> (r: bool)
        ensures
            r == self.blocks(name@),
    {
        seq_has_str(&self.blocked_tools, name)
    }
}

/// The status with which a call is refused before invocation, if any:
/// blocked beats not-allowed, which beats missing confirmation, which
/// beats an unregistered tool.
pub open spec fn gate_status(scope: ToolScope, name: Seq<char>, confirmed: bool, registered: bool) -> Option<ToolStatus> {
    if scope.blocks(name) {
        Some(ToolStatus::BlockedByScope)
    } else if !scope.allows(name) {
        Some(ToolStatus::PermissionDenied)
    } else if scope.needs_confirmation(name) && !confirmed {
        Some(ToolStatus::AwaitingConfirmation)
    } else if !registered {
        Some(ToolStatus::Unavailable)
    } else {
        None
    }
}

/// The reason text that goes with each refusal status.
pub open spec fn gate_reason(s: ToolStatus) -> Seq<char> {
    match s {
        ToolStatus::BlockedByScope => "tool is blocked"@,
        ToolStatus::PermissionDenied => "tool not in scope.allowed_tools"@,
        ToolStatus::AwaitingConfirmation => "user confirmation required"@,
        _ => "tool not registered"@,
    }
}

/// Admission check for a tool call: `Some(result)` is the refusal to
/// return without invoking the tool; `None` means the tool may run.
pub fn gate_call(scope: &ToolScope, name: &str, confirmed: bool, registered: bool) -> (r: Option<ToolResult>)
    ensures
        match gate_status(*scope, name@, confirmed, registered) {
            None => r.is_none(),
            Some(st) => r is Some && r.unwrap().tool@ == name@ && r.unwrap().status == st
                && r.unwrap().error is Some && r.unwrap().error.unwrap()@ == gate_reason(st)
                && r.unwrap().output_summary@ == deny_summary(st, gate_reason(st)),
        },
{
    if scope.is_blocked(name) {
        return Some(ToolResult::deny(name, ToolStatus::BlockedByScope, "tool is blocked"));
    }
    if !scope.is_allowed(name) {
        return Some(ToolResult::deny(name, ToolStatus::PermissionDenied, "tool not in scope.allowed_tools"));
    }
    if scope.requires_confirmation(name) && !confirmed {
        return Some(ToolResult::deny(name, ToolStatus::AwaitingConfirmation, "user confirmation required"));
    }
    if !registered {
        return Some(ToolResult::deny(name, ToolStatus::Unavailable, "tool not registered"));
    }
    None
}

/// The refusal of a call whose tool ran past its budget.
pub fn timeout_result(name: &str) -> (r: ToolResult)
    ensures
        r.tool@ == name@,
        r.status == ToolStatus::Timeout,
        r.error is Some && r.error.unwrap()@ == "tool call exceeded budget"@,
        r.output_summary@ == deny_summary(ToolStatus::Timeout, "tool call exceeded budget"@),
        r.payload_json is None,
{
    ToolResult::deny(name, ToolStatus::Timeout, "tool call exceeded budget")
}

/// The context of one tool call: the scope it is checked against, who
/// makes it, its budget in milliseconds, and whether the user confirmed it.
#[derive(Debug, Clone)]
pub struct CallContext {
    pub tool_scope: ToolScope,
    pub session_id: Option<String>,
    pub trace_id: Option<String>,
    pub agent_id: Option<String>,
    pub timeout_ms: u64,
    pub confirmed: bool,
}

impl CallContext {
    /// A call under `scope`, anonymous, unconfirmed, with a thirty-second
    /// budget.
    pub fn new(scope: ToolScope) -> (r: Self)
        ensures
            r.tool_scope == scope,
            r.session_id.is_none(),
            r.trace_id.is_none(),
            r.agent_id.is_none(),
            r.timeout_ms == 30_000,
            !r.confirmed,
    {
        CallContext { tool_scope: scope, session_id: None, trace_id: None, agent_id: None, timeout_ms: 30_000, confirmed: false }
    }

    /// The same call, made in `session_id`.
    pub fn with_session(self, session_id: &str) -> (r: Self)
        ensures
            r == (CallContext { session_id: r.session_id, ..self }),
            r.session_id is Some && r.session_id.unwrap()@ == session_id@,
    {
        let mut c = self;
        c.session_id = Some(own(session_id));
        c
    }

    /// The same call, traced as `trace_id`.
    pub fn with_trace(self, trace_id: &str) -> (r: Self)
        ensures
            r == (CallContext { trace_id: r.trace_id, ..self }),
            r.trace_id is Some && r.trace_id.unwrap()@ == trace_id@,
    {
        let mut c = self;
        c.trace_id = Some(own(trace_id));
        c
    }

    /// The same call with a budget of `ms` milliseconds.
    pub fn with_timeout(self, ms: u64) -> (r: Self)
        ensures
            r == (CallContext { timeout_ms: ms, ..self }),
    {
        let mut c = self;
        c.timeout_ms = ms;
        c
    }

    /// The same call, confirmed by the user.
    pub fn confirmed(self) -> (r: Self)
        ensures
            r == (CallContext { confirmed: true, ..self }),
    {
        let mut c = self;
        c.confirmed = true;
        c
    }
}

} // verus!
