//! Dispatching sub-agents: the decisions around a driver run (what a
//! catastrophic failure reports, what the task node becomes) and the
//! pipeline steps that follow a run.

use vstd::prelude::*;

use crate::sub_task::{escalation_view, Escalation, ResultView, SubTaskResult, SubTaskStatus};
use crate::task_tree::{TaskNode, TaskStatus};
use crate::text::{own, push_str, string_from_chars};
use crate::walkthrough::{AutoApprovalDecision, WalkthroughDoc};

verus! {

/// A sink the dispatcher pings while a sub-agent runs, so that a watchdog
/// can tell a wedged driver from a busy one.
pub trait Heartbeat {
    /// The agent is alive.
    fn beat(&self, agent_id: &str);

    /// The agent finished; stop watching it.
    fn forget(&self, agent_id: &str);
}

/// A heartbeat that ignores every ping.
pub struct NoopHeartbeat;

impl Heartbeat for NoopHeartbeat {
    fn beat(&self, agent_id: &str) {
    }

    fn forget(&self, agent_id: &str) {
    }
}

/// The result that reports a driver failure for `sub_task_id` at `now`.
pub open spec fn failure_view(sub_task_id: Seq<char>, reason: Seq<char>, now: i64) -> ResultView {
    ResultView {
        sub_task_id,
        status: SubTaskStatus::Failed,
        summary: "driver failed: "@ + reason,
        artifact_ids: Seq::empty(),
        escalation: Some((reason, Seq::empty())),
        token_used: 0,
        tool_calls_count: 0,
        completed_at: now,
    }
}

/// The result that reports a catastrophic driver failure: failed, with the
/// reason as summary and as escalation, and nothing used.
pub fn failed_result(sub_task_id: &str, reason: &str, now: i64) -> (r: SubTaskResult)
    ensures
        r@ == failure_view(sub_task_id@, reason@, now),
{
    let mut summary: Vec<char> = Vec::new();
    push_str(&mut summary, "driver failed: ");
    push_str(&mut summary, reason);
    let r = SubTaskResult {
        sub_task_id: own(sub_task_id),
        status: SubTaskStatus::Failed,
        summary: string_from_chars(&summary),
        artifact_ids: Vec::new(),
        escalation: Some(Escalation { reason: own(reason), options: Vec::new() }),
        token_used: 0,
        tool_calls_count: 0,
        completed_at: now,
    };
    proof {
        assert(r@.artifact_ids =~= Seq::<Seq<char>>::empty());
        assert(escalation_view(r.escalation) =~= Some((reason@, Seq::<Seq<char>>::empty())));
    }
    r
}

/// The status a task node takes after its sub-task ended with `s`: a
/// partial result counts as a success, a request for clarification as a
/// failure.
pub open spec fn node_status(s: SubTaskStatus) -> TaskStatus {
    match s {
        SubTaskStatus::Success | SubTaskStatus::Partial => TaskStatus::Success,
        SubTaskStatus::Failed | SubTaskStatus::NeedClarification => TaskStatus::Failed,
    }
}

/// The status a task node takes after its sub-task ended with `s`
/// ([`node_status`]).
pub fn node_status_for(s: SubTaskStatus) -> (r: TaskStatus)
    ensures
        r == node_status(s),
{
    match s {
        SubTaskStatus::Success | SubTaskStatus::Partial => TaskStatus::Success,
        SubTaskStatus::Failed | SubTaskStatus::NeedClarification => TaskStatus::Failed,
    }
}

/// The error summary a task node records for a result: its escalation
/// reason, if any.
pub fn escalation_reason(r: &SubTaskResult) -> (e: Option<&str>)
    ensures
        match e {
            Some(x) => r.escalation.is_some() && x@ == r.escalation.unwrap().reason@,
            None => r.escalation.is_none(),
        },
{
    match &r.escalation {
        Some(x) => Some(x.reason.as_str()),
        None => None,
    }
}

/// What one pipeline run produced.
#[derive(Debug, Clone)]
pub struct PipelineOutcome {
    pub sub_task_result: SubTaskResult,
    pub walkthrough_doc_id: Option<String>,
    pub auto_decision: Option<AutoApprovalDecision>,
}

/// The task node a pipeline creates for its sub-task: pending, assigned to
/// `agent_type`, with the intent `<agent_type>.generate`, created at `now`.
pub fn pipeline_node(id: &str, task_id: &str, title: &str, agent_type: &str, now: i64) -> (r: TaskNode)
    ensures
        r.id@ == id@,
        r.parent_id.is_none(),
        r.task_id@ == task_id@,
        r.title@ == title@,
        r.intent@ == agent_type@ + ".generate"@,
        r.status == TaskStatus::Pending,
        r.assigned_agent_type@ == agent_type@,
        r.assigned_agent_id.is_none(),
        r.depends_on@.len() == 0,
        r.result_summary.is_none(),
        r.result_artifact_ids@.len() == 0,
        r.error_summary.is_none(),
        r.created_at == now,
        r.completed_at.is_none(),
{
    let mut intent: Vec<char> = Vec::new();
    push_str(&mut intent, agent_type);
    push_str(&mut intent, ".generate");
    TaskNode {
        id: own(id),
        parent_id: None,
        task_id: own(task_id),
        title: own(title),
        intent: string_from_chars(&intent),
        status: TaskStatus::Pending,
        assigned_agent_type: own(agent_type),
        assigned_agent_id: None,
        depends_on: Vec::new(),
        result_summary: None,
        result_artifact_ids: Vec::new(),
        error_summary: None,
        created_at: now,
        completed_at: None,
    }
}

/// A walkthrough is written only for a sub-task that did not fail.
pub fn wants_walkthrough(s: SubTaskStatus) -> (r: bool)
    ensures
        r == (s == SubTaskStatus::Success || s == SubTaskStatus::Partial),
{
    match s {
        SubTaskStatus::Success | SubTaskStatus::Partial => true,
        _ => false,
    }
}

/// Ties a freshly built walkthrough to the sub-task and session it
/// documents.
pub fn stamp_walkthrough(doc: &mut WalkthroughDoc, sub_task_id: &str, session_id: &str)
    ensures
        final(doc).sub_task_id@ == sub_task_id@,
        final(doc).session_id@ == session_id@,
        final(doc).id == old(doc).id,
        final(doc).title == old(doc).title,
        final(doc).sections == old(doc).sections,
        final(doc).verification_status == old(doc).verification_status,
        final(doc).approval_status == old(doc).approval_status,
{
    doc.sub_task_id = own(sub_task_id);
    doc.session_id = own(session_id);
}

} // verus!
