//! Sub-task envelopes and results: what the orchestrator hands a
//! sub-agent, and what comes back.

use vstd::prelude::*;

use crate::text::{clone_strings, views};
use crate::tools::ToolScope;

verus! {

/// Output format constraints for a sub-task.
#[derive(Debug, Clone)]
pub struct OutputSpec {
    pub format: String,
    pub max_tokens: u32,
}

/// Budget limits for a sub-task.
#[derive(Debug, Clone, Copy)]
pub struct SubTaskConstraints {
    pub max_tool_calls: u32,
    pub max_file_reads: u32,
    pub token_budget: u32,
    pub timeout_ms: u32,
}

/// A condensed result of a sub-task another sub-task depends on.
#[derive(Debug, Clone)]
pub struct SubTaskResultSummary {
    pub sub_task_id: String,
    pub summary: String,
    pub artifact_ids: Vec<String>,
}

/// Everything a sub-agent receives.
#[derive(Debug, Clone)]
pub struct SubTaskEnvelope {
    pub sub_task_id: String,
    pub parent_task_id: String,
    pub trace_id: String,
    pub title: String,
    pub instruction: String,
    pub depends_on_results: Vec<SubTaskResultSummary>,
    pub input_artifact_refs: Vec<String>,
    pub tool_scope: ToolScope,
    pub output_spec: OutputSpec,
    pub constraints: SubTaskConstraints,
    /// Optional `.tentacle/` directory the sub-agent reads at startup.
    pub tentacle_path: Option<String>,
}

/// How a sub-task ended.
#[derive(Debug, Clone, Copy, PartialEq, Eq, Structural)]
pub enum SubTaskStatus {
    Success,
    Partial,
    Failed,
    NeedClarification,
}

/// Why a sub-agent escalated, and the options it offers.
#[derive(Debug, Clone)]
pub struct Escalation {
    pub reason: String,
    pub options: Vec<String>,
}

/// What a sub-agent returns. `completed_at` is in milliseconds since the
/// Unix epoch.
#[derive(Debug, Clone)]
pub struct SubTaskResult {
    pub sub_task_id: String,
    pub status: SubTaskStatus,
    pub summary: String,
    pub artifact_ids: Vec<String>,
    pub escalation: Option<Escalation>,
    pub token_used: u32,
    pub tool_calls_count: u32,
    pub completed_at: i64,
}

/// The mathematical value of an escalation.
pub open spec fn escalation_view(e: Option<Escalation>) -> Option<(Seq<char>, Seq<Seq<char>>)> {
    match e {
        Some(x) => Some((x.reason@, views(x.options@))),
        None => None,
    }
}

/// The mathematical value of a [`SubTaskResult`].
pub struct ResultView {
    pub sub_task_id: Seq<char>,
    pub status: SubTaskStatus,
    pub summary: Seq<char>,
    pub artifact_ids: Seq<Seq<char>>,
    pub escalation: Option<(Seq<char>, Seq<Seq<char>>)>,
    pub token_used: u32,
    pub tool_calls_count: u32,
    pub completed_at: i64,
}

impl View for SubTaskResult {
    type V = ResultView;

    open spec fn view(&self) -> ResultView {
        ResultView {
            sub_task_id: self.sub_task_id@,
            status: self.status,
            summary: self.summary@,
            artifact_ids: views(self.artifact_ids@),
            escalation: escalation_view(self.escalation),
            token_used: self.token_used,
            tool_calls_count: self.tool_calls_count,
            completed_at: self.completed_at,
        }
    }
}

/// A copy of `r` with the same value.
pub fn clone_result(r: &SubTaskResult) -> (c: SubTaskResult)
    ensures
        c@ == r@,
{
    let escalation = match &r.escalation {
        Some(e) => Some(Escalation { reason: e.reason.clone(), options: clone_strings(&e.options) }),
        None => None,
    };
    SubTaskResult {
        sub_task_id: r.sub_task_id.clone(),
        status: r.status,
        summary: r.summary.clone(),
        artifact_ids: clone_strings(&r.artifact_ids),
        escalation,
        token_used: r.token_used,
        tool_calls_count: r.tool_calls_count,
        completed_at: r.completed_at,
    }
}

} // verus!
