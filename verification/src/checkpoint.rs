//! Sub-task checkpoints: what a sub-agent saves when a soft interrupt asks
//! it to pause, so that it can be dispatched again where it stopped.

use vstd::prelude::*;

use crate::text::{clone_strings, clone_opt, opt_view, own, views};

verus! {

/// What a sub-agent hands over to be saved.
#[derive(Debug, Clone)]
pub struct CheckpointDraft {
    pub sub_task_id: String,
    pub agent_id: Option<String>,
    pub completed_steps: Vec<String>,
    pub working_set_snapshot: String,
    pub pinned_findings: Vec<String>,
    pub artifact_ids_so_far: Vec<String>,
    pub resume_hint: String,
}

/// A saved checkpoint. `created_at` is in milliseconds since the Unix epoch.
#[derive(Debug, Clone)]
pub struct SubTaskCheckpoint {
    pub id: String,
    pub sub_task_id: String,
    pub agent_id: Option<String>,
    pub completed_steps: Vec<String>,
    pub working_set_snapshot: String,
    pub pinned_findings: Vec<String>,
    pub artifact_ids_so_far: Vec<String>,
    pub resume_hint: String,
    pub created_at: i64,
}

impl SubTaskCheckpoint {
    /// The checkpoint `id` saved from `draft` at `now`: every field of the
    /// draft, unchanged.
    pub fn from_draft(draft: &CheckpointDraft, id: &str, now: i64) -> (r: Self)
        ensures
            r.id@ == id@,
            r.sub_task_id@ == draft.sub_task_id@,
            opt_view(r.agent_id) == opt_view(draft.agent_id),
            views(r.completed_steps@) == views(draft.completed_steps@),
            r.working_set_snapshot@ == draft.working_set_snapshot@,
            views(r.pinned_findings@) == views(draft.pinned_findings@),
            views(r.artifact_ids_so_far@) == views(draft.artifact_ids_so_far@),
            r.resume_hint@ == draft.resume_hint@,
            r.created_at == now,
    {
        SubTaskCheckpoint {
            id: own(id),
            sub_task_id: draft.sub_task_id.clone(),
            agent_id: clone_opt(&draft.agent_id),
            completed_steps: clone_strings(&draft.completed_steps),
            working_set_snapshot: draft.working_set_snapshot.clone(),
            pinned_findings: clone_strings(&draft.pinned_findings),
            artifact_ids_so_far: clone_strings(&draft.artifact_ids_so_far),
            resume_hint: draft.resume_hint.clone(),
            created_at: now,
        }
    }
}

} // verus!
