//! Task trees: the task graph an orchestrator works through, and the
//! compact view of it that is injected into the orchestrator's context.

use vstd::prelude::*;

use crate::text::{clone_strings, clone_opt, opt_view, own, str_eq, views};

verus! {

/// Overall status of a task tree.
#[derive(Debug, Clone, Copy, PartialEq, Eq, Structural)]
pub enum TreeStatus {
    Running,
    Completed,
    Failed,
    Partial,
}

/// The wire name of each [`TreeStatus`] value.
pub open spec fn tree_status_name(x: TreeStatus) -> Seq<char> {
    match x {
        TreeStatus::Running => "running"@,
        TreeStatus::Completed => "completed"@,
        TreeStatus::Failed => "failed"@,
        TreeStatus::Partial => "partial"@,
    }
}

/// The value that `TreeStatus::parse` gives for `s`: the variant whose wire
/// name is `s`, or `Running` for any other text.
pub open spec fn tree_status_parsed(s: Seq<char>) -> TreeStatus {
    if s == "running"@ {
        TreeStatus::Running
    } else if s == "completed"@ {
        TreeStatus::Completed
    } else if s == "failed"@ {
        TreeStatus::Failed
    } else if s == "partial"@ {
        TreeStatus::Partial
    } else {
        TreeStatus::Running
    }
}

impl TreeStatus {
    /// The wire name of the value.
    pub fn as_str(&self) -> (r: &'static str)
        ensures
            r@ == tree_status_name(*self),
    {
        match self {
            TreeStatus::Running => "running",
            TreeStatus::Completed => "completed",
            TreeStatus::Failed => "failed",
            TreeStatus::Partial => "partial",
        }
    }

    /// Reads a wire name; unknown text gives `Running`.
    pub fn parse(s: &str) -> (r: Self)
        ensures
            r == tree_status_parsed(s@),
    {
        if str_eq(s, "running") {
            TreeStatus::Running
        } else if str_eq(s, "completed") {
            TreeStatus::Completed
        } else if str_eq(s, "failed") {
            TreeStatus::Failed
        } else if str_eq(s, "partial") {
            TreeStatus::Partial
        } else {
            TreeStatus::Running
        }
    }
}

/// Reading back the wire name of any value gives that value.
pub proof fn lemma_tree_status_round_trip(x: TreeStatus)
    ensures
        tree_status_parsed(tree_status_name(x)) == x,
{
    reveal_strlit("running");
    reveal_strlit("completed");
    reveal_strlit("failed");
    reveal_strlit("partial");
    assert("running"@.len() != "completed"@.len());
    assert("running"@ != "completed"@);
    assert("running"@.len() != "failed"@.len());
    assert("running"@ != "failed"@);
    assert("running"@[0] != "partial"@[0]);
    assert("running"@ != "partial"@);
    assert("completed"@.len() != "failed"@.len());
    assert("completed"@ != "failed"@);
    assert("completed"@.len() != "partial"@.len());
    assert("completed"@ != "partial"@);
    assert("failed"@.len() != "partial"@.len());
    assert("failed"@ != "partial"@);
}

/// Status of one task node.
#[derive(Debug, Clone, Copy, PartialEq, Eq, Structural)]
pub enum TaskStatus {
    Pending,
    Running,
    Success,
    Failed,
    Skipped,
}

/// The wire name of each [`TaskStatus`] value.
pub open spec fn task_status_name(x: TaskStatus) -> Seq<char> {
    match x {
        TaskStatus::Pending => "pending"@,
        TaskStatus::Running => "running"@,
        TaskStatus::Success => "success"@,
        TaskStatus::Failed => "failed"@,
        TaskStatus::Skipped => "skipped"@,
    }
}

/// The value that `TaskStatus::parse` gives for `s`: the variant whose wire
/// name is `s`, or `Pending` for any other text.
pub open spec fn task_status_parsed(s: Seq<char>) -> TaskStatus {
    if s == "pending"@ {
        TaskStatus::Pending
    } else if s == "running"@ {
        TaskStatus::Running
    } else if s == "success"@ {
        TaskStatus::Success
    } else if s == "failed"@ {
        TaskStatus::Failed
    } else if s == "skipped"@ {
        TaskStatus::Skipped
    } else {
        TaskStatus::Pending
    }
}

impl TaskStatus {
    /// The wire name of the value.
    pub fn as_str(&self) -> (r: &'static str)
        ensures
            r@ == task_status_name(*self),
    {
        match self {
            TaskStatus::Pending => "pending",
            TaskStatus::Running => "running",
            TaskStatus::Success => "success",
            TaskStatus::Failed => "failed",
            TaskStatus::Skipped => "skipped",
        }
    }

    /// Reads a wire name; unknown text gives `Pending`.
    pub fn parse(s: &str) -> (r: Self)
        ensures
            r == task_status_parsed(s@),
    {
        if str_eq(s, "pending") {
            TaskStatus::Pending
        } else if str_eq(s, "running") {
            TaskStatus::Running
        } else if str_eq(s, "success") {
            TaskStatus::Success
        } else if str_eq(s, "failed") {
            TaskStatus::Failed
        } else if str_eq(s, "skipped") {
            TaskStatus::Skipped
        } else {
            TaskStatus::Pending
        }
    }
}

/// Reading back the wire name of any value gives that value.
pub proof fn lemma_task_status_round_trip(x: TaskStatus)
    ensures
        task_status_parsed(task_status_name(x)) == x,
{
    reveal_strlit("pending");
    reveal_strlit("running");
    reveal_strlit("success");
    reveal_strlit("failed");
    reveal_strlit("skipped");
    assert("pending"@[0] != "running"@[0]);
    assert("pending"@ != "running"@);
    assert("pending"@[0] != "success"@[0]);
    assert("pending"@ != "success"@);
    assert("pending"@.len() != "failed"@.len());
    assert("pending"@ != "failed"@);
    assert("pending"@[0] != "skipped"@[0]);
    assert("pending"@ != "skipped"@);
    assert("running"@[0] != "success"@[0]);
    assert("running"@ != "success"@);
    assert("running"@.len() != "failed"@.len());
    assert("running"@ != "failed"@);
    assert("running"@[0] != "skipped"@[0]);
    assert("running"@ != "skipped"@);
    assert("success"@.len() != "failed"@.len());
    assert("success"@ != "failed"@);
    assert("success"@[1] != "skipped"@[1]);
    assert("success"@ != "skipped"@);
    assert("failed"@.len() != "skipped"@.len());
    assert("failed"@ != "skipped"@);
}

/// One node of a task tree. Timestamps are milliseconds since the Unix epoch.
#[derive(Debug, Clone)]
pub struct TaskNode {
    pub id: String,
    pub parent_id: Option<String>,
    pub task_id: String,
    pub title: String,
    pub intent: String,
    pub status: TaskStatus,
    pub assigned_agent_type: String,
    pub assigned_agent_id: Option<String>,
    pub depends_on: Vec<String>,
    pub result_summary: Option<String>,
    pub result_artifact_ids: Vec<String>,
    pub error_summary: Option<String>,
    pub created_at: i64,
    pub completed_at: Option<i64>,
}

/// A stored task tree.
#[derive(Debug, Clone)]
pub struct TaskTreeRow {
    pub id: String,
    pub root_task_id: String,
    pub session_id: String,
    pub trace_id: Option<String>,
    pub status: TreeStatus,
    pub created_at: i64,
    pub updated_at: i64,
}

impl TaskTreeRow {
    /// A new running tree `id` for `root_task_id` in `session_id`, made at
    /// `now`.
    pub fn create(id: &str, root_task_id: &str, session_id: &str, trace_id: Option<&str>, now: i64) -> (r: Self)
        ensures
            r.id@ == id@,
            r.root_task_id@ == root_task_id@,
            r.session_id@ == session_id@,
            opt_view(r.trace_id) == crate::text::opt_str_view(trace_id),
            r.status == TreeStatus::Running,
            r.created_at == now,
            r.updated_at == now,
    {
        TaskTreeRow {
            id: own(id),
            root_task_id: own(root_task_id),
            session_id: own(session_id),
            trace_id: crate::text::own_opt(trace_id),
            status: TreeStatus::Running,
            created_at: now,
            updated_at: now,
        }
    }

    /// Closes the tree with `status` at `now`.
    pub fn finalize(&mut self, status: TreeStatus, now: i64)
        ensures
            final(self).status == status,
            final(self).updated_at == now,
            final(self).id == old(self).id,
            final(self).root_task_id == old(self).root_task_id,
            final(self).session_id == old(self).session_id,
            final(self).trace_id == old(self).trace_id,
            final(self).created_at == old(self).created_at,
    {
        self.status = status;
        self.updated_at = now;
    }
}

/// A finished node: it succeeded, failed or was skipped.
pub open spec fn is_finished(s: TaskStatus) -> bool {
    s == TaskStatus::Success || s == TaskStatus::Failed || s == TaskStatus::Skipped
}

impl TaskNode {
    /// Moves the node to `status` at `now`. A given result or error summary
    /// replaces the stored one (an absent one keeps it); a finished status
    /// stamps the completion time, any other keeps the stored one.
    pub fn apply_status(&mut self, status: TaskStatus, result_summary: Option<&str>, error_summary: Option<&str>, now: i64)
        ensures
            final(self).status == status,
            opt_view(final(self).result_summary) == match result_summary {
                Some(t) => Some(t@),
                None => opt_view(old(self).result_summary),
            },
            opt_view(final(self).error_summary) == match error_summary {
                Some(t) => Some(t@),
                None => opt_view(old(self).error_summary),
            },
            final(self).completed_at == if is_finished(status) {
                Some(now)
            } else {
                old(self).completed_at
            },
            final(self).id == old(self).id,
            final(self).parent_id == old(self).parent_id,
            final(self).task_id == old(self).task_id,
            final(self).title == old(self).title,
            final(self).intent == old(self).intent,
            final(self).assigned_agent_type == old(self).assigned_agent_type,
            final(self).assigned_agent_id == old(self).assigned_agent_id,
            final(self).depends_on == old(self).depends_on,
            final(self).result_artifact_ids == old(self).result_artifact_ids,
            final(self).created_at == old(self).created_at,
    {
        self.status = status;
        if result_summary.is_some() {
            self.result_summary = crate::text::own_opt(result_summary);
        }
        if error_summary.is_some() {
            self.error_summary = crate::text::own_opt(error_summary);
        }
        match status {
            TaskStatus::Success | TaskStatus::Failed | TaskStatus::Skipped => {
                self.completed_at = Some(now);
            },
            _ => {},
        }
    }
}

/// A node as the orchestrator sees it in the tree view.
#[derive(Debug, Clone)]
pub struct TaskNodeSummary {
    pub id: String,
    pub title: String,
    pub status: String,
    pub result_summary: Option<String>,
    pub error_summary: Option<String>,
    pub depends_on: Vec<String>,
}

/// The compact view of a task tree.
#[derive(Debug, Clone)]
pub struct TaskTreeView {
    pub completed_count: u32,
    pub failed_count: u32,
    pub pending_count: u32,
    pub running_count: u32,
    pub active_nodes: Vec<TaskNodeSummary>,
}



/// `s` summarises node `n`.
pub open spec fn summarises(s: TaskNodeSummary, n: TaskNode) -> bool {
    &&& s.id@ == n.id@
    &&& s.title@ == n.title@
    &&& s.status@ == task_status_name(n.status)
    &&& opt_view(s.result_summary) == opt_view(n.result_summary)
    &&& opt_view(s.error_summary) == opt_view(n.error_summary)
    &&& views(s.depends_on@) == views(n.depends_on@)
}

/// The node is finished for the view: it succeeded or was skipped.
pub open spec fn is_done(n: TaskNode) -> bool {
    n.status == TaskStatus::Success || n.status == TaskStatus::Skipped
}

/// The number of nodes with status `st`.
pub open spec fn count_status(nodes: Seq<TaskNode>, st: TaskStatus) -> nat {
    nodes.filter(|n: TaskNode| n.status == st).len()
}

/// The nodes that still need attention (not done), in order.
pub open spec fn open_nodes(nodes: Seq<TaskNode>) -> Seq<TaskNode> {
    nodes.filter(|n: TaskNode| !is_done(n))
}

/// The last done node, if any.
pub open spec fn last_done(nodes: Seq<TaskNode>) -> Option<TaskNode>
    decreases nodes.len(),
{
    if nodes.len() == 0 {
        None
    } else if is_done(nodes.last()) {
        Some(nodes.last())
    } else {
        last_done(nodes.drop_last())
    }
}

/// The nodes the view lists: the last done node first (when there is
/// one), then every node that is not done, in tree order.
pub open spec fn listed_nodes(nodes: Seq<TaskNode>) -> Seq<TaskNode> {
    match last_done(nodes) {
        Some(n) => seq![n] + open_nodes(nodes),
        None => open_nodes(nodes),
    }
}

/// Whether the node gets a completion timestamp when it enters `status`.
pub open spec fn stamps_completion(status: TaskStatus) -> bool {
    status == TaskStatus::Success || status == TaskStatus::Failed || status == TaskStatus::Skipped
}

/// A node entering `status` gets a completion timestamp (success,
/// failure or skip).
pub fn completes(status: TaskStatus) -> (r: bool)
    ensures
        r == stamps_completion(status),
{
    match status {
        TaskStatus::Success | TaskStatus::Failed | TaskStatus::Skipped => true,
        _ => false,
    }
}

/// The summary of a node.
pub fn summarise(n: &TaskNode) -> (s: TaskNodeSummary)
    ensures
        summarises(s, *n),
{
    TaskNodeSummary {
        id: n.id.clone(),
        title: n.title.clone(),
        status: own(n.status.as_str()),
        result_summary: clone_opt(&n.result_summary),
        error_summary: clone_opt(&n.error_summary),
        depends_on: clone_strings(&n.depends_on),
    }
}

/// Builds the view of a tree from its nodes (in creation order): counts
/// per status (success and skipped count as completed) and the listed
/// nodes ([`listed_nodes`]).
pub fn build_view(nodes: &Vec<TaskNode>) -> (v: TaskTreeView)
    requires
        nodes@.len() <= u32::MAX,
    ensures
        v.completed_count == count_status(nodes@, TaskStatus::Success) + count_status(nodes@, TaskStatus::Skipped),
        v.failed_count == count_status(nodes@, TaskStatus::Failed),
        v.pending_count == count_status(nodes@, TaskStatus::Pending),
        v.running_count == count_status(nodes@, TaskStatus::Running),
        v.active_nodes@.len() == listed_nodes(nodes@).len(),
        forall|k: int| 0 <= k < v.active_nodes@.len() ==> summarises(v.active_nodes@[k], #[trigger] listed_nodes(nodes@)[k]),
{
    let mut completed: u32 = 0;
    let mut failed: u32 = 0;
    let mut pending: u32 = 0;
    let mut running: u32 = 0;
    let mut active: Vec<TaskNodeSummary> = Vec::new();
    let mut last: Option<TaskNodeSummary> = None;
    let ghost fs = |n: TaskNode| n.status == TaskStatus::Success;
    let ghost fk = |n: TaskNode| n.status == TaskStatus::Skipped;
    let ghost ff = |n: TaskNode| n.status == TaskStatus::Failed;
    let ghost fp = |n: TaskNode| n.status == TaskStatus::Pending;
    let ghost fr = |n: TaskNode| n.status == TaskStatus::Running;
    let ghost fo = |n: TaskNode| !is_done(n);
    let mut i: usize = 0;
    while i < nodes.len()
        invariant
            i <= nodes.len(),
            nodes@.len() <= u32::MAX,
            fs == (|n: TaskNode| n.status == TaskStatus::Success),
            fk == (|n: TaskNode| n.status == TaskStatus::Skipped),
            ff == (|n: TaskNode| n.status == TaskStatus::Failed),
            fp == (|n: TaskNode| n.status == TaskStatus::Pending),
            fr == (|n: TaskNode| n.status == TaskStatus::Running),
            fo == (|n: TaskNode| !is_done(n)),
            completed == nodes@.take(i as int).filter(fs).len() + nodes@.take(i as int).filter(fk).len(),
            failed == nodes@.take(i as int).filter(ff).len(),
            pending == nodes@.take(i as int).filter(fp).len(),
            running == nodes@.take(i as int).filter(fr).len(),
            completed + failed + pending + running == i,
            active@.len() == nodes@.take(i as int).filter(fo).len(),
            forall|k: int| 0 <= k < active@.len() ==> summarises(active@[k], #[trigger] nodes@.take(i as int).filter(fo)[k]),
            match last_done(nodes@.take(i as int)) {
                Some(n) => last matches Some(s) && summarises(s, n),
                None => last.is_none(),
            },
        decreases nodes.len() - i,
    {
        proof {
            reveal_with_fuel(Seq::filter, 1);
        }
        let ghost pre = nodes@.take(i as int);
        assert(nodes@.take((i + 1) as int).drop_last() =~= pre);
        let n = &nodes[i];
        match n.status {
            TaskStatus::Success | TaskStatus::Skipped => {
                completed = completed + 1;
                last = Some(summarise(n));
            },
            TaskStatus::Failed => {
                failed = failed + 1;
                active.push(summarise(n));
            },
            TaskStatus::Running => {
                running = running + 1;
                active.push(summarise(n));
            },
            TaskStatus::Pending => {
                pending = pending + 1;
                active.push(summarise(n));
            },
        }
        i = i + 1;
        assert(nodes@.take(i as int).last() == nodes@[i - 1]);
    }
    assert(nodes@.take(i as int) =~= nodes@);
    let ghost opened = nodes@.filter(fo);
    assert(open_nodes(nodes@) == opened);
    match last {
        Some(s) => {
            active.insert(0, s);
            assert forall|k: int| 0 <= k < active@.len() implies summarises(active@[k], #[trigger] listed_nodes(nodes@)[k]) by {
                if k > 0 {
                    assert(listed_nodes(nodes@)[k] == opened[k - 1]);
                }
            }
        },
        None => {},
    }
    TaskTreeView {
        completed_count: completed,
        failed_count: failed,
        pending_count: pending,
        running_count: running,
        active_nodes: active,
    }
}

} // verus!
