//! One-click commands: the command catalogue and the state machine that
//! tracks a command execution step by step.

use vstd::prelude::*;

use crate::text::{clone_opt, opt_str_view, opt_view, own, push_str, str_eq, string_from_chars};

verus! {

/// An arbitrary JSON value, carried through untouched (a command's extra
/// configuration).
#[verifier::external_type_specification]
#[verifier::external_body]
pub struct ExJsonValue(serde_json::Value);

/// Status of a command execution.
#[derive(Debug, Clone, Copy, PartialEq, Eq, Structural)]
pub enum CommandStatus {
    Running,
    Completed,
    Failed,
    WaitingUser,
}

/// The wire name of each [`CommandStatus`] value.
pub open spec fn command_status_name(x: CommandStatus) -> Seq<char> {
    match x {
        CommandStatus::Running => "running"@,
        CommandStatus::Completed => "completed"@,
        CommandStatus::Failed => "failed"@,
        CommandStatus::WaitingUser => "waiting_user"@,
    }
}

/// The value that `CommandStatus::parse` gives for `s`: the variant whose wire
/// name is `s`, or `Running` for any other text.
pub open spec fn command_status_parsed(s: Seq<char>) -> CommandStatus {
    if s == "completed"@ {
        CommandStatus::Completed
    } else if s == "failed"@ {
        CommandStatus::Failed
    } else if s == "waiting_user"@ {
        CommandStatus::WaitingUser
    } else {
        CommandStatus::Running
    }
}

impl CommandStatus {
    /// The wire name of the value.
    pub fn as_str(&self) -> (r: &'static str)
        ensures
            r@ == command_status_name(*self),
    {
        match self {
            CommandStatus::Running => "running",
            CommandStatus::Completed => "completed",
            CommandStatus::Failed => "failed",
            CommandStatus::WaitingUser => "waiting_user",
        }
    }

    /// Reads a wire name; unknown text gives `Running`.
    pub fn parse(s: &str) -> (r: Self)
        ensures
            r == command_status_parsed(s@),
    {
        if str_eq(s, "completed") {
            CommandStatus::Completed
        } else if str_eq(s, "failed") {
            CommandStatus::Failed
        } else if str_eq(s, "waiting_user") {
            CommandStatus::WaitingUser
        } else {
            CommandStatus::Running
        }
    }
}

/// Reading back the wire name of any value gives that value.
pub proof fn lemma_command_status_round_trip(x: CommandStatus)
    ensures
        command_status_parsed(command_status_name(x)) == x,
{
    reveal_strlit("running");
    reveal_strlit("completed");
    reveal_strlit("failed");
    reveal_strlit("waiting_user");
    assert("running"@.len() != "completed"@.len());
    assert("running"@ != "completed"@);
    assert("running"@.len() != "failed"@.len());
    assert("running"@ != "failed"@);
    assert("running"@.len() != "waiting_user"@.len());
    assert("running"@ != "waiting_user"@);
    assert("completed"@.len() != "failed"@.len());
    assert("completed"@ != "failed"@);
    assert("completed"@.len() != "waiting_user"@.len());
    assert("completed"@ != "waiting_user"@);
    assert("failed"@.len() != "waiting_user"@.len());
    assert("failed"@ != "waiting_user"@);
}

/// Status of one step of a command execution.
#[derive(Debug, Clone, Copy, PartialEq, Eq, Structural)]
pub enum StepStatus {
    Pending,
    Running,
    Done,
    Failed,
    Skipped,
}

/// The wire name of each [`StepStatus`] value.
pub open spec fn step_status_name(x: StepStatus) -> Seq<char> {
    match x {
        StepStatus::Pending => "pending"@,
        StepStatus::Running => "running"@,
        StepStatus::Done => "done"@,
        StepStatus::Failed => "failed"@,
        StepStatus::Skipped => "skipped"@,
    }
}

impl StepStatus {
    /// The wire name of the value.
    pub fn as_str(&self) -> (r: &'static str)
        ensures
            r@ == step_status_name(*self),
    {
        match self {
            StepStatus::Pending => "pending",
            StepStatus::Running => "running",
            StepStatus::Done => "done",
            StepStatus::Failed => "failed",
            StepStatus::Skipped => "skipped",
        }
    }
}

/// One step of a command: which agent runs which instruction.
#[derive(Debug, Clone)]
pub struct CommandStep {
    pub agent: String,
    pub instruction: String,
    pub inject_at: Option<String>,
}

/// A command of the catalogue.
#[derive(Debug)]
pub struct CommandDefinition {
    pub id: String,
    pub label: String,
    pub icon: String,
    pub description: String,
    pub steps: Vec<CommandStep>,
    pub parallel: bool,
    pub require_approval: bool,
    pub config: serde_json::Value,
    pub on_conflict_uncertain: Option<String>,
}

/// The catalogue of one-click commands.
#[derive(Debug)]
pub struct CommandCatalogue {
    pub commands: Vec<CommandDefinition>,
}

/// `i` is the first command with id `id`.
pub open spec fn is_first_command(cs: Seq<CommandDefinition>, id: Seq<char>, i: int) -> bool {
    &&& 0 <= i < cs.len()
    &&& cs[i].id@ == id
    &&& forall|j: int| 0 <= j < i ==> cs[j].id@ != id
}

impl CommandCatalogue {
    /// The first command with id `id`.
    pub fn get(&self, id: &str) -> (r: Option<&CommandDefinition>)
        ensures
            match r {
                None => forall|j: int| 0 <= j < self.commands@.len() ==> self.commands@[j].id@ != id@,
                Some(c) => exists|i: int| is_first_command(self.commands@, id@, i) && *c == self.commands@[i],
            },
    {
        let mut i: usize = 0;
        while i < self.commands.len()
            invariant
                i <= self.commands.len(),
                forall|j: int| 0 <= j < i ==> self.commands@[j].id@ != id@,
            decreases self.commands.len() - i,
        {
            if str_eq(self.commands[i].id.as_str(), id) {
                assert(is_first_command(self.commands@, id@, i as int));
                return Some(&self.commands[i]);
            }
            i = i + 1;
        }
        None
    }
}

/// Progress of one step. Timestamps are milliseconds since the Unix epoch.
#[derive(Debug, Clone)]
pub struct StepProgress {
    pub index: u32,
    pub agent: String,
    pub instruction: String,
    pub status: StepStatus,
    pub started_at: Option<i64>,
    pub completed_at: Option<i64>,
    pub note: Option<String>,
}

/// A running or finished command.
#[derive(Debug, Clone)]
pub struct CommandExecution {
    pub id: String,
    pub session_id: String,
    pub command_id: String,
    pub command_label: String,
    pub status: CommandStatus,
    pub triggered_by: String,
    pub steps: Vec<StepProgress>,
    pub started_at: i64,
    pub completed_at: Option<i64>,
}

/// The step is finished: done, failed or skipped.
pub open spec fn is_terminal(s: StepStatus) -> bool {
    s == StepStatus::Done || s == StepStatus::Failed || s == StepStatus::Skipped
}

/// `t` is step `s` unchanged.
pub open spec fn same_step(s: StepProgress, t: StepProgress) -> bool {
    &&& t.index == s.index
    &&& t.agent@ == s.agent@
    &&& t.instruction@ == s.instruction@
    &&& t.status == s.status
    &&& t.started_at == s.started_at
    &&& t.completed_at == s.completed_at
    &&& opt_view(t.note) == opt_view(s.note)
}

/// `t` is step `s` after it reported `status` (and `note`) at `now`: a
/// step entering `Running` for the first time is stamped as started; a
/// finished step is stamped as completed; a note replaces the old one.
pub open spec fn stepped(s: StepProgress, t: StepProgress, status: StepStatus, note: Option<Seq<char>>, now: i64) -> bool {
    &&& t.index == s.index
    &&& t.agent@ == s.agent@
    &&& t.instruction@ == s.instruction@
    &&& t.status == status
    &&& t.started_at == (if status == StepStatus::Running && s.started_at.is_none() {
        Some(now)
    } else {
        s.started_at
    })
    &&& t.completed_at == (if is_terminal(status) {
        Some(now)
    } else {
        s.completed_at
    })
    &&& opt_view(t.note) == (match note {
        Some(n) => Some(n),
        None => opt_view(s.note),
    })
}

/// `i` is the first step with index `idx`.
pub open spec fn is_first_step(steps: Seq<StepProgress>, idx: u32, i: int) -> bool {
    &&& 0 <= i < steps.len()
    &&& steps[i].index == idx
    &&& forall|j: int| 0 <= j < i ==> steps[j].index != idx
}

/// Some step failed.
pub open spec fn any_failed(steps: Seq<StepProgress>) -> bool {
    exists|i: int| 0 <= i < steps.len() && steps[i].status == StepStatus::Failed
}

/// Every step is done or skipped.
pub open spec fn all_finished_ok(steps: Seq<StepProgress>) -> bool {
    forall|i: int| 0 <= i < steps.len() ==> steps[i].status == StepStatus::Done || steps[i].status == StepStatus::Skipped
}

/// The execution status the steps call for, given the previous status:
/// a failed step fails the command; a non-empty list of done or skipped
/// steps completes it; otherwise the status stays.
pub open spec fn aggregate(steps: Seq<StepProgress>, prev: CommandStatus) -> CommandStatus {
    if any_failed(steps) {
        CommandStatus::Failed
    } else if steps.len() > 0 && all_finished_ok(steps) {
        CommandStatus::Completed
    } else {
        prev
    }
}

impl CommandDefinition {
    /// A new execution `id` of this command for `session_id`, triggered by
    /// `triggered_by` at `now`: running, with one pending step per
    /// command step, indexed from 0.
    pub fn start_execution(&self, id: &str, session_id: &str, triggered_by: &str, now: i64) -> (r: CommandExecution)
        requires
            self.steps@.len() <= u32::MAX,
        ensures
            r.id@ == id@,
            r.session_id@ == session_id@,
            r.command_id@ == self.id@,
            r.command_label@ == self.label@,
            r.status == CommandStatus::Running,
            r.triggered_by@ == triggered_by@,
            r.started_at == now,
            r.completed_at.is_none(),
            r.steps@.len() == self.steps@.len(),
            forall|k: int| 0 <= k < r.steps@.len() ==> {
                &&& (#[trigger] r.steps@[k]).index == k
                &&& r.steps@[k].agent@ == self.steps@[k].agent@
                &&& r.steps@[k].instruction@ == self.steps@[k].instruction@
                &&& r.steps@[k].status == StepStatus::Pending
                &&& r.steps@[k].started_at.is_none()
                &&& r.steps@[k].completed_at.is_none()
                &&& r.steps@[k].note.is_none()
            },
    {
        let mut steps: Vec<StepProgress> = Vec::new();
        let mut i: usize = 0;
        while i < self.steps.len()
            invariant
                i <= self.steps.len(),
                self.steps@.len() <= u32::MAX,
                steps@.len() == i,
                forall|k: int| 0 <= k < i ==> {
                    &&& (#[trigger] steps@[k]).index == k
                    &&& steps@[k].agent@ == self.steps@[k].agent@
                    &&& steps@[k].instruction@ == self.steps@[k].instruction@
                    &&& steps@[k].status == StepStatus::Pending
                    &&& steps@[k].started_at.is_none()
                    &&& steps@[k].completed_at.is_none()
                    &&& steps@[k].note.is_none()
                },
            decreases self.steps.len() - i,
        {
            steps.push(StepProgress {
                index: i as u32,
                agent: self.steps[i].agent.clone(),
                instruction: self.steps[i].instruction.clone(),
                status: StepStatus::Pending,
                started_at: None,
                completed_at: None,
                note: None,
            });
            i = i + 1;
        }
        CommandExecution {
            id: own(id),
            session_id: own(session_id),
            command_id: self.id.clone(),
            command_label: self.label.clone(),
            status: CommandStatus::Running,
            triggered_by: own(triggered_by),
            steps,
            started_at: now,
            completed_at: None,
        }
    }
}

impl CommandCatalogue {
    /// Starts execution `id` of command `command_id`; `Err` with
    /// `command <id>` when the catalogue has no such command.
    pub fn start(&self, id: &str, session_id: &str, command_id: &str, triggered_by: &str, now: i64) -> (r: Result<CommandExecution, String>)
        requires
            forall|j: int| 0 <= j < self.commands@.len() ==> self.commands@[j].steps@.len() <= u32::MAX,
        ensures
            match r {
                Err(e) => e@ == "command "@ + command_id@ && forall|j: int|
                    0 <= j < self.commands@.len() ==> self.commands@[j].id@ != command_id@,
                Ok(x) => exists|i: int| is_first_command(self.commands@, command_id@, i)
                    && x.command_id@ == command_id@ && x.command_label@ == self.commands@[i].label@
                    && x.steps@.len() == self.commands@[i].steps@.len()
                    && x.id@ == id@ && x.status == CommandStatus::Running && x.started_at == now,
            },
    {
        match self.get(command_id) {
            Some(c) => Ok(c.start_execution(id, session_id, triggered_by, now)),
            None => {
                let mut m: Vec<char> = Vec::new();
                push_str(&mut m, "command ");
                push_str(&mut m, command_id);
                Err(string_from_chars(&m))
            },
        }
    }
}

impl CommandExecution {
    /// Records that step `step_index` reported `status` (with an optional
    /// `note`) at `now`, then updates the execution status
    /// ([`aggregate`]); a failed or completed execution is stamped as
    /// completed at `now`. Unknown step indexes change no step.
    pub fn record_step(&mut self, step_index: u32, status: StepStatus, note: Option<&str>, now: i64)
        ensures
            final(self).steps@.len() == old(self).steps@.len(),
            forall|k: int| 0 <= k < old(self).steps@.len() ==> if is_first_step(old(self).steps@, step_index, k) {
                stepped(old(self).steps@[k], final(self).steps@[k], status, opt_str_view(note), now)
            } else {
                same_step(old(self).steps@[k], #[trigger] final(self).steps@[k])
            },
            final(self).status == aggregate(final(self).steps@, old(self).status),
            final(self).completed_at == (if any_failed(final(self).steps@) || (final(self).steps@.len() > 0
                && all_finished_ok(final(self).steps@)) {
                Some(now)
            } else {
                old(self).completed_at
            }),
            final(self).id == old(self).id,
            final(self).command_id == old(self).command_id,
            final(self).session_id == old(self).session_id,
            final(self).started_at == old(self).started_at,
    {
        let mut found: Option<usize> = None;
        let mut i: usize = 0;
        while i < self.steps.len() && found.is_none()
            invariant
                i <= self.steps.len(),
                match found {
                    None => forall|j: int| 0 <= j < i ==> self.steps@[j].index != step_index,
                    Some(f) => is_first_step(self.steps@, step_index, f as int),
                },
            decreases self.steps.len() - i,
        {
            if self.steps[i].index == step_index {
                found = Some(i);
            }
            i = i + 1;
        }
        let ghost before = self.steps@;
        match found {
            Some(i) => {
                assert(is_first_step(before, step_index, i as int));
                let s = &self.steps[i];
                let started_at = if status == StepStatus::Running && s.started_at.is_none() {
                    Some(now)
                } else {
                    s.started_at
                };
                let completed_at = if status == StepStatus::Done || status == StepStatus::Failed || status == StepStatus::Skipped {
                    Some(now)
                } else {
                    s.completed_at
                };
                let new_note = match note {
                    Some(n) => Some(own(n)),
                    None => clone_opt(&s.note),
                };
                let t = StepProgress {
                    index: s.index,
                    agent: s.agent.clone(),
                    instruction: s.instruction.clone(),
                    status,
                    started_at,
                    completed_at,
                    note: new_note,
                };
                self.steps.set(i, t);
                assert forall|k: int| 0 <= k < before.len() && k != i implies !is_first_step(before, step_index, k) by {
                    if k > i {
                        assert(before[i as int].index == step_index);
                    }
                }
            },
            None => {
                assert forall|k: int| 0 <= k < before.len() implies !is_first_step(before, step_index, k) by {}
            },
        }
        let ghost mid = self.steps@;
        let mut failed = false;
        let mut all_ok = true;
        let mut k: usize = 0;
        while k < self.steps.len()
            invariant
                k <= self.steps.len(),
                self.steps@ == mid,
                failed == exists|j: int| 0 <= j < k && self.steps@[j].status == StepStatus::Failed,
                all_ok == forall|j: int| 0 <= j < k ==> self.steps@[j].status == StepStatus::Done || self.steps@[j].status == StepStatus::Skipped,
            decreases self.steps.len() - k,
        {
            let st = self.steps[k].status;
            if st == StepStatus::Failed {
                failed = true;
            }
            if !(st == StepStatus::Done || st == StepStatus::Skipped) {
                all_ok = false;
            }
            k = k + 1;
        }
        if failed {
            self.status = CommandStatus::Failed;
            self.completed_at = Some(now);
        } else if self.steps.len() > 0 && all_ok {
            self.status = CommandStatus::Completed;
            self.completed_at = Some(now);
        }
    }

    /// Marks the execution as waiting for the user.
    pub fn mark_waiting_user(&mut self)
        ensures
            final(self).status == CommandStatus::WaitingUser,
            final(self).steps == old(self).steps,
            final(self).completed_at == old(self).completed_at,
            final(self).id == old(self).id,
    {
        self.status = CommandStatus::WaitingUser;
    }
}


} // verus!
