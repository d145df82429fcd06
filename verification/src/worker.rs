//! Worker-process sub-agents: the command a worker is started with, and
//! what a finished (or failed) worker run reports as its sub-task result.

use vstd::prelude::*;

use crate::dispatch::{failed_result, failure_view};
use crate::sub_task::{escalation_view, Escalation, ResultView, SubTaskResult, SubTaskStatus};
use crate::text::{own, push_str, str_trim, string_from_chars, trim, views};

verus! {

/// How a worker process is started.
#[derive(Debug, Clone)]
pub struct WorkerCommand {
    pub program: String,
    pub args: Vec<String>,
    /// The per-call budget in milliseconds; the child is killed past it.
    pub timeout_ms: u64,
    /// Working directory of the child.
    pub cwd: Option<String>,
    /// Extra environment variables.
    pub env: Vec<(String, String)>,
}

impl WorkerCommand {
    /// `program` with no arguments, a sixty-second budget, the inherited
    /// working directory and no extra environment.
    pub fn new(program: &str) -> (r: Self)
        ensures
            r.program@ == program@,
            r.args@.len() == 0,
            r.timeout_ms == 60_000,
            r.cwd.is_none(),
            r.env@.len() == 0,
    {
        WorkerCommand { program: own(program), args: Vec::new(), timeout_ms: 60_000, cwd: None, env: Vec::new() }
    }

    /// Adds an argument.
    pub fn arg(self, a: &str) -> (r: Self)
        ensures
            r.program == self.program,
            views(r.args@) == views(self.args@).push(a@),
            r.timeout_ms == self.timeout_ms,
            r.cwd == self.cwd,
            r.env == self.env,
    {
        let mut s = self;
        s.args.push(own(a));
        proof {
            assert(views(s.args@) =~= views(self.args@).push(a@));
        }
        s
    }

    /// Sets the budget, in milliseconds.
    pub fn timeout(self, ms: u64) -> (r: Self)
        ensures
            r.program == self.program,
            r.args == self.args,
            r.timeout_ms == ms,
            r.cwd == self.cwd,
            r.env == self.env,
    {
        let mut s = self;
        s.timeout_ms = ms;
        s
    }

    /// Sets the working directory.
    pub fn cwd(self, dir: &str) -> (r: Self)
        ensures
            r.program == self.program,
            r.args == self.args,
            r.timeout_ms == self.timeout_ms,
            r.cwd.is_some() && r.cwd.unwrap()@ == dir@,
            r.env == self.env,
    {
        let mut s = self;
        s.cwd = Some(own(dir));
        s
    }

    /// Adds an environment variable.
    pub fn env(self, k: &str, v: &str) -> (r: Self)
        ensures
            r.program == self.program,
            r.args == self.args,
            r.timeout_ms == self.timeout_ms,
            r.cwd == self.cwd,
            r.env@.len() == self.env@.len() + 1,
            forall|i: int| 0 <= i < self.env@.len() ==> r.env@[i] == self.env@[i],
            r.env@.last().0@ == k@ && r.env@.last().1@ == v@,
    {
        let mut s = self;
        s.env.push((own(k), own(v)));
        s
    }
}

/// A sub-agent run as a child process: its name and its command.
#[derive(Debug, Clone)]
pub struct WorkerProcessDriver {
    pub name: String,
    pub command: WorkerCommand,
}

impl WorkerProcessDriver {
    /// A driver called `name` that runs `command`.
    pub fn new(name: &str, command: WorkerCommand) -> (r: Self)
        ensures
            r.name@ == name@,
            r.command == command,
    {
        WorkerProcessDriver { name: own(name), command }
    }
}

/// The last line a worker printed on its standard output.
#[derive(Debug, Clone)]
pub enum WorkerReply {
    /// It printed nothing.
    NoLine,
    /// The line held a sub-task result.
    Parsed(SubTaskResult),
    /// The line held no sub-task result: the parser's message and the line.
    Malformed { error: String, line: String },
}

/// How a worker run went, as the process layer observed it.
#[derive(Debug, Clone)]
pub enum WorkerOutcome {
    /// The envelope could not be encoded.
    EncodeFailed(String),
    /// The child could not be started.
    SpawnFailed(String),
    /// The envelope could not be written to the child.
    StdinFailed(String),
    /// Waiting for the child failed.
    WaitFailed(String),
    /// The child ran past its budget and was killed.
    TimedOut,
    /// The child exited: whether successfully, its exit status as text, what
    /// it wrote on standard error, and its last line of output.
    Exited { success: bool, status: String, stderr: String, reply: WorkerReply },
}

/// The result a worker run reports for `sub_task_id` at `now`.
pub open spec fn run_result(sub_task_id: Seq<char>, o: WorkerOutcome, now: i64) -> ResultView {
    match o {
        WorkerOutcome::EncodeFailed(e) => failure_view(sub_task_id, "envelope serialization failed: "@ + e@, now),
        WorkerOutcome::SpawnFailed(e) => failure_view(sub_task_id, "spawn failed: "@ + e@, now),
        WorkerOutcome::StdinFailed(e) => failure_view(sub_task_id, "stdin write failed: "@ + e@, now),
        WorkerOutcome::WaitFailed(e) => failure_view(sub_task_id, "child wait failed: "@ + e@, now),
        WorkerOutcome::TimedOut => ResultView {
            sub_task_id,
            status: SubTaskStatus::Failed,
            summary: "worker process exceeded timeout"@,
            artifact_ids: Seq::empty(),
            escalation: Some(("timeout"@, Seq::empty())),
            token_used: 0,
            tool_calls_count: 0,
            completed_at: now,
        },
        WorkerOutcome::Exited { success, status, stderr, reply } => if !success {
            ResultView {
                sub_task_id,
                status: SubTaskStatus::Failed,
                summary: "worker exited with "@ + status@,
                artifact_ids: Seq::empty(),
                escalation: Some((trim(stderr@), Seq::empty())),
                token_used: 0,
                tool_calls_count: 0,
                completed_at: now,
            }
        } else {
            match reply {
                WorkerReply::NoLine => failure_view(sub_task_id, "worker produced no result line"@, now),
                WorkerReply::Parsed(r) => ResultView { sub_task_id, ..r@ },
                WorkerReply::Malformed { error, line } => failure_view(
                    sub_task_id,
                    "worker JSON parse error: "@ + error@ + "; raw: "@ + line@,
                    now,
                ),
            }
        },
    }
}

fn reason(prefix: &str, detail: &str) -> (r: String)
    ensures
        r@ == prefix@ + detail@,
{
    let mut m: Vec<char> = Vec::new();
    push_str(&mut m, prefix);
    push_str(&mut m, detail);
    string_from_chars(&m)
}

fn failed_plain(sub_task_id: &str, summary: &str, why: String, now: i64) -> (r: SubTaskResult)
    ensures
        r@ == (ResultView {
            sub_task_id: sub_task_id@,
            status: SubTaskStatus::Failed,
            summary: summary@,
            artifact_ids: Seq::empty(),
            escalation: Some((why@, Seq::empty())),
            token_used: 0,
            tool_calls_count: 0,
            completed_at: now,
        }),
{
    let r = SubTaskResult {
        sub_task_id: own(sub_task_id),
        status: SubTaskStatus::Failed,
        summary: own(summary),
        artifact_ids: Vec::new(),
        escalation: Some(Escalation { reason: why, options: Vec::new() }),
        token_used: 0,
        tool_calls_count: 0,
        completed_at: now,
    };
    proof {
        assert(r@.artifact_ids =~= Seq::<Seq<char>>::empty());
        assert(escalation_view(r.escalation) =~= Some((r.escalation.unwrap().reason@, Seq::<Seq<char>>::empty())));
    }
    r
}

/// The sub-task result of a worker run for `sub_task_id` that went as
/// `outcome`, at `now` ([`run_result`]): a failure for every error of the
/// process layer, for a timeout, for an unsuccessful exit (with the trimmed
/// standard error as the reason) and for a missing or malformed result
/// line; otherwise the worker's own result, with its sub-task id reset to
/// `sub_task_id`.
pub fn worker_result(sub_task_id: &str, outcome: WorkerOutcome, now: i64) -> (r: SubTaskResult)
    ensures
        r@ == run_result(sub_task_id@, outcome, now),
{
    match outcome {
        WorkerOutcome::EncodeFailed(e) => failed_result(
            sub_task_id,
            reason("envelope serialization failed: ", e.as_str()).as_str(),
            now,
        ),
        WorkerOutcome::SpawnFailed(e) => failed_result(sub_task_id, reason("spawn failed: ", e.as_str()).as_str(), now),
        WorkerOutcome::StdinFailed(e) => failed_result(
            sub_task_id,
            reason("stdin write failed: ", e.as_str()).as_str(),
            now,
        ),
        WorkerOutcome::WaitFailed(e) => failed_result(
            sub_task_id,
            reason("child wait failed: ", e.as_str()).as_str(),
            now,
        ),
        WorkerOutcome::TimedOut => failed_plain(sub_task_id, "worker process exceeded timeout", own("timeout"), now),
        WorkerOutcome::Exited { success, status, stderr, reply } => {
            if !success {
                let summary = reason("worker exited with ", status.as_str());
                let why = string_from_chars(&str_trim(stderr.as_str()));
                failed_plain(sub_task_id, summary.as_str(), why, now)
            } else {
                match reply {
                    WorkerReply::NoLine => failed_result(sub_task_id, "worker produced no result line", now),
                    WorkerReply::Parsed(r) => {
                        let mut r = r;
                        r.sub_task_id = own(sub_task_id);
                        r
                    },
                    WorkerReply::Malformed { error, line } => {
                        let mut m: Vec<char> = Vec::new();
                        push_str(&mut m, "worker JSON parse error: ");
                        push_str(&mut m, error.as_str());
                        push_str(&mut m, "; raw: ");
                        push_str(&mut m, line.as_str());
                        failed_result(sub_task_id, string_from_chars(&m).as_str(), now)
                    },
                }
            }
        },
    }
}

} // verus!
