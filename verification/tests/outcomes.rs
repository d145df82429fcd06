use jarvis::handoff::{
    accept, check_acceptable, continued_session, plan, ActivitySummary, HandoffDecision, PlanInputs, SessionStatus,
    SourceSession,
};
use jarvis::plugin::{PluginError, PluginRegistry};
use jarvis::regression::{compile_report, CheckRun, ItemStatus, PlanRun};
use jarvis::sub_task::{SubTaskResult, SubTaskStatus};
use jarvis::tools::{gate_call, timeout_result, CallContext, ToolResult, ToolScope, ToolStatus};
use jarvis::verification::{record_outcome, CheckType, VerifierCheck};
use jarvis::worker::{worker_result, WorkerCommand, WorkerOutcome, WorkerProcessDriver, WorkerReply};

// ── regression runs ─────────────────────────────────────────────────────

fn run_check(doc_id: &str, target: &str, exists: bool, touched: bool) -> CheckRun {
    let mut check = VerifierCheck::new("vc", doc_id, "sec_1", CheckType::FileExists, &format!("expect {target}"));
    let ok = record_outcome(&mut check, &format!("/base/{target}"), exists, "", 1);
    CheckRun { check, target: target.into(), touched_in_changeset: touched, ok }
}

fn plan_run(approved: bool, checks: Vec<CheckRun>) -> PlanRun {
    PlanRun { doc_id: "wt_1".into(), feature_title: "feature A".into(), approved, checks }
}

#[test]
fn regression_pass_when_no_changes() {
    let report = compile_report("regr_1", Some("sess_1"), 5, &vec![plan_run(true, vec![run_check("wt_1", "a.txt", true, false)])]);
    assert_eq!(report.total_checks, 1);
    assert_eq!(report.passed, 1);
    assert_eq!(report.potential_bugs, 0);
    assert_eq!(report.items[0].status, ItemStatus::Pass);
}

#[test]
fn regression_classifies_touched_failure_as_expected_change() {
    let report = compile_report("regr_2", Some("sess_1"), 5, &vec![plan_run(true, vec![run_check("wt_1", "missing.txt", false, true)])]);
    assert_eq!(report.expected_changes, 1);
    assert_eq!(report.potential_bugs, 0);
    assert_eq!(report.items[0].status, ItemStatus::ExpectedChange);
}

#[test]
fn regression_classifies_untouched_failure_as_potential_bug() {
    let report = compile_report("regr_3", Some("sess_1"), 5, &vec![plan_run(true, vec![run_check("wt_1", "missing.txt", false, false)])]);
    assert_eq!(report.potential_bugs, 1);
    assert_eq!(report.items[0].status, ItemStatus::PotentialBug);
}

#[test]
fn regression_skips_unapproved_walkthrough() {
    let report = compile_report("regr_4", None, 5, &vec![plan_run(false, vec![run_check("wt_1", "anything.txt", false, false)])]);
    assert_eq!(report.total_checks, 0);
    assert_eq!(report.items.len(), 0);
}

#[test]
fn regression_discrepancies_are_exact() {
    let report = compile_report(
        "regr_5",
        None,
        5,
        &vec![plan_run(
            true,
            vec![run_check("wt_1", "ok.txt", true, false), run_check("wt_1", "gone.txt", false, true), run_check("wt_1", "lost.txt", false, false)],
        )],
    );
    assert_eq!(report.total_checks, 3);
    assert_eq!(report.items[0].status, ItemStatus::PotentialBug);
    let d = &report.items[0].discrepancies;
    assert_eq!(d.len(), 2);
    assert_eq!(d[0].section_title, "file_exists (gone.txt)");
    assert_eq!(d[0].expected, "expect gone.txt");
    assert_eq!(d[0].actual, "/base/gone.txt missing");
    assert_eq!(d[0].analysis, "discrepancy in a file modified by this change — likely expected");
    assert_eq!(d[1].analysis, "discrepancy in a file NOT modified by this change — flag for review");
    assert_eq!(ItemStatus::ExpectedChange.as_str(), "expected_change");
}

#[test]
fn regression_counts_add_up() {
    let plans = vec![
        plan_run(true, vec![]),
        plan_run(true, vec![run_check("wt_1", "x", false, true)]),
        plan_run(false, vec![run_check("wt_1", "y", false, false)]),
        plan_run(true, vec![run_check("wt_1", "z", false, false)]),
    ];
    let r = compile_report("regr_6", None, 5, &plans);
    assert_eq!((r.passed, r.expected_changes, r.potential_bugs), (1, 1, 1));
    assert_eq!(r.items.len(), 3);
    assert_eq!(r.total_checks, 2);
}

// ── worker runs ─────────────────────────────────────────────────────────

fn parsed_result() -> SubTaskResult {
    SubTaskResult {
        sub_task_id: "placeholder".into(),
        status: SubTaskStatus::Success,
        summary: "ran ok".into(),
        artifact_ids: vec![],
        escalation: None,
        token_used: 3,
        tool_calls_count: 1,
        completed_at: 0,
    }
}

#[test]
fn worker_driver_returns_parsed_subtask_result() {
    let cmd = WorkerCommand::new("/bin/sh").arg("-c").arg("cat >/dev/null").timeout(5_000);
    let driver = WorkerProcessDriver::new("test", cmd);
    assert_eq!(driver.command.args, vec!["-c".to_string(), "cat >/dev/null".to_string()]);
    let outcome = WorkerOutcome::Exited {
        success: true,
        status: "exit status: 0".into(),
        stderr: String::new(),
        reply: WorkerReply::Parsed(parsed_result()),
    };
    let result = worker_result("real_id", outcome, 9);
    assert_eq!(result.status, SubTaskStatus::Success);
    assert_eq!(result.summary, "ran ok");
    assert_eq!(result.sub_task_id, "real_id");
    assert_eq!(result.token_used, 3);
}

#[test]
fn worker_driver_failed_on_nonzero_exit() {
    let outcome = WorkerOutcome::Exited {
        success: false,
        status: "exit status: 7".into(),
        stderr: "broke\n".into(),
        reply: WorkerReply::NoLine,
    };
    let result = worker_result("id_x", outcome, 9);
    assert_eq!(result.status, SubTaskStatus::Failed);
    let reason = result.escalation.map(|e| e.reason).unwrap_or_default();
    assert!(reason.contains("broke"), "expected stderr 'broke' in escalation, got: {reason}");
    assert_eq!(reason, "broke");
    assert!(result.summary.contains("exit"), "expected exit in summary, got: {}", result.summary);
    assert_eq!(result.summary, "worker exited with exit status: 7");
}

#[test]
fn worker_driver_times_out() {
    let result = worker_result("id_t", WorkerOutcome::TimedOut, 9);
    assert_eq!(result.status, SubTaskStatus::Failed);
    let summary = result.summary;
    assert!(summary.contains("timeout") || summary.contains("exceeded"));
    assert_eq!(result.escalation.unwrap().reason, "timeout");
}

#[test]
fn worker_failures_name_their_cause() {
    let r = worker_result("id", WorkerOutcome::SpawnFailed("No such file".into()), 1);
    assert_eq!(r.summary, "driver failed: spawn failed: No such file");
    let r = worker_result(
        "id",
        WorkerOutcome::Exited {
            success: true,
            status: "exit status: 0".into(),
            stderr: String::new(),
            reply: WorkerReply::Malformed { error: "expected value".into(), line: "oops".into() },
        },
        1,
    );
    assert_eq!(r.escalation.unwrap().reason, "worker JSON parse error: expected value; raw: oops");
    let r = worker_result(
        "id",
        WorkerOutcome::Exited { success: true, status: String::new(), stderr: String::new(), reply: WorkerReply::NoLine },
        1,
    );
    assert_eq!(r.summary, "driver failed: worker produced no result line");
    let cmd = WorkerCommand::new("prog").cwd("/w").env("K", "V");
    assert_eq!(cmd.timeout_ms, 60_000);
    assert_eq!(cmd.cwd.as_deref(), Some("/w"));
    assert_eq!(cmd.env, vec![("K".to_string(), "V".to_string())]);
}

// ── handoff ─────────────────────────────────────────────────────────────

fn inputs() -> PlanInputs {
    PlanInputs {
        session_id: "sess_h".into(),
        trace_id: Some("trc_h".into()),
        session_title: "Mirage 重构".into(),
        session_resolved: vec!["sync_state.dart 抽离".into()],
        session_unresolved: vec!["sync_executor.dart 重构".into()],
        advisory_level: "handoff_recommended".into(),
        recent_activity: vec![],
        pinned_memory_ids: vec!["mem_pref".into()],
        pinned_artifact_ids: vec!["art_diff".into()],
        rolling_summary_excerpt: "Mirage 重构".into(),
        must_know_constraints: vec!["保持 stream 接口不变".into()],
    }
}

#[test]
fn handoff_plan_uses_session_resolved_and_unresolved() {
    let snap = plan(&inputs(), "hand_1", 10);
    let sections = &snap.sections;
    assert!(sections.completed_so_far.contains(&"sync_state.dart 抽离".to_string()));
    assert!(sections.open_threads.contains(&"sync_executor.dart 重构".to_string()));
    assert!(sections.suggested_first_message.contains("继续"));
    assert_eq!(sections.title, "Mirage 重构 — handoff (advisory=handoff_recommended)");
    assert_eq!(sections.suggested_first_message, "继续 Mirage 重构：sync_executor.dart 重构");
    assert_eq!(snap.cold_start.pinned_memory_ids, vec!["mem_pref".to_string()]);
    assert_eq!(snap.user_decision, HandoffDecision::Pending);
    assert_eq!(snap.advisory_level, "handoff_recommended");
    assert!(snap.target_session_id.is_none());
    assert_eq!(snap.source_session_id, "sess_h");
    assert_eq!(snap.trace_id.as_deref(), Some("trc_h"));
    assert_eq!(snap.id, "hand_1");
    assert_eq!(snap.generated_at, 10);
    assert!(snap.decided_at.is_none());
}

#[test]
fn handoff_plan_prefers_recent_activity() {
    let mut i = inputs();
    i.session_title = "  ".into();
    i.recent_activity = vec![
        ActivitySummary { title: "a".into(), status: "success".into() },
        ActivitySummary { title: "b".into(), status: "failed".into() },
        ActivitySummary { title: "c".into(), status: "done".into() },
    ];
    i.session_unresolved = vec![];
    let sections = plan(&i, "hand_2", 10).sections;
    assert_eq!(sections.completed_so_far, vec!["a".to_string(), "c".to_string()]);
    assert!(sections.open_threads.is_empty());
    assert_eq!(sections.title, "Session — handoff (advisory=handoff_recommended)");
    assert_eq!(sections.suggested_first_message, "基于上次「a」继续推进");
}

#[test]
fn handoff_double_accept_blocked_by_trigger() {
    assert!(check_acceptable(HandoffDecision::Pending).is_ok());
    assert!(check_acceptable(HandoffDecision::Deferred).is_ok());
    let err = check_acceptable(HandoffDecision::Accepted).unwrap_err();
    assert!(err.to_lowercase().contains("already"));
    assert_eq!(err, "snapshot already finalised as accepted");
    assert_eq!(HandoffDecision::parse("declined"), HandoffDecision::Declined);
    assert_eq!(HandoffDecision::parse("?"), HandoffDecision::Pending);
}

#[test]
fn handoff_continued_session_inherits_threads() {
    let snap = plan(&inputs(), "hand_1", 10);
    let (sections, cold) = (snap.sections, snap.cold_start);
    let s = continued_session(&sections, &cold, None, "sess_new", "coding", 20);
    assert_eq!(s.title, "Mirage 重构 — handoff (advisory=handoff_recommended (continued)");
    assert_eq!(s.unresolved, vec!["sync_executor.dart 重构".to_string()]);
    assert_eq!(s.resolved, vec!["sync_state.dart 抽离".to_string()]);
    assert_eq!(s.memory_refs, vec!["mem_pref".to_string()]);
    assert_eq!(s.id, "sess_new");
    assert_eq!(s.domain, "coding");
    assert_eq!(s.status, SessionStatus::Active);
    let s = continued_session(&sections, &cold, Some("mine"), "sess_new", "coding", 20);
    assert_eq!(s.title, "mine");
    let mut long = cold.clone();
    long.rolling_summary_excerpt = "字".repeat(250);
    let s = continued_session(&sections, &long, None, "sess_new", "coding", 20);
    assert_eq!(s.summary.chars().count(), 200);
    assert_eq!(s.long_summary.chars().count(), 250);
}

#[test]
fn handoff_accept_creates_new_session_and_archives_source() {
    let mut i = inputs();
    i.session_id = "sess_old".into();
    i.trace_id = None;
    i.advisory_level = "handoff_required".into();
    i.pinned_artifact_ids = vec![];
    i.rolling_summary_excerpt = "重构进行中".into();
    i.must_know_constraints = vec!["保持接口".into()];
    i.pinned_memory_ids = vec!["mem_p".into()];
    let mut snap = plan(&i, "hand_a", 10);
    let mut source = Some(SourceSession {
        id: "sess_old".into(),
        domain: "coding".into(),
        status: SessionStatus::Active,
        updated_at: 5,
    });
    let target = accept(&mut snap, &mut source, "sess_new", None, 20).unwrap();
    let src = source.unwrap();
    assert_eq!(src.status, SessionStatus::Archived);
    assert_eq!(src.updated_at, 20);
    assert_eq!(target.id, "sess_new");
    assert_eq!(target.status, SessionStatus::Active);
    assert_eq!(target.domain, "coding");
    assert!(target.unresolved.contains(&"sync_executor.dart 重构".to_string()));
    assert_eq!(snap.user_decision, HandoffDecision::Accepted);
    assert_eq!(snap.target_session_id.as_deref(), Some("sess_new"));
    assert_eq!(snap.decided_at, Some(20));
    assert!(snap.cold_start.pinned_memory_ids.contains(&"mem_p".to_string()));

    let mut gone = None;
    let before = snap.clone();
    let err = accept(&mut snap, &mut gone, "sess_other", None, 30).unwrap_err();
    assert!(err.contains("already"));
    assert_eq!(snap.target_session_id, before.target_session_id);
    assert_eq!(snap.decided_at, Some(20));
}

#[test]
fn handoff_accept_without_source_uses_general_domain() {
    let mut snap = plan(&inputs(), "hand_b", 10);
    snap.user_decision = HandoffDecision::Deferred;
    let mut source = None;
    let target = accept(&mut snap, &mut source, "sess_new", Some("next"), 11).unwrap();
    assert_eq!(target.domain, "general");
    assert_eq!(target.title, "next");
    assert!(source.is_none());
    assert_eq!(snap.user_decision, HandoffDecision::Accepted);
}

// ── tool calls ──────────────────────────────────────────────────────────

fn scope() -> ToolScope {
    ToolScope {
        allowed_tools: vec!["read_file".into(), "shell.exec".into(), "rm".into(), "slow".into()],
        blocked_tools: vec!["rm".into()],
        requires_confirmation: vec!["shell.exec".into()],
        max_tool_calls: 10,
        max_parallel_tools: 1,
    }
}

fn status_of(r: Option<ToolResult>) -> Option<ToolStatus> {
    r.map(|r| r.status)
}

#[test]
fn allowed_tool_succeeds() {
    assert!(gate_call(&scope(), "read_file", false, true).is_none());
}

#[test]
fn tool_outside_scope_denied() {
    assert_eq!(status_of(gate_call(&scope(), "write_file", false, true)), Some(ToolStatus::PermissionDenied));
}

#[test]
fn blocked_tool_overrides_allow_list() {
    let r = gate_call(&scope(), "rm", true, true).unwrap();
    assert_eq!(r.status, ToolStatus::BlockedByScope);
    assert_eq!(r.output_summary, "[blocked_by_scope] tool is blocked");
}

#[test]
fn confirmation_required_pauses_until_user_confirms() {
    assert_eq!(status_of(gate_call(&scope(), "shell.exec", false, true)), Some(ToolStatus::AwaitingConfirmation));
    assert!(gate_call(&scope(), "shell.exec", true, true).is_none());
}

#[test]
fn unknown_tool_is_unavailable() {
    let mut s = scope();
    s.allowed_tools.push("ghost".into());
    assert_eq!(status_of(gate_call(&s, "ghost", false, false)), Some(ToolStatus::Unavailable));
}

#[test]
fn slow_tool_times_out() {
    let r = timeout_result("slow");
    assert_eq!(r.status, ToolStatus::Timeout);
    assert_eq!(r.error.as_deref(), Some("tool call exceeded budget"));
}

#[test]
fn call_context_builders() {
    let c = CallContext::new(ToolScope::empty()).with_session("s").with_trace("t").with_timeout(5).confirmed();
    assert_eq!(c.session_id.as_deref(), Some("s"));
    assert_eq!(c.trace_id.as_deref(), Some("t"));
    assert_eq!(c.timeout_ms, 5);
    assert!(c.confirmed);
    assert_eq!(CallContext::new(ToolScope::empty()).timeout_ms, 30_000);
}

// ── plugins ─────────────────────────────────────────────────────────────

#[test]
fn plugin_install_registers_its_tools() {
    let mut reg = PluginRegistry::new();
    let loaded = reg.install_built("demo", "Demo", &vec!["demo.echo".to_string(), "demo.now".to_string()]).unwrap();
    assert_eq!(loaded.tool_names, vec!["demo.echo".to_string(), "demo.now".to_string()]);
    assert_eq!(reg.provenance_of("demo.echo").as_deref(), Some("demo"));
    assert_eq!(reg.list().len(), 1);
}

#[test]
fn plugin_install_rejects_duplicate_id() {
    let mut reg = PluginRegistry::new();
    reg.install_built("demo", "Demo", &vec!["demo.echo".to_string()]).unwrap();
    assert!(reg.install_check("demo").is_err());
    let err = reg.install_built("demo", "Demo again", &vec![]).unwrap_err();
    assert!(matches!(err, PluginError::AlreadyRegistered(ref id) if id == "demo"));
    assert_eq!(err.message(), "plugin 'demo' is already registered");
}

#[test]
fn plugin_unregister_removes_provenance() {
    let mut reg = PluginRegistry::new();
    reg.install_built("demo", "Demo", &vec!["demo.echo".to_string()]).unwrap();
    let removed = reg.unregister("demo").unwrap();
    assert_eq!(removed, vec!["demo.echo".to_string()]);
    assert!(reg.provenance_of("demo.echo").is_none());
    assert!(reg.list().is_empty());
    let err = reg.unregister("demo").unwrap_err();
    assert_eq!(err.message(), "plugin 'demo' is not registered");
}

#[test]
fn plugin_tool_taken_over_by_later_plugin() {
    let mut reg = PluginRegistry::new();
    reg.install_built("a", "A", &vec!["shared".to_string()]).unwrap();
    reg.install_built("b", "B", &vec!["shared".to_string()]).unwrap();
    assert_eq!(reg.provenance_of("shared").as_deref(), Some("b"));
    reg.unregister("a").unwrap();
    assert!(reg.provenance_of("shared").is_none());
    assert_eq!(reg.list().len(), 1);
    let e = PluginError::Load { plugin: "p".into(), reason: "r".into() };
    assert_eq!(e.message(), "plugin 'p' load failed: r");
}

#[test]
fn plugin_list_tracks_successful_installs_only() {
    let mut reg = PluginRegistry::new();
    let a = reg.install_built("a", "A", &vec!["a.x".to_string()]).unwrap();
    assert!(reg.install_built("a", "A again", &vec!["a.y".to_string()]).is_err());
    reg.install_built("b", "B", &vec!["b.x".to_string()]).unwrap();
    reg.unregister("b").unwrap();
    let listed = reg.list();
    assert_eq!(listed.len(), 1);
    assert_eq!(listed[0].id, a.id);
    assert_eq!(listed[0].label, "A");
    assert_eq!(listed[0].tool_names, vec!["a.x".to_string()]);
    assert_eq!(reg.provenance_of("a.x").as_deref(), Some("a"));
    assert!(reg.provenance_of("a.y").is_none());
    assert!(reg.provenance_of("b.x").is_none());
}

#[test]
fn stored_check_type_reads_back() {
    for t in [CheckType::FileExists, CheckType::FileContent, CheckType::TestRun, CheckType::LintRun, CheckType::DiffMatch] {
        assert_eq!(CheckType::parse(t.as_str()), t);
    }
    assert_eq!(CheckType::parse("smoke_test"), CheckType::FileExists);
}
