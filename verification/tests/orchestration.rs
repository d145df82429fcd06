use jarvis::activity::{ActivityCard, CardDraft, CardStatus};
use jarvis::artifact::{Artifact, ArtifactKind};
use jarvis::checkpoint::{CheckpointDraft, SubTaskCheckpoint};
use jarvis::commands::{CommandCatalogue, CommandDefinition, CommandStatus, CommandStep, StepStatus};
use jarvis::conversation::{
    ConversationBus, InteractionMode, OwnershipLedger, SubChannel, SubChannelStatus, UserMessageRoute,
};
use jarvis::dispatch::{failed_result, node_status_for, pipeline_node, wants_walkthrough, Heartbeat, NoopHeartbeat};
use jarvis::interrupt::{audit_payload, InterruptController, InterruptKind, InterruptOutcome, InterruptPolicy};
use jarvis::steer::{
    admissibility_check, AdapterMode, AdapterPayload, EnqueueRequest, InjectAt, SteerController, SteerEnqueueOutcome,
    SteerScope, SteerSignal, SteerStatus, SteerStore, next_pending,
};
use jarvis::sub_task::{Escalation, SubTaskResult, SubTaskStatus};
use jarvis::task_tree::{build_view, TaskNode, TaskStatus, TaskTreeRow, TreeStatus};
use jarvis::workspace::{DurableWorkspaceLock, WorkspaceLocker, WorkspaceMode, WorktreeManager};

// ── task tree ───────────────────────────────────────────────────────────

fn build_node(id: &str, title: &str, status: TaskStatus, depends: &[&str]) -> TaskNode {
    TaskNode {
        id: id.into(),
        parent_id: None,
        task_id: format!("task_{id}"),
        title: title.into(),
        intent: "coding.generate".into(),
        status,
        assigned_agent_type: "coding".into(),
        assigned_agent_id: None,
        depends_on: depends.iter().map(|s| s.to_string()).collect(),
        result_summary: None,
        result_artifact_ids: vec![],
        error_summary: None,
        created_at: 0,
        completed_at: None,
    }
}

#[test]
fn build_view_separates_status_buckets() {
    let nodes = vec![
        build_node("done", "x", TaskStatus::Success, &[]),
        build_node("running", "y", TaskStatus::Running, &[]),
        build_node("waiting", "z", TaskStatus::Pending, &[]),
    ];
    let view = build_view(&nodes);
    assert_eq!(view.completed_count, 1);
    assert_eq!(view.running_count, 1);
    assert_eq!(view.pending_count, 1);
    assert!(view.active_nodes.iter().any(|n| n.title == "y"));
}

#[test]
fn update_status_records_completion_time() {
    let mut n = build_node("n1", "step", TaskStatus::Running, &[]);
    n.apply_status(TaskStatus::Success, Some("ok"), None, 77);
    assert_eq!(n.status, TaskStatus::Success);
    assert_eq!(n.result_summary.as_deref(), Some("ok"));
    assert!(n.completed_at.is_some());
    n.apply_status(TaskStatus::Running, None, Some("again"), 80);
    assert_eq!(n.completed_at, Some(77));
    assert_eq!(n.result_summary.as_deref(), Some("ok"));
    assert_eq!(n.error_summary.as_deref(), Some("again"));
}

#[test]
fn tree_rows_open_running_and_close() {
    let mut t = TaskTreeRow::create("tree_1", "task_root", "sess_1", Some("trc_1"), 5);
    assert_eq!(t.status, TreeStatus::Running);
    assert_eq!(t.trace_id.as_deref(), Some("trc_1"));
    t.finalize(TreeStatus::Completed, 9);
    assert_eq!(t.status, TreeStatus::Completed);
    assert_eq!((t.created_at, t.updated_at), (5, 9));
}

// ── artifacts and checkpoints ───────────────────────────────────────────

#[test]
fn artifact_create_and_index_entry() {
    let a = Artifact::create("art_1", "sess_1", ArtifactKind::CodePatch, "patch", "diff summary", "patch://abc", Some("node_1"), 12);
    assert_eq!(a.kind, ArtifactKind::CodePatch);
    assert_eq!(a.task_node_id.as_deref(), Some("node_1"));
    let e = a.index_entry();
    assert_eq!((e.id.as_str(), e.title.as_str(), e.created_at), ("art_1", "patch", 12));
    assert_eq!(ArtifactKind::parse("search_result"), ArtifactKind::SearchResult);
    assert_eq!(ArtifactKind::parse("bogus"), ArtifactKind::Note);
    assert_eq!(ArtifactKind::CodePatch.as_str(), "code_patch");
}

#[test]
fn checkpoint_save_and_latest() {
    let draft = CheckpointDraft {
        sub_task_id: "st_1".into(),
        agent_id: Some("agent_a".into()),
        completed_steps: vec!["step1".into()],
        working_set_snapshot: "current snapshot".into(),
        pinned_findings: vec!["found bug at line 42".into()],
        artifact_ids_so_far: vec!["artf_1".into()],
        resume_hint: "resume from step2".into(),
    };
    let c = SubTaskCheckpoint::from_draft(&draft, "ckpt_1", 3);
    assert_eq!(c.resume_hint, "resume from step2");
    assert_eq!(c.pinned_findings.len(), 1);
    assert_eq!(c.agent_id.as_deref(), Some("agent_a"));
    assert_eq!(c.created_at, 3);
}

// ── conversation bus ────────────────────────────────────────────────────

#[test]
fn ownership_acquire_releases_previous() {
    let mut bus = OwnershipLedger::new();
    let first = bus.acquire_ownership("own_1", "sess_1", "agent_a", "orchestrator", None, InteractionMode::Listening, 1);
    let second =
        bus.acquire_ownership("own_2", "sess_1", "agent_b", "coding", Some("st_1"), InteractionMode::WaitingUser, 2);
    let cur = bus.current_ownership("sess_1").unwrap();
    assert_eq!(cur.id, second.id);
    assert_eq!(cur.interaction_mode, InteractionMode::WaitingUser);
    assert_ne!(first.id, second.id);
}

#[test]
fn release_ownership_clears_current() {
    let mut bus = OwnershipLedger::new();
    let r = bus.acquire_ownership("own_1", "sess_1", "a", "coding", None, InteractionMode::Executing, 1);
    bus.release_ownership(&r.id, 2);
    assert!(bus.current_ownership("sess_1").is_none());
}

#[test]
fn classify_interrupt_message() {
    let bus = ConversationBus::new();
    assert_eq!(bus.classify_user_message("停一下"), UserMessageRoute::Interrupt);
    assert_eq!(bus.classify_user_message("cancel that"), UserMessageRoute::Interrupt);
}

#[test]
fn classify_progress_query() {
    let bus = ConversationBus::new();
    assert_eq!(bus.classify_user_message("做到哪了"), UserMessageRoute::ProgressQuery);
}

#[test]
fn classify_steer_message() {
    let bus = ConversationBus::new();
    assert_eq!(bus.classify_user_message("记得保持 stream 接口不变"), UserMessageRoute::Steer);
}

#[test]
fn classify_normal_message() {
    let bus = ConversationBus::new();
    assert_eq!(bus.classify_user_message("这是新的需求"), UserMessageRoute::Normal);
}

#[test]
fn classify_steer_wins_over_progress() {
    let bus = ConversationBus::new();
    assert_eq!(bus.classify_user_message("记得告诉我进度"), UserMessageRoute::Steer);
    assert_eq!(bus.classify_user_message("stop, 记得告诉我进度"), UserMessageRoute::Interrupt);
}

#[test]
fn open_and_list_sub_channel() {
    let mut ch = SubChannel::open("ch_1", "sess_1", "st_1", "coding", Some("/tmp/.tentacle"), 1);
    assert_eq!(ch.sub_task_id, "st_1");
    assert!(ch.is_active());
    ch.status = SubChannelStatus::Done;
    assert!(!ch.is_active());
}

// ── steer ───────────────────────────────────────────────────────────────

fn request(sub_task: &str, content: &str, scope: SteerScope) -> EnqueueRequest {
    EnqueueRequest {
        session_id: "sess_1".into(),
        sub_task_id: sub_task.into(),
        trace_id: None,
        content: content.into(),
        scope,
        inject_at: InjectAt::NextStep,
    }
}

#[test]
fn steer_first_three_accepted_then_throttled() {
    let ctrl = SteerController::new();
    let mut signals: Vec<SteerSignal> = Vec::new();
    for i in 0..3 {
        let recent = ctrl.count_recent(&signals, "st_1", 1_000 + i);
        let outcome = ctrl.enqueue(&request("st_1", &format!("steer {i}"), SteerScope::Constraint), recent, &format!("s{i}"), 1_000 + i);
        match outcome {
            SteerEnqueueOutcome::Accepted(s) => signals.push(s),
            _ => panic!("expected acceptance"),
        }
    }
    let recent = ctrl.count_recent(&signals, "st_1", 1_010);
    let fourth = ctrl.enqueue(&request("st_1", "steer 4", SteerScope::Constraint), recent, "s4", 1_010);
    assert!(matches!(fourth, SteerEnqueueOutcome::RateLimited { .. }), "expected rate limit");
    // Another sub-task is throttled on its own.
    let other = ctrl.count_recent(&signals, "st_2", 1_010);
    assert_eq!(other, 0);
    // Past the window the sub-task may steer again.
    assert_eq!(ctrl.count_recent(&signals, "st_1", 1_001 + 60_000), 2);
    assert_eq!(ctrl.count_recent(&signals, "st_1", 1_003 + 60_000), 0);
}

#[test]
fn steer_store_counts_stores_and_audits() {
    let ctrl = SteerController::new();
    let mut store = SteerStore::new();
    for i in 0..3 {
        assert_eq!(store.count_recent(&ctrl, "st_1", 1_000 + i), i as u32);
        let mut req = request("st_1", &format!("steer {i}"), SteerScope::Constraint);
        req.trace_id = Some("trc".into());
        match store.enqueue(&ctrl, &req, &format!("s{i}"), 1_000 + i) {
            SteerEnqueueOutcome::Accepted(s) => assert_eq!(s.id, format!("s{i}")),
            _ => panic!("expected acceptance"),
        }
        assert_eq!(store.count_recent(&ctrl, "st_1", 1_000 + i), i as u32 + 1);
    }
    assert_eq!(store.next_pending("st_1", InjectAt::NextStep), Some(0));
    assert_eq!(store.audit.len(), 3);
    assert_eq!(store.audit[2].signal_id, "s2");
    assert_eq!(store.audit[2].content, "steer 2");
    assert_eq!(store.audit[2].trace_id.as_deref(), Some("trc"));
    match store.enqueue(&ctrl, &request("st_1", "steer 4", SteerScope::Constraint), "s4", 1_010) {
        SteerEnqueueOutcome::RateLimited { recent_count } => assert_eq!(recent_count, 3),
        _ => panic!("expected rate limit"),
    }
    assert_eq!(store.signals.len(), 3);
    assert_eq!(store.audit.len(), 3);
}

#[test]
fn steer_status_transitions_pending_injected_acknowledged() {
    let ctrl = SteerController::new();
    let outcome = ctrl.enqueue(&request("st_2", "x", SteerScope::Direction), 0, "s_x", 5);
    let mut signals = match outcome {
        SteerEnqueueOutcome::Accepted(s) => vec![s],
        _ => panic!("expected accepted"),
    };
    let pending = next_pending(&signals, "st_2", InjectAt::NextStep);
    assert_eq!(pending, Some(0));
    signals[0].mark_injected(6);
    assert!(next_pending(&signals, "st_2", InjectAt::NextStep).is_none(), "should no longer be pending");
    assert_eq!(signals[0].status, SteerStatus::Injected);
    signals[0].mark_acknowledged(7);
    assert_eq!(signals[0].status, SteerStatus::Acknowledged);
    assert_eq!((signals[0].injected_at, signals[0].acknowledged_at), (Some(6), Some(7)));
}

fn signal(content: &str, scope: SteerScope) -> SteerSignal {
    SteerSignal {
        id: "s1".into(),
        session_id: "sess_1".into(),
        sub_task_id: "st_1".into(),
        trace_id: None,
        content: content.into(),
        scope,
        inject_at: InjectAt::NextStep,
        status: SteerStatus::Pending,
        created_at: 0,
        injected_at: None,
        acknowledged_at: None,
    }
}

#[test]
fn steer_adapter_records_payload_in_append_mode() {
    let s = signal("保持 stream 接口", SteerScope::Constraint);
    let payload = AdapterPayload::from_signal(&s);
    assert_eq!(payload.mode, AdapterMode::Append);
    assert_eq!(payload.source_signal_id, "s1");
    assert_eq!(payload.message, "保持 stream 接口");
}

#[test]
fn steer_admissibility_rejects_context_override_attempts() {
    assert!(admissibility_check(&signal("请覆盖 CONTEXT.md 中的约束", SteerScope::Direction)).is_err());
}

#[test]
fn steer_admissibility_rejects_empty_content() {
    assert!(admissibility_check(&signal("   ", SteerScope::Direction)).is_err());
}

#[test]
fn steer_admissibility_accepts_normal_constraint() {
    assert!(admissibility_check(&signal("保持 stream 接口", SteerScope::Constraint)).is_ok());
}

#[test]
fn steer_admissibility_messages() {
    assert_eq!(admissibility_check(&signal("", SteerScope::Direction)), Err("steer content is empty".to_string()));
    assert_eq!(
        admissibility_check(&signal("Change tool_scope now", SteerScope::Constraint)),
        Err("steer cannot modify tool_scope".to_string())
    );
    assert!(admissibility_check(&signal("Change tool_scope now", SteerScope::Direction)).is_ok());
}

// ── workspace locks ─────────────────────────────────────────────────────

#[test]
fn workspace_writer_lock_excludes_other_writers() {
    let mut locker = WorkspaceLocker::new();
    let _writer = locker.acquire("/tmp/jarvis_ws_test_a", "task_a", WorkspaceMode::Writer, 1).expect("acquire writer");
    let err = locker.acquire("/tmp/jarvis_ws_test_a", "task_b", WorkspaceMode::Writer, 2);
    assert!(err.is_err(), "second writer should not acquire");
}

#[test]
fn workspace_writer_blocks_readers() {
    let mut locker = WorkspaceLocker::new();
    let _writer = locker.acquire("/tmp/jarvis_ws_test_b", "task_a", WorkspaceMode::Writer, 1).expect("acquire writer");
    let r = locker.acquire("/tmp/jarvis_ws_test_b", "task_r", WorkspaceMode::Reader, 2);
    assert!(r.is_err());
}

#[test]
fn workspace_readers_can_share() {
    let mut locker = WorkspaceLocker::new();
    let _r1 = locker.acquire("/tmp/jarvis_ws_test_c", "r1", WorkspaceMode::Reader, 1).expect("first reader");
    let _r2 = locker.acquire("/tmp/jarvis_ws_test_c", "r2", WorkspaceMode::Reader, 2).expect("second reader");
}

#[test]
fn workspace_lock_releases_on_drop() {
    let mut locker = WorkspaceLocker::new();
    let w = locker.acquire("/tmp/jarvis_ws_test_d", "task_a", WorkspaceMode::Writer, 1).expect("acquire");
    locker.release(&w, 2);
    let _w2 = locker.acquire("/tmp/jarvis_ws_test_d", "task_b", WorkspaceMode::Writer, 3).expect("re-acquire after release");
}

#[test]
fn worktree_paths_are_under_base() {
    let mgr = WorktreeManager::new("/repo");
    assert_eq!(mgr.worktrees_root(), "/repo/.jarvis/worktrees");
    let wt = mgr.worktree_for("task_xyz");
    assert_eq!(wt.root, "/repo/.jarvis/worktrees/task_xyz");
    assert_eq!(wt.task_id, "task_xyz");
}

#[test]
fn durable_lock_staleness_and_record() {
    assert!(DurableWorkspaceLock::is_stale(Some(1), 0));
    assert!(!DurableWorkspaceLock::is_stale(Some(0), 0));
    assert!(!DurableWorkspaceLock::is_stale(None, 0));
    let l = DurableWorkspaceLock::for_task("/w", "task_dur");
    assert_eq!(l.path(), "/w/.jarvis/locks/task_dur.lock");
    assert_eq!(
        DurableWorkspaceLock::record("t1", 42, "2026-01-01T00:00:00Z"),
        "{\"task_id\":\"t1\",\"pid\":42,\"acquired_at\":\"2026-01-01T00:00:00Z\"}\n"
    );
}

// ── activity cards ──────────────────────────────────────────────────────

#[test]
fn activity_card_lifecycle() {
    let draft = CardDraft {
        session_id: "sess_1".into(),
        sub_task_id: Some("st_1".into()),
        trace_id: None,
        agent_type: "coding".into(),
        agent_display_name: "代码助手".into(),
        agent_avatar_emoji: "💻".into(),
        title: "重构 sync".into(),
    };
    let mut card = ActivityCard::create(&draft, "ac_1", 10);
    assert_eq!(card.status, CardStatus::Pending);
    card.set_progress("读取 sync.dart", "已读 1/4", 11);
    assert_eq!(card.status, CardStatus::Running);
    assert_eq!(card.current_action.as_deref(), Some("读取 sync.dart"));
    card.update_status(CardStatus::Success, Some("done"), 12);
    assert_eq!(card.status, CardStatus::Success);
    assert!(card.completed_at.is_some());
    assert!(!card.is_expanded);
    assert_eq!(card.progress_text.as_deref(), Some("done"));
}

#[test]
fn activity_card_failure_stays_expanded() {
    let draft = CardDraft {
        session_id: "s".into(),
        sub_task_id: None,
        trace_id: None,
        agent_type: "coding".into(),
        agent_display_name: "d".into(),
        agent_avatar_emoji: "e".into(),
        title: "t".into(),
    };
    let mut card = ActivityCard::create(&draft, "ac_2", 0);
    card.update_status(CardStatus::WaitingUser, None, 1);
    assert!(card.is_expanded);
    assert!(card.completed_at.is_none());
    card.update_status(CardStatus::Failed, None, 2);
    assert!(card.is_expanded);
    assert_eq!(card.completed_at, Some(2));
    assert_eq!(CardStatus::parse("waiting_user"), CardStatus::WaitingUser);
    assert_eq!(CardStatus::parse("weird"), CardStatus::Pending);
}

// ── interrupts ──────────────────────────────────────────────────────────

#[test]
fn soft_interrupt_acks_then_acknowledge_clears_pending() {
    let mut ctrl = InterruptController::new();
    let outcome = ctrl.soft("st_1", 100);
    assert_eq!(outcome, InterruptOutcome::SoftAcked);
    ctrl.acknowledge_soft("st_1");
    let escalated = ctrl.evaluate_pending(1_000_000);
    assert!(escalated.is_empty());
}

#[test]
fn soft_interrupt_escalates_after_timeout() {
    let mut ctrl = InterruptController::with_policy(InterruptPolicy { soft_grace_ms: 0, soft_escalation_timeout_ms: 0 });
    ctrl.soft("st_x", 5);
    let escalated = ctrl.evaluate_pending(5);
    assert_eq!(escalated.len(), 1);
    assert_eq!(escalated[0], "st_x");
    let outcome = ctrl.hard(&escalated[0]);
    assert_eq!(outcome, InterruptOutcome::HardApplied);
}

#[test]
fn soft_interrupt_waits_within_timeout() {
    let mut ctrl = InterruptController::new();
    assert_eq!(ctrl.policy().soft_escalation_timeout_ms, 20_000);
    ctrl.soft("old", 0);
    ctrl.soft("new", 15_000);
    assert_eq!(ctrl.evaluate_pending(19_999), Vec::<String>::new());
    assert_eq!(ctrl.evaluate_pending(20_000), vec!["old".to_string()]);
    assert_eq!(ctrl.evaluate_pending(34_999), Vec::<String>::new());
    assert_eq!(ctrl.evaluate_pending(35_000), vec!["new".to_string()]);
}

#[test]
fn hard_interrupt_closes_active_subchannel() {
    let mut ch = SubChannel::open("ch_h", "sess_1", "st_h", "coding", None, 0);
    let mut ctrl = InterruptController::new();
    ctrl.soft("st_h", 0);
    ctrl.soft("st_other", 0);
    let outcome = ctrl.hard("st_h");
    assert_eq!(outcome, InterruptOutcome::HardApplied);
    if ch.sub_task_id == "st_h" {
        ch.set_status(SubChannelStatus::Done, 1);
    }
    assert!(!ch.is_active());
    assert_eq!(ctrl.evaluate_pending(100_000), vec!["st_other".to_string()]);
}

#[test]
fn async_tag_marks_channel_suspended() {
    let mut ch = SubChannel::open("ch_a", "sess_1", "st_a", "research", None, 0);
    let ctrl = InterruptController::new();
    assert_eq!(ctrl.async_tag(), InterruptOutcome::AsyncTagged);
    ch.set_status(SubChannelStatus::Suspended, 1);
    assert!(ch.is_active());
    assert_eq!(ch.status, SubChannelStatus::Suspended);
    assert_eq!(InterruptKind::Async.as_str(), "async");
    assert_eq!(
        audit_payload("intr_1", "st_a", InterruptKind::Soft, "2026-01-01T00:00:00Z"),
        "{\"id\":\"intr_1\",\"sub_task_id\":\"st_a\",\"kind\":\"soft\",\"ts\":\"2026-01-01T00:00:00Z\"}"
    );
}

#[test]
fn classify_ignores_case_of_interrupts() {
    let bus = ConversationBus::new();
    assert_eq!(bus.classify_user_message("STOP right there"), UserMessageRoute::Interrupt);
    assert_eq!(bus.classify_user_message("Status?"), UserMessageRoute::ProgressQuery);
}

// ── dispatch and pipeline ───────────────────────────────────────────────

#[test]
fn dispatcher_runs_in_process_driver_and_marks_node_success() {
    let result = SubTaskResult {
        sub_task_id: "st_1".into(),
        status: SubTaskStatus::Success,
        summary: "hi".into(),
        artifact_ids: vec![],
        escalation: None,
        token_used: 1,
        tool_calls_count: 0,
        completed_at: 0,
    };
    let mut node = pipeline_node("node_a", "task_a", "say hi", "coding", 0);
    assert_eq!(node.intent, "coding.generate");
    node.apply_status(node_status_for(result.status), Some(&result.summary), None, 1);
    assert_eq!(node.status, TaskStatus::Success);
    assert_eq!(node.result_summary.as_deref(), Some("hi"));
    assert_eq!(node_status_for(SubTaskStatus::Partial), TaskStatus::Success);
    assert!(wants_walkthrough(SubTaskStatus::Partial));
    let hb = NoopHeartbeat;
    hb.beat("agent");
    hb.forget("agent");
}

#[test]
fn dispatcher_records_failed_node_when_driver_returns_failed() {
    let result = failed_result("st_b", "boom", 3);
    assert_eq!(result.status, SubTaskStatus::Failed);
    assert_eq!(result.summary, "driver failed: boom");
    let reason = result.escalation.as_ref().map(|e: &Escalation| e.reason.as_str());
    assert_eq!(reason, Some("boom"));
    let mut node = pipeline_node("node_b", "task_b", "blow up", "coding", 0);
    node.apply_status(node_status_for(result.status), Some(&result.summary), reason, 4);
    assert_eq!(node.status, TaskStatus::Failed);
    assert!(node.error_summary.is_some());
    assert!(!wants_walkthrough(SubTaskStatus::NeedClarification));
}

// ── commands ────────────────────────────────────────────────────────────

fn step(agent: &str, instruction: &str) -> CommandStep {
    CommandStep { agent: agent.into(), instruction: instruction.into(), inject_at: None }
}

fn catalogue() -> CommandCatalogue {
    CommandCatalogue {
        commands: vec![CommandDefinition {
            id: "walkthrough_and_pr".into(),
            label: "生成 Walkthrough + 创建 PR".into(),
            icon: "📋".into(),
            description: String::new(),
            steps: vec![
                step("walkthrough", "为本 session 所有产出生成 Walkthrough"),
                step("verifier", "验证所有 WalkthroughDoc"),
                step("devops", "创建 PR"),
            ],
            parallel: false,
            require_approval: true,
            config: serde_json::Value::Null,
            on_conflict_uncertain: None,
        }],
    }
}

#[test]
fn command_runner_lifecycle() {
    let cat = catalogue();
    let mut exec = cat.start("cmdx_1", "sess_1", "walkthrough_and_pr", "user_button", 1).unwrap();
    assert_eq!(exec.status, CommandStatus::Running);
    assert_eq!(exec.steps.len(), 3);
    exec.record_step(0, StepStatus::Done, Some("ok"), 2);
    assert_eq!(exec.steps[0].status, StepStatus::Done);
    assert_eq!(exec.status, CommandStatus::Running);
    exec.record_step(1, StepStatus::Done, None, 3);
    exec.record_step(2, StepStatus::Done, None, 4);
    assert_eq!(exec.status, CommandStatus::Completed);
    assert!(exec.completed_at.is_some());
}

#[test]
fn command_runner_failure_short_circuits() {
    let cat = catalogue();
    let mut exec = cat.start("cmdx_2", "sess_1", "walkthrough_and_pr", "user_button", 1).unwrap();
    exec.record_step(0, StepStatus::Failed, Some("oops"), 2);
    assert_eq!(exec.status, CommandStatus::Failed);
}

#[test]
fn command_runner_unknown_command_errors() {
    let cat = catalogue();
    assert!(cat.start("cmdx_3", "sess_1", "no_such", "user_button", 1).is_err());
}

#[test]
fn stored_steer_fields_read_back() {
    for s in [SteerScope::Direction, SteerScope::Constraint, SteerScope::Priority] {
        assert_eq!(SteerScope::parse(s.as_str()), s);
    }
    assert_eq!(SteerScope::parse("sideways"), SteerScope::Constraint);
    for a in [InjectAt::NextStep, InjectAt::NextToolCall, InjectAt::NextCheckpoint] {
        assert_eq!(InjectAt::parse(a.as_str()), a);
    }
    assert_eq!(InjectAt::parse("later"), InjectAt::NextStep);
}
