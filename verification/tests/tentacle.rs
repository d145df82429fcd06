use jarvis::tentacle::{
    append_note_text, handoff_write_allowed, tick_todo, Tentacle, TentacleLocks, TentaclePaths, TentacleSpec,
};

fn spec(steps: &[&str]) -> TentacleSpec {
    TentacleSpec {
        task_title: "x".into(),
        scope_summary: "y".into(),
        key_files: vec![],
        constraints: vec![],
        do_not_break: vec![],
        todo_steps: steps.iter().map(|s| s.to_string()).collect(),
    }
}

#[test]
fn tentacle_generator_creates_files() {
    let spec = TentacleSpec {
        task_title: "重构 sync 模块".into(),
        scope_summary: "拆分 SyncManager 职责".into(),
        key_files: vec!["lib/sync/sync_manager.dart".into()],
        constraints: vec!["保持 stream 接口".into()],
        do_not_break: vec!["sync_repository.dart 第 45 行".into()],
        todo_steps: vec!["分析依赖".into(), "创建 sync_state.dart".into(), "重构 sync_executor.dart".into()],
    };
    let ctx = spec.render_context();
    assert!(ctx.contains("重构 sync 模块"));
    assert!(ctx.contains("sync_repository.dart 第 45 行"));
    let todo = spec.render_todo();
    assert!(todo.contains("- [ ] 分析依赖"));
}

#[test]
fn tentacle_context_and_todo_text_are_exact() {
    let spec = TentacleSpec {
        task_title: "T".into(),
        scope_summary: "S".into(),
        key_files: vec!["a.rs".into()],
        constraints: vec![],
        do_not_break: vec![],
        todo_steps: vec!["one".into(), "two".into()],
    };
    assert_eq!(
        spec.render_context(),
        "# 任务作用域\n\nT\n\n## 范围\n\nS\n\n## 关键文件\n\n- a.rs\n\n## 约束\n\n"
    );
    assert_eq!(spec.render_todo(), "# 执行计划\n\n- [ ] one\n- [ ] two\n");
}

#[test]
fn tentacle_tick_marks_step_done() {
    let todo = spec(&["分析依赖", "创建文件"]).render_todo();
    let todo = tick_todo(&todo, "分析依赖").unwrap();
    assert!(todo.contains("- [x] 分析依赖"));
    assert!(todo.contains("- [ ] 创建文件"));
}

#[test]
fn tentacle_tick_changes_only_the_first_match() {
    let body = "- [ ] a\n- [ ] a\n";
    assert_eq!(tick_todo(body, "a").unwrap(), "- [x] a\n- [ ] a\n");
    let err = tick_todo("- [x] a\n", "a").unwrap_err();
    assert_eq!(err, "todo.md does not contain `a`");
}

#[test]
fn tentacle_handoff_is_one_shot() {
    assert!(handoff_write_allowed(false).is_ok());
    let err = handoff_write_allowed(true).unwrap_err();
    assert!(err.contains("HANDOFF.md already written"));
}

#[test]
fn tentacle_context_is_write_protected_for_subagents() {
    let t = Tentacle::at(TentaclePaths::from_root("/tmp/t/.tentacle"));
    let err = t.try_overwrite_context("malicious replacement").unwrap_err();
    assert!(err.contains("write-protected"));
}

#[test]
fn tentacle_notes_appends() {
    let notes = append_note_text("", "first finding");
    let notes = append_note_text(&notes, "second finding");
    assert!(notes.contains("first finding"));
    assert!(notes.contains("second finding"));
    assert_eq!(notes, "- first finding\n- second finding\n");
    assert_eq!(append_note_text("old", "x  \n"), "old\n- x\n");
}

#[test]
fn tentacle_paths_are_under_root() {
    let p = TentaclePaths::from_root("/w/.tentacle");
    assert_eq!(p.context_md, "/w/.tentacle/CONTEXT.md");
    assert_eq!(p.todo_md, "/w/.tentacle/todo.md");
    assert_eq!(p.notes_md, "/w/.tentacle/NOTES.md");
    assert_eq!(p.handoff_md, "/w/.tentacle/HANDOFF.md");
}

#[test]
fn tentacle_lock_is_busy_for_thirty_seconds() {
    let mut locks = TentacleLocks::new();
    let g = locks.lock("todo_md", "/r", 1_000).unwrap();
    assert_eq!(g.key(), "todo_md::/r");
    assert!(locks.lock("todo_md", "/r", 30_999).is_err());
    assert!(locks.lock("notes_md", "/r", 2_000).is_ok());
    assert!(locks.lock("todo_md", "/r", 31_000).is_ok());
    locks.unlock(&g);
    assert!(locks.lock("todo_md", "/r", 31_001).is_ok());
}
