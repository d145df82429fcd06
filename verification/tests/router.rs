use jarvis::agents::AgentDefinition;
use jarvis::intent::{apply_rules, derive_domain, dominant_hint, format_weight, IntentHint};
use jarvis::judge::{format_two_places, JudgeInputs, RuleBasedJudge};
use jarvis::mention::{looks_like_steer, parse_mentions, MentionMode};
use jarvis::prompt::{render_stable_block, Persona, StablePromptInputs};
use jarvis::registry::builtin_agents;
use jarvis::routing::{build_mention_warning, build_notes, route_finish, route_start, RoutePlan, RouterInput};
use jarvis::session::{has_explicit_reference, resolve_explicit, resolve_scored, SessionAction, SessionDecision};

fn registry() -> Vec<AgentDefinition> {
    builtin_agents()
}

fn hint_names(input: &str) -> Vec<String> {
    apply_rules(input).into_iter().map(|h| h.hint).collect()
}

fn route(input: &str, hint: Option<&str>, running: &[&str], most_recent: Option<&str>) -> RoutePlan {
    let reg = registry();
    let ri = RouterInput {
        user_input: input.to_string(),
        session_id_hint: hint.map(|s| s.to_string()),
        running_agent_types: running.iter().map(|s| s.to_string()).collect(),
    };
    let start = route_start(&ri, &reg);
    let session = if start.explicit_reference {
        resolve_explicit(hint, most_recent)
    } else {
        resolve_scored(SessionDecision::CreateNew)
    };
    route_finish(&ri, &reg, &start, session)
}

// ── intent rules ────────────────────────────────────────────────────────

#[test]
fn devops_keyword_emits_devops_networking_hint() {
    let names = hint_names("OpenWrt hosts 解析不生效");
    assert!(names.contains(&"devops.networking".to_string()));
}

#[test]
fn coding_keyword_emits_coding_debug_hint() {
    let names = hint_names("这个报错帮我看看");
    assert!(names.contains(&"coding.debug".to_string()));
}

#[test]
fn memory_update_keyword_emits_memory_hint() {
    let names = hint_names("记住我不喜欢用 class component");
    assert!(names.contains(&"memory.update".to_string()));
}

#[test]
fn creative_rule_uses_creative_icon_not_design() {
    let names = hint_names("帮我生成一个图标 prompt");
    assert!(names.contains(&"creative.icon".to_string()));
    assert!(!names.contains(&"creative.design".to_string()));
}

#[test]
fn no_rule_match_returns_empty() {
    let hints = apply_rules("今天天气怎么样");
    assert!(hints.is_empty());
}

#[test]
fn rules_keep_rule_order_and_weights() {
    let hints = apply_rules("OpenWrt DNS 报错");
    let got: Vec<(String, u32, String)> = hints.into_iter().map(|h| (h.hint, h.weight, h.matched)).collect();
    assert_eq!(
        got,
        vec![
            ("coding.debug".to_string(), 400, "coding.debug keywords".to_string()),
            ("devops.networking".to_string(), 400, "devops.networking keywords".to_string()),
        ]
    );
}

#[test]
fn rules_match_without_regard_to_case() {
    let names = hint_names("DOCKER compose up");
    assert_eq!(names, vec!["devops.docker".to_string()]);
}

#[test]
fn dominant_hint_takes_last_of_equal_weights() {
    let hints = apply_rules("OpenWrt DNS 报错");
    let d = dominant_hint(&hints).unwrap();
    assert_eq!(d.hint, "devops.networking");
    let none: Vec<IntentHint> = vec![];
    assert!(dominant_hint(&none).is_none());
}

#[test]
fn dominant_hint_prefers_heavier() {
    let hints = apply_rules("记住以后用 docker");
    let d = dominant_hint(&hints).unwrap();
    assert_eq!(d.hint, "memory.update");
    assert_eq!(d.weight, 800);
}

#[test]
fn domain_is_intent_prefix() {
    assert_eq!(derive_domain("devops.networking"), "devops");
    assert_eq!(derive_domain("chat"), "chat");
    assert_eq!(derive_domain(""), "");
    assert_eq!(derive_domain(".x"), "");
}

#[test]
fn weights_print_as_shortest_decimals() {
    let f = |w: u32| format_weight(w).into_iter().collect::<String>();
    assert_eq!(f(400), "0.4");
    assert_eq!(f(350), "0.35");
    assert_eq!(f(800), "0.8");
    assert_eq!(f(1000), "1");
    assert_eq!(f(1250), "1.25");
    assert_eq!(f(5), "0.005");
    assert_eq!(f(0), "0");
}

// ── explicit references ─────────────────────────────────────────────────

#[test]
fn explicit_reference_detection() {
    assert!(has_explicit_reference("继续刚才那个"));
    assert!(has_explicit_reference("继续"));
    assert!(!has_explicit_reference("帮我重构"));
}

#[test]
fn explicit_reference_ignores_case() {
    assert!(has_explicit_reference("Continue where we left off"));
    assert!(has_explicit_reference("the PREVIOUS answer"));
    assert!(!has_explicit_reference("start fresh"));
}

#[test]
fn explicit_resolution_prefers_hint_then_recent() {
    let r = resolve_explicit(Some("sess_h"), Some("sess_r"));
    assert_eq!(r.action, SessionAction::ContinueExisting);
    assert_eq!(r.target_session_id.as_deref(), Some("sess_h"));
    assert!(!r.clarification_needed);
    let r = resolve_explicit(None, Some("sess_r"));
    assert_eq!(r.target_session_id.as_deref(), Some("sess_r"));
    let r = resolve_explicit(None, None);
    assert_eq!(r.action, SessionAction::CreateNew);
    assert!(r.target_session_id.is_none());
    assert!(r.clarification_needed);
}

#[test]
fn scored_resolution_follows_decision() {
    let r = resolve_scored(SessionDecision::ContinueExisting { session_id: "s1".into(), clarification_needed: true });
    assert_eq!(r.action, SessionAction::ContinueExisting);
    assert_eq!(r.target_session_id.as_deref(), Some("s1"));
    assert!(r.clarification_needed);
    let r = resolve_scored(SessionDecision::NeedsClarification);
    assert_eq!(r.action, SessionAction::CreateNew);
    assert!(!r.clarification_needed);
    assert_eq!(SessionAction::ContinueExisting.as_str(), "continue_existing");
    assert_eq!(SessionAction::CreateNew.as_str(), "create_new");
}

// ── @mention parsing ────────────────────────────────────────────────────

#[test]
fn no_mention_returns_none_mode() {
    let r = parse_mentions("帮我重构 sync 模块", &registry());
    assert_eq!(r.mention_mode, MentionMode::NoMention);
    assert_eq!(r.clean_input, "帮我重构 sync 模块");
    assert!(r.mentions.is_empty());
}

#[test]
fn single_mention_resolves_by_display_name() {
    let r = parse_mentions("@代码助手 帮我重构", &registry());
    assert_eq!(r.mention_mode, MentionMode::Single);
    assert_eq!(r.mentions[0].resolved_type.as_deref(), Some("coding"));
    assert_eq!(r.clean_input, "帮我重构");
}

#[test]
fn alias_mention_resolves() {
    let r = parse_mentions("@coding 帮我", &registry());
    assert_eq!(r.mentions[0].resolved_type.as_deref(), Some("coding"));
}

#[test]
fn multi_mention_returns_multi_mode() {
    let r = parse_mentions("@代码助手 @研究助手 重构并搜索方案", &registry());
    assert_eq!(r.mention_mode, MentionMode::Multi);
    let resolved: Vec<&str> = r.mentions.iter().filter_map(|m| m.resolved_type.as_deref()).collect();
    assert!(resolved.contains(&"coding"));
    assert!(resolved.contains(&"research"));
}

#[test]
fn unknown_agent_is_unresolved() {
    let r = parse_mentions("@测试助手 帮我跑测试", &registry());
    assert!(r.mentions[0].unresolved);
    assert_eq!(r.mention_mode, MentionMode::NoMention);
}

#[test]
fn jarvis_orchestrator_is_not_mentionable() {
    let r = parse_mentions("@Jarvis 帮我", &registry());
    assert!(r.mentions[0].unresolved);
}

#[test]
fn verifier_is_not_mentionable() {
    let r = parse_mentions("@核查助手 验证一下", &registry());
    assert!(r.mentions[0].unresolved);
}

#[test]
fn mention_text_and_spacing() {
    let r = parse_mentions("  hi @coding,  please\t@  fix @x_1!  ", &registry());
    let raws: Vec<&str> = r.mentions.iter().map(|m| m.raw_text.as_str()).collect();
    assert_eq!(raws, vec!["@coding", "@x_1"]);
    assert_eq!(r.clean_input, "hi , please @ fix !");
    assert_eq!(r.raw_input, "  hi @coding,  please\t@  fix @x_1!  ");
    assert!(!r.mentions[0].unresolved);
    assert!(r.mentions[1].unresolved);
    assert_eq!(r.mention_mode, MentionMode::Single);
    assert_eq!(MentionMode::Multi.as_str(), "multi");
    assert_eq!(MentionMode::NoMention.as_str(), "none");
}

#[test]
fn steer_phrases_are_detected() {
    assert!(looks_like_steer("记得保持 stream 接口不变"));
    assert!(looks_like_steer("btw use tabs"));
    assert!(!looks_like_steer("重构并搜索方案"));
}

// ── routing ─────────────────────────────────────────────────────────────

#[test]
fn route_devops_input_picks_devops_agent() {
    let plan = route("OpenWrt DNS hosts 文件不生效", None, &[], None);
    assert_eq!(plan.agent_type, "devops");
    assert_eq!(plan.domain, "devops");
}

#[test]
fn route_mention_overrides_agent_type() {
    let plan = route("@代码助手 帮我看看这个 openwrt 相关的代码", None, &[], None);
    assert_eq!(plan.agent_type, "coding");
    assert!(plan.mention_override);
    assert!(plan.router_notes.contains("user @ specified"));
}

#[test]
fn route_multi_mention_forces_orchestrator() {
    let plan = route("@代码助手 @研究助手 重构并搜索方案", None, &[], None);
    assert_eq!(plan.agent_type, "orchestrator");
    assert!(plan.forced_sub_agents.contains(&"coding".to_string()));
    assert!(plan.forced_sub_agents.contains(&"research".to_string()));
    assert!(plan.mention_override);
}

#[test]
fn route_steer_when_mentioned_agent_running() {
    let plan = route("@代码助手 记得保持 stream 接口不变", None, &["coding"], None);
    assert_eq!(plan.override_action.as_deref(), Some("steer"));
    assert!(plan.steer_content.is_some());
}

#[test]
fn route_unresolved_mention_continues_normally() {
    let reg = registry();
    let ri = RouterInput {
        user_input: "@测试助手 帮我跑单元测试".into(),
        session_id_hint: None,
        running_agent_types: vec![],
    };
    let start = route_start(&ri, &reg);
    let plan = route_finish(&ri, &reg, &start, resolve_scored(SessionDecision::CreateNew));
    assert!(!plan.agent_type.is_empty());
    assert!(start.mention_warning.is_some());
    let warn = start.mention_warning.unwrap();
    assert!(warn.contains("@代码助手") || warn.contains("@运维助手"));
}

#[test]
fn route_explicit_reference_continues_existing_session() {
    let plan = route("继续刚才的重构", None, &[], Some("sess_old"));
    assert_eq!(plan.session_action, SessionAction::ContinueExisting);
    assert_eq!(plan.target_session_id.as_deref(), Some("sess_old"));
}

#[test]
fn route_notes_and_topic_are_exact() {
    let plan = route("OpenWrt DNS hosts 文件不生效，帮我排查一下好吗谢谢你", None, &[], None);
    assert_eq!(plan.router_notes, "rule hint: devops.networking (w=0.4)");
    assert_eq!(plan.topic, "OpenWrt DNS hosts 文件");
    assert!(plan.memory_read);
    assert!(!plan.memory_write);
    let plan = route("今天天气怎么样", None, &[], None);
    assert_eq!(plan.primary_intent, "chat");
    assert_eq!(plan.agent_type, "general");
    assert_eq!(plan.router_notes, "no rule layer hits — routed via fallback");
    let plan = route("记住我不喜欢用 class component", None, &[], None);
    assert!(plan.memory_write);
    assert_eq!(plan.agent_type, "orchestrator");
}

#[test]
fn route_steer_notes_name_the_override() {
    let plan = route("@代码助手 记得保持 stream 接口不变", None, &["coding"], None);
    assert_eq!(plan.agent_type, "coding");
    assert!(!plan.mention_override);
    assert_eq!(plan.steer_content.as_deref(), Some("记得保持 stream 接口不变"));
    assert_eq!(plan.router_notes, "[mention override: steer] · no rule layer hits — routed via fallback");
}

#[test]
fn mention_warning_lists_unresolved_and_mentionable() {
    let reg = registry();
    let r = parse_mentions("@coding @nobody @ghost hi", &reg);
    let w = build_mention_warning(&r, &reg).unwrap();
    assert!(w.starts_with("未识别的助手：@nobody, @ghost。当前可以 @ 的助手："));
    assert!(w.contains("💻 @代码助手"));
    let r = parse_mentions("@coding hi", &reg);
    assert!(build_mention_warning(&r, &reg).is_none());
}

#[test]
fn notes_join_all_parts() {
    let hints = apply_rules("记住以后用 docker");
    let n = build_notes(true, "coding", &hints, Some("steer"));
    assert_eq!(n, "[mention override: steer] · [user @ specified coding] · rule hint: memory.update (w=0.8)");
}

// ── rule-based judge ────────────────────────────────────────────────────

fn judge_confidence(weight: u32) -> f32 {
    (0.45 + weight as f32 / 1000.0 * 0.4).min(0.85)
}

#[test]
fn rule_based_judge_uses_dominant_hint_for_intent() {
    let judge = RuleBasedJudge;
    let hints = apply_rules("OpenWrt DNS hosts 报错");
    let agents: Vec<String> = registry()
        .iter()
        .filter(|a| a.mentionable || a.agent_type == "general")
        .map(|a| a.agent_type.clone())
        .collect();
    let outcome = judge.judge(&JudgeInputs {
        user_input: "OpenWrt DNS hosts 报错".into(),
        trace_id: "trc".into(),
        task_id: "task".into(),
        rule_hints: hints,
        recent_session_titles: vec![],
        allowed_agents: agents,
    });
    assert!(outcome.primary_intent.starts_with("devops") || outcome.primary_intent.starts_with("coding"));
    assert!(judge_confidence(outcome.weight) < 1.0);
}

#[test]
fn rule_based_judge_creates_new_session_when_no_recent() {
    let judge = RuleBasedJudge;
    let hints = apply_rules("帮我搜索 Riverpod 教程");
    let outcome = judge.judge(&JudgeInputs {
        user_input: "帮我搜索 Riverpod 教程".into(),
        trace_id: "trc".into(),
        task_id: "task".into(),
        rule_hints: hints,
        recent_session_titles: vec![],
        allowed_agents: vec!["general".to_string(), "research".to_string()],
    });
    assert_eq!(outcome.session_action, SessionAction::CreateNew);
}

#[test]
fn rule_based_judge_marks_clarification_when_hints_weak() {
    let judge = RuleBasedJudge;
    let outcome = judge.judge(&JudgeInputs {
        user_input: "帮我看看".into(),
        trace_id: "trc".into(),
        task_id: "task".into(),
        rule_hints: vec![],
        recent_session_titles: vec![],
        allowed_agents: vec!["general".to_string()],
    });
    assert!(outcome.clarification_needed);
}

#[test]
fn rule_based_judge_fields_are_exact() {
    let judge = RuleBasedJudge;
    let hints = apply_rules("帮我搜索 Riverpod 教程");
    let outcome = judge.judge(&JudgeInputs {
        user_input: "帮我搜索 Riverpod 教程".into(),
        trace_id: "trc".into(),
        task_id: "task".into(),
        rule_hints: hints,
        recent_session_titles: vec!["earlier".into()],
        allowed_agents: vec!["general".to_string(), "research".to_string()],
    });
    assert_eq!(outcome.primary_intent, "research.web_search");
    assert_eq!(outcome.domain, "research");
    assert_eq!(outcome.agent_type, "research");
    assert_eq!(outcome.session_action, SessionAction::ContinueExisting);
    assert_eq!(outcome.weight, 300);
    assert!(!outcome.clarification_needed);
    assert_eq!(outcome.router_notes, "rule-based judge with dominant weight 0.30");
    assert_eq!(outcome.topic, "帮我搜索 Riverpod 教程");
    assert!(outcome.secondary_intents.is_empty());
}

#[test]
fn two_place_weights() {
    let f = |w: u32| format_two_places(w).into_iter().collect::<String>();
    assert_eq!(f(0), "0.00");
    assert_eq!(f(350), "0.35");
    assert_eq!(f(800), "0.80");
    assert_eq!(f(1000), "1.00");
}

// ── system prompt ───────────────────────────────────────────────────────

fn coding_agent() -> AgentDefinition {
    registry().into_iter().find(|a| a.agent_type == "coding").unwrap()
}

#[test]
fn stable_block_includes_agent_identity() {
    let block = render_stable_block(&StablePromptInputs {
        agent: coding_agent(),
        persona: None,
        framework_directives: vec![],
    });
    assert!(block.contains("代码助手"));
    assert!(block.contains("💻"));
}

#[test]
fn stable_block_appends_persona_and_user_md() {
    let p = Persona { persona_md: "## 语气\n简洁直接".into(), user_md: "## 用户偏好\n- 函数式".into() };
    let block = render_stable_block(&StablePromptInputs {
        agent: coding_agent(),
        persona: Some(p),
        framework_directives: vec!["never bypass user confirmation".into()],
    });
    assert!(block.contains("简洁直接"));
    assert!(block.contains("函数式"));
    assert!(block.contains("never bypass"));
}

#[test]
fn stable_block_layout_is_exact() {
    let mut a = coding_agent();
    a.tagline = "写代码".into();
    a.capabilities = vec!["生成".into()];
    a.limitations = vec![];
    let block = render_stable_block(&StablePromptInputs {
        agent: a,
        persona: Some(Persona { persona_md: "  tone \n".into(), user_md: "   ".into() }),
        framework_directives: vec!["d1".into(), "d2".into()],
    });
    assert_eq!(
        block,
        "# 代码助手 (💻 coding)\n\n写代码\n\n## Capabilities\n\n- 生成\n\n## Framework directives\n\n- d1\n- d2\n\n## Persona\n\ntone\n\n\n"
    );
}
