//! Routing a user message: the mention and rule layers, then the choice of
//! agent and the route's notes. The router's effects (the raw event log,
//! session lookups, growth events) surround these two steps.

use vstd::prelude::*;

use crate::agents::{
    eligible, format_mentionable_list, has_general, is_best_match, is_first_general, match_agent, mentionable_list,
    AgentDefinition, RuntimeMode,
};
use crate::intent::{
    apply_rules, derive_domain, domain_of, dominant_index, format_weight, hint_view, hits, is_dominant,
    lemma_dominant_unique, weight_text, IntentHint,
};
use crate::mention::{
    contains_nudge_word, looks_like_steer, mention_view, mode_for, nudge_phrases, parse_mentions, parsed_from, resolved_count, squash, unmentioned,
    AgentMention, MentionMode, MentionParseResult,
};
use crate::conversation::mentions_any;
use crate::session::{has_explicit_reference, reference_pattern, SessionAction, SessionResolution};
use crate::intent::regex_finds;
use crate::text::{
    join, join_strings, opt_view, own, push_chars, push_str, seq_has, seq_has_str, str_eq, string_from_chars,
    take_chars, take_prefix, views,
};
use crate::tools::{scope_view, ToolScope};

verus! {

/// What the router receives.
#[derive(Debug, Clone)]
pub struct RouterInput {
    pub user_input: String,
    pub session_id_hint: Option<String>,
    /// The types of the sub-agents that are running (for steering).
    pub running_agent_types: Vec<String>,
}

/// The intent the rule layer settles on: the dominant hint's, or `chat`.
pub open spec fn primary_of(hs: Seq<IntentHint>) -> Seq<char> {
    if hs.len() == 0 {
        "chat"@
    } else {
        hs[choose|i: int| is_dominant(hs, i)].hint@
    }
}

/// The texts of the mentions that did not resolve, in order.
pub open spec fn unresolved_texts(ms: Seq<AgentMention>) -> Seq<Seq<char>>
    decreases ms.len(),
{
    if ms.len() == 0 {
        Seq::empty()
    } else if ms.last().unresolved {
        unresolved_texts(ms.drop_last()).push(ms.last().raw_text@)
    } else {
        unresolved_texts(ms.drop_last())
    }
}

/// The warning for mentions that did not resolve: which ones, and whom the
/// user may mention instead; none when every mention resolved.
pub open spec fn warning_of(ms: Seq<AgentMention>, reg: Seq<AgentDefinition>) -> Option<Seq<char>> {
    if unresolved_texts(ms).len() == 0 {
        None
    } else {
        Some("未识别的助手："@ + join(unresolved_texts(ms), ", "@) + "。当前可以 @ 的助手："@ + mentionable_list(reg))
    }
}

/// The warning for mentions that did not resolve ([`warning_of`]).
pub fn build_mention_warning(mention: &MentionParseResult, registry: &[AgentDefinition]) -> (r: Option<String>)
    ensures
        opt_view(r) == warning_of(mention.mentions@, registry@),
{
    let ms = &mention.mentions;
    let mut unresolved: Vec<String> = Vec::new();
    let mut i: usize = 0;
    while i < ms.len()
        invariant
            i <= ms.len(),
            views(unresolved@) == unresolved_texts(ms@.take(i as int)),
        decreases ms.len() - i,
    {
        proof {
            assert(ms@.take(i + 1).drop_last() =~= ms@.take(i as int));
        }
        if ms[i].unresolved {
            unresolved.push(ms[i].raw_text.clone());
            proof {
                assert(views(unresolved@) =~= unresolved_texts(ms@.take(i as int)).push(ms@[i as int].raw_text@));
            }
        }
        i = i + 1;
    }
    proof {
        assert(ms@.take(i as int) =~= ms@);
    }
    if unresolved.len() == 0 {
        return None;
    }
    let mut out: Vec<char> = Vec::new();
    push_str(&mut out, "未识别的助手：");
    let listed = join_strings(unresolved.as_slice(), ", ");
    push_chars(&mut out, &listed);
    push_str(&mut out, "。当前可以 @ 的助手：");
    let mentionable = format_mentionable_list(registry);
    push_str(&mut out, mentionable.as_str());
    Some(string_from_chars(&out))
}

/// What the mention and rule layers make of a message.
#[derive(Debug, Clone)]
pub struct RouteStart {
    pub mention: MentionParseResult,
    pub mention_warning: Option<String>,
    pub rule_hints: Vec<IntentHint>,
    pub primary_intent: String,
    pub domain: String,
    pub explicit_reference: bool,
}

/// The mentions agree with their mode: a mention is unresolved exactly
/// when it has no type, and the mode counts the resolved ones.
pub open spec fn consistent(m: MentionParseResult) -> bool {
    &&& forall|k: int| 0 <= k < m.mentions@.len() ==> (#[trigger] m.mentions@[k]).unresolved == m.mentions@[k].resolved_type.is_none()
    &&& m.mention_mode == mode_for(resolved_count(m.mentions@))
}

/// The first step of routing `input`: its mentions (and the warning for
/// those that did not resolve), the rule hints on the input without its
/// mentions, the intent they settle on and its domain, and whether the
/// input refers back to earlier work.
pub fn route_start(input: &RouterInput, registry: &[AgentDefinition]) -> (r: RouteStart)
    ensures
        r.mention.raw_input@ == input.user_input@,
        r.mention.clean_input@ == squash(unmentioned(input.user_input@)),
        parsed_from(r.mention, input.user_input@, registry@),
        consistent(r.mention),
        opt_view(r.mention_warning) == warning_of(r.mention.mentions@, registry@),
        r.rule_hints@.map_values(|h: IntentHint| hint_view(h)) == hits(r.mention.clean_input@, 8),
        r.primary_intent@ == primary_of(r.rule_hints@),
        r.domain@ == domain_of(r.primary_intent@),
        r.explicit_reference == regex_finds(reference_pattern(), input.user_input@),
{
    let mention = parse_mentions(input.user_input.as_str(), registry);
    let mention_warning = build_mention_warning(&mention, registry);
    let rule_hints = apply_rules(mention.clean_input.as_str());
    let primary_intent = match dominant_index(rule_hints.as_slice()) {
        Some(i) => {
            proof {
                let c = choose|c: int| is_dominant(rule_hints@, c);
                lemma_dominant_unique(rule_hints@, c, i as int);
            }
            rule_hints[i].hint.clone()
        },
        None => own("chat"),
    };
    let domain = derive_domain(primary_intent.as_str());
    let explicit_reference = has_explicit_reference(input.user_input.as_str());
    RouteStart { mention, mention_warning, rule_hints, primary_intent, domain, explicit_reference }
}

/// The types of the resolved mentions, in order.
pub open spec fn resolved_types(ms: Seq<AgentMention>) -> Seq<Seq<char>>
    decreases ms.len(),
{
    if ms.len() == 0 {
        Seq::empty()
    } else {
        match mention_view(ms.last()).1 {
            Some(t) => resolved_types(ms.drop_last()).push(t),
            None => resolved_types(ms.drop_last()),
        }
    }
}

proof fn lemma_resolved_types_len(ms: Seq<AgentMention>)
    requires
        forall|k: int| 0 <= k < ms.len() ==> (#[trigger] ms[k]).unresolved == ms[k].resolved_type.is_none(),
    ensures
        resolved_types(ms).len() == resolved_count(ms),
    decreases ms.len(),
{
    if ms.len() > 0 {
        let d = ms.drop_last();
        assert forall|k: int| 0 <= k < d.len() implies (#[trigger] d[k]).unresolved == d[k].resolved_type.is_none() by {
            assert(d[k] == ms[k]);
        }
        lemma_resolved_types_len(d);
        assert(ms[ms.len() - 1] == ms.last());
    }
}

/// The type of the agent the ordinary rules pick for `intent` in `domain`.
pub open spec fn matched_type(reg: Seq<AgentDefinition>, intent: Seq<char>, domain: Seq<char>) -> Seq<char> {
    if exists|i: int| 0 <= i < reg.len() && eligible(reg[i], intent, domain) {
        reg[choose|i: int| is_best_match(reg, intent, domain, i)].agent_type@
    } else {
        reg[choose|i: int| is_first_general(reg, i)].agent_type@
    }
}

proof fn lemma_best_match_unique(reg: Seq<AgentDefinition>, intent: Seq<char>, domain: Seq<char>, i: int, j: int)
    requires
        is_best_match(reg, intent, domain, i),
        is_best_match(reg, intent, domain, j),
    ensures
        i == j,
{
    if i < j {
        assert(reg[j].priority < reg[i].priority);
        assert(reg[i].priority <= reg[j].priority);
    } else if j < i {
        assert(reg[i].priority < reg[j].priority);
        assert(reg[j].priority <= reg[i].priority);
    }
}

proof fn lemma_first_general_unique(reg: Seq<AgentDefinition>, i: int, j: int)
    requires
        is_first_general(reg, i),
        is_first_general(reg, j),
    ensures
        i == j,
{
}

/// The message is a nudge for a running agent: it mentions exactly one
/// agent, that agent is running, and the message reads as a nudge.
pub open spec fn steers(s: RouteStart, input: RouterInput) -> bool {
    &&& s.mention.mention_mode == MentionMode::Single
    &&& seq_has(views(input.running_agent_types@), resolved_types(s.mention.mentions@)[0])
    &&& mentions_any(s.mention.clean_input@, nudge_phrases())
}

/// The agent type the route goes to before it is looked up: the one
/// mentioned agent, the orchestrator for several, or the ordinary pick.
pub open spec fn wanted_type(s: RouteStart, reg: Seq<AgentDefinition>) -> Seq<char> {
    match s.mention.mention_mode {
        MentionMode::Single => resolved_types(s.mention.mentions@)[0],
        MentionMode::Multi => "orchestrator"@,
        _ => matched_type(reg, s.primary_intent@, s.domain@),
    }
}

/// `i` is the first agent of type `t`.
pub open spec fn is_first_of_type(reg: Seq<AgentDefinition>, t: Seq<char>, i: int) -> bool {
    &&& 0 <= i < reg.len()
    &&& reg[i].agent_type@ == t
    &&& forall|j: int| 0 <= j < i ==> reg[j].agent_type@ != t
}

/// The agent of type `t`, or the general agent when there is none.
pub open spec fn agent_for(reg: Seq<AgentDefinition>, t: Seq<char>) -> AgentDefinition {
    if exists|i: int| 0 <= i < reg.len() && reg[i].agent_type@ == t {
        reg[choose|i: int| is_first_of_type(reg, t, i)]
    } else {
        reg[choose|i: int| is_first_general(reg, i)]
    }
}

/// The notes of a route: the override taken, the mention that decided the
/// agent, and the rule hint that counted (or that no rule matched),
/// joined by ` · `.
pub open spec fn notes_text(
    mention_override: bool,
    agent_type: Seq<char>,
    hs: Seq<IntentHint>,
    override_action: Option<Seq<char>>,
) -> Seq<char> {
    let a = match override_action {
        Some(act) => seq!["[mention override: "@ + act + "]"@],
        None => Seq::empty(),
    };
    let b = if mention_override { seq!["[user @ specified "@ + agent_type + "]"@] } else { Seq::empty() };
    let c = if hs.len() > 0 {
        let d = hs[choose|i: int| is_dominant(hs, i)];
        "rule hint: "@ + d.hint@ + " (w="@ + weight_text(d.weight) + ")"@
    } else {
        "no rule layer hits — routed via fallback"@
    };
    join(a + b + seq![c], " · "@)
}

/// The notes of a route ([`notes_text`]).
pub fn build_notes(mention_override: bool, agent_type: &str, hints: &[IntentHint], override_action: Option<&str>) -> (r:
    String)
    ensures
        r@ == notes_text(mention_override, agent_type@, hints@, crate::text::opt_str_view(override_action)),
{
    let mut parts: Vec<String> = Vec::new();
    let ghost a: Seq<Seq<char>> = match override_action {
        Some(act) => seq!["[mention override: "@ + act@ + "]"@],
        None => Seq::empty(),
    };
    let ghost b: Seq<Seq<char>> = if mention_override {
        seq!["[user @ specified "@ + agent_type@ + "]"@]
    } else {
        Seq::empty()
    };
    match override_action {
        Some(act) => {
            let mut p: Vec<char> = Vec::new();
            push_str(&mut p, "[mention override: ");
            push_str(&mut p, act);
            push_str(&mut p, "]");
            parts.push(string_from_chars(&p));
        },
        None => {},
    }
    proof {
        assert(views(parts@) =~= a);
    }
    if mention_override {
        let mut p: Vec<char> = Vec::new();
        push_str(&mut p, "[user @ specified ");
        push_str(&mut p, agent_type);
        push_str(&mut p, "]");
        let ghost before = parts@;
        parts.push(string_from_chars(&p));
        proof {
            assert(views(parts@) =~= views(before).push(p@));
        }
    }
    proof {
        assert(views(parts@) =~= a + b);
    }
    let mut p: Vec<char> = Vec::new();
    match dominant_index(hints) {
        Some(i) => {
            proof {
                let c = choose|c: int| is_dominant(hints@, c);
                lemma_dominant_unique(hints@, c, i as int);
            }
            push_str(&mut p, "rule hint: ");
            push_str(&mut p, hints[i].hint.as_str());
            push_str(&mut p, " (w=");
            let w = format_weight(hints[i].weight);
            push_chars(&mut p, &w);
            push_str(&mut p, ")");
        },
        None => {
            push_str(&mut p, "no rule layer hits — routed via fallback");
            proof {
                assert(hints@.len() == 0);
            }
        },
    }
    let ghost c: Seq<char> = if hints@.len() > 0 {
        let d = hints@[choose|i: int| is_dominant(hints@, i)];
        "rule hint: "@ + d.hint@ + " (w="@ + weight_text(d.weight) + ")"@
    } else {
        "no rule layer hits — routed via fallback"@
    };
    proof {
        if hints@.len() > 0 {
            let d = hints@[choose|i: int| is_dominant(hints@, i)];
            assert(p@ =~= "rule hint: "@ + d.hint@ + " (w="@ + weight_text(d.weight) + ")"@);
        }
        assert(p@ == c);
    }
    let ghost before = parts@;
    parts.push(string_from_chars(&p));
    proof {
        assert(views(parts@) =~= views(before).push(p@));
        assert(views(parts@) =~= a + b + seq![c]);
    }
    string_from_chars(&join_strings(parts.as_slice(), " · "))
}

/// The route of a message, but for its ids and confidence.
#[derive(Debug, Clone)]
pub struct RoutePlan {
    pub primary_intent: String,
    pub domain: String,
    pub topic: String,
    pub session_action: SessionAction,
    pub target_session_id: Option<String>,
    pub clarification_needed: bool,
    pub agent_type: String,
    pub preferred_runtime_mode: RuntimeMode,
    pub memory_read: bool,
    pub memory_write: bool,
    pub tool_scope: ToolScope,
    pub router_notes: String,
    pub mention_override: bool,
    pub forced_sub_agents: Vec<String>,
    pub override_action: Option<String>,
    pub steer_target_sub_task_id: Option<String>,
    pub steer_content: Option<String>,
}

fn first_of_type(registry: &[AgentDefinition], t: &str) -> (r: Option<usize>)
    ensures
        match r {
            Some(i) => is_first_of_type(registry@, t@, i as int),
            None => forall|j: int| 0 <= j < registry@.len() ==> registry@[j].agent_type@ != t@,
        },
{
    let mut i: usize = 0;
    while i < registry.len()
        invariant
            i <= registry.len(),
            forall|j: int| 0 <= j < i ==> registry@[j].agent_type@ != t@,
        decreases registry.len() - i,
    {
        if str_eq(registry[i].agent_type.as_str(), t) {
            return Some(i);
        }
        i = i + 1;
    }
    None
}

fn lookup<'a>(registry: &'a [AgentDefinition], t: &str) -> (r: &'a AgentDefinition)
    requires
        has_general(registry@),
    ensures
        *r == agent_for(registry@, t@),
{
    match first_of_type(registry, t) {
        Some(i) => {
            proof {
                let c = choose|c: int| is_first_of_type(registry@, t@, c);
                assert(registry@[i as int].agent_type@ == t@);
                if c < i {
                    assert(registry@[c].agent_type@ != t@);
                } else if i < c {
                    assert(registry@[i as int].agent_type@ != t@);
                }
            }
            &registry[i]
        },
        None => {
            let g = first_of_type(registry, "general");
            match g {
                Some(i) => {
                    proof {
                        let c = choose|c: int| is_first_general(registry@, c);
                        assert(is_first_general(registry@, i as int));
                        lemma_first_general_unique(registry@, c, i as int);
                    }
                    &registry[i]
                },
                None => {
                    proof {
                        let w = choose|w: int| 0 <= w < registry@.len() && registry@[w].agent_type@ == "general"@;
                        assert(registry@[w].agent_type@ != "general"@);
                    }
                    &registry[0]
                },
            }
        },
    }
}

/// The second step of routing `input`, once `start` was taken and the
/// session resolved. One mentioned agent gets the message, as a nudge when
/// it is running and the message reads as one, as an override otherwise;
/// several mentioned agents go to the orchestrator as forced sub-agents;
/// with no mention the ordinary rules pick. The route takes the chosen
/// agent's type, runtime mode and tool scope (the general agent's when no
/// agent has the wanted type).
pub fn route_finish(
    input: &RouterInput,
    registry: &[AgentDefinition],
    start: &RouteStart,
    session: SessionResolution,
) -> (r: RoutePlan)
    requires
        has_general(registry@),
        consistent(start.mention),
    ensures
        ({
            let wanted = wanted_type(*start, registry@);
            let chosen = agent_for(registry@, wanted);
            let steer = steers(*start, *input);
            let overridden = match start.mention.mention_mode {
                MentionMode::Single => !steer,
                MentionMode::Multi => true,
                _ => false,
            };
            &&& r.primary_intent@ == start.primary_intent@
            &&& r.domain@ == start.domain@
            &&& r.topic@ == take_chars(start.mention.clean_input@, 20)
            &&& r.session_action == session.action
            &&& opt_view(r.target_session_id) == opt_view(session.target_session_id)
            &&& r.clarification_needed == session.clarification_needed
            &&& r.agent_type@ == chosen.agent_type@
            &&& r.preferred_runtime_mode == chosen.preferred_runtime_mode
            &&& r.memory_read
            &&& r.memory_write == (start.primary_intent@ == "memory.update"@)
            &&& scope_view(r.tool_scope) == scope_view(chosen.default_tool_scope)
            &&& r.mention_override == overridden
            &&& views(r.forced_sub_agents@) == if start.mention.mention_mode == MentionMode::Multi {
                resolved_types(start.mention.mentions@)
            } else {
                Seq::empty()
            }
            &&& opt_view(r.override_action) == if steer { Some("steer"@) } else { None }
            &&& r.steer_target_sub_task_id.is_none()
            &&& opt_view(r.steer_content) == if steer { Some(start.mention.clean_input@) } else { None }
            &&& r.router_notes@ == notes_text(overridden, chosen.agent_type@, start.rule_hints@, opt_view(r.override_action))
        }),
{
    let ms = &start.mention.mentions;
    let mut valid: Vec<String> = Vec::new();
    let mut i: usize = 0;
    while i < ms.len()
        invariant
            i <= ms.len(),
            views(valid@) == resolved_types(ms@.take(i as int)),
        decreases ms.len() - i,
    {
        proof {
            assert(ms@.take(i + 1).drop_last() =~= ms@.take(i as int));
        }
        match &ms[i].resolved_type {
            Some(t) => {
                valid.push(t.clone());
                proof {
                    assert(views(valid@) =~= resolved_types(ms@.take(i as int)).push(t@));
                }
            },
            None => {},
        }
        i = i + 1;
    }
    proof {
        assert(ms@.take(i as int) =~= ms@);
        lemma_resolved_types_len(ms@);
    }
    let mut wanted: String = own("orchestrator");
    let mut forced: Vec<String> = Vec::new();
    let mut mention_override = false;
    let mut override_action: Option<String> = None;
    let mut steer_content: Option<String> = None;
    match start.mention.mention_mode {
        MentionMode::Single => {
            let ty = valid[0].clone();
            if seq_has_str(&input.running_agent_types, ty.as_str()) && looks_like_steer(
                start.mention.clean_input.as_str(),
            ) {
                override_action = Some(own("steer"));
                steer_content = Some(start.mention.clean_input.clone());
            } else {
                mention_override = true;
            }
            wanted = ty;
        },
        MentionMode::Multi => {
            forced = valid;
            mention_override = true;
        },
        _ => {
            let a = match_agent(start.primary_intent.as_str(), start.domain.as_str(), registry);
            proof {
                if exists|i: int| 0 <= i < registry@.len() && eligible(registry@[i], start.primary_intent@, start.domain@) {
                    let w = choose|i: int| is_best_match(registry@, start.primary_intent@, start.domain@, i) && *a == registry@[i];
                    let c = choose|i: int| is_best_match(registry@, start.primary_intent@, start.domain@, i);
                    lemma_best_match_unique(registry@, start.primary_intent@, start.domain@, c, w);
                } else {
                    let w = choose|i: int| is_first_general(registry@, i) && *a == registry@[i];
                    let c = choose|i: int| is_first_general(registry@, i);
                    lemma_first_general_unique(registry@, c, w);
                }
            }
            wanted = a.agent_type.clone();
        },
    }
    let chosen = lookup(registry, wanted.as_str());
    let topic = take_prefix(start.mention.clean_input.as_str(), 20);
    let memory_write = str_eq(start.primary_intent.as_str(), "memory.update");
    let notes = build_notes(
        mention_override,
        chosen.agent_type.as_str(),
        start.rule_hints.as_slice(),
        match &override_action {
            Some(a) => Some(a.as_str()),
            None => None,
        },
    );
    RoutePlan {
        primary_intent: start.primary_intent.clone(),
        domain: start.domain.clone(),
        topic: string_from_chars(&topic),
        session_action: session.action,
        target_session_id: session.target_session_id,
        clarification_needed: session.clarification_needed,
        agent_type: chosen.agent_type.clone(),
        preferred_runtime_mode: chosen.preferred_runtime_mode,
        memory_read: true,
        memory_write,
        tool_scope: chosen.default_tool_scope.copy(),
        router_notes: notes,
        mention_override,
        forced_sub_agents: forced,
        override_action,
        steer_target_sub_task_id: None,
        steer_content,
    }
}

/// A message that mentions exactly one agent which is running, and whose
/// text without the mention contains a nudge word (记得, 注意, 顺便, 对了,
/// 另外, 别忘了, 不要改, 保持, remember, note that or btw), is routed as a
/// steer of that agent rather than as a mention override.
pub proof fn lemma_running_mention_with_nudge_steers(s: RouteStart, input: RouterInput)
    requires
        s.mention.mention_mode == MentionMode::Single,
        seq_has(views(input.running_agent_types@), resolved_types(s.mention.mentions@)[0]),
        contains_nudge_word(s.mention.clean_input@),
    ensures
        steers(s, input),
{
    crate::mention::lemma_nudge_words(s.mention.clean_input@);
}

} // verus!
