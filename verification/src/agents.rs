//! Agent definitions, the built-in agent registry, and agent selection by
//! intent, domain and `@`-mention.

use vstd::prelude::*;

use crate::text::{
    own, push_str, seq_has, seq_has_str, seq_starts_with, str_eq, str_starts_with,
    string_from_chars, views,
};
use crate::tools::ToolScope;

verus! {

/// How an agent prefers to run.
#[derive(Debug, Clone, Copy, PartialEq, Eq, Structural)]
pub enum RuntimeMode {
    InProcess,
    WorkerProcess,
}

/// A registered agent.
#[derive(Debug, Clone)]
pub struct AgentDefinition {
    pub agent_type: String,
    pub version: String,
    pub display_name: String,
    pub avatar_emoji: String,
    pub tagline: String,
    pub mentionable: bool,
    pub mention_aliases: Vec<String>,
    pub trigger_domains: Vec<String>,
    /// Intent prefixes the agent handles; empty means any intent.
    pub trigger_intents: Vec<String>,
    pub priority: i32,
    pub preferred_runtime_mode: RuntimeMode,
    pub can_be_sub_agent: bool,
    pub can_be_orchestrator: bool,
    pub capabilities: Vec<String>,
    pub limitations: Vec<String>,
    pub default_tool_scope: ToolScope,
    pub preferred_model: Option<String>,
    pub token_budget_hint: u32,
    pub system_prompt_template: String,
}

/// `name` designates the agent in an `@`-mention: the agent is mentionable
/// and `name` is its display name, its type or one of its aliases.
pub open spec fn mention_matches(a: AgentDefinition, name: Seq<char>) -> bool {
    a.mentionable && (a.display_name@ == name || a.agent_type@ == name || seq_has(
        views(a.mention_aliases@),
        name,
    ))
}

/// The agent can take `intent` in `domain`: it can be dispatched, one of
/// its domains is `domain` or `all`, and it has no intent prefixes or one
/// of them prefixes `intent`.
pub open spec fn eligible(a: AgentDefinition, intent: Seq<char>, domain: Seq<char>) -> bool {
    &&& (a.can_be_sub_agent || a.can_be_orchestrator)
    &&& (seq_has(views(a.trigger_domains@), domain) || seq_has(views(a.trigger_domains@), "all"@))
    &&& (a.trigger_intents@.len() == 0 || exists|k: int|
        0 <= k < a.trigger_intents@.len() && seq_starts_with(intent, #[trigger] a.trigger_intents@[k]@))
}

/// `i` is the last index of a highest-priority eligible agent.
pub open spec fn is_best_match(
    reg: Seq<AgentDefinition>,
    intent: Seq<char>,
    domain: Seq<char>,
    i: int,
) -> bool {
    &&& 0 <= i < reg.len()
    &&& eligible(reg[i], intent, domain)
    &&& forall|j: int| 0 <= j < reg.len() && eligible(reg[j], intent, domain) ==> reg[j].priority <= reg[i].priority
    &&& forall|j: int| i < j < reg.len() && eligible(reg[j], intent, domain) ==> reg[j].priority < reg[i].priority
}

/// `i` is the first index of the agent of type `general`.
pub open spec fn is_first_general(reg: Seq<AgentDefinition>, i: int) -> bool {
    &&& 0 <= i < reg.len()
    &&& reg[i].agent_type@ == "general"@
    &&& forall|j: int| 0 <= j < i ==> reg[j].agent_type@ != "general"@
}

/// Some agent in `reg` has type `general`.
pub open spec fn has_general(reg: Seq<AgentDefinition>) -> bool {
    exists|i: int| 0 <= i < reg.len() && reg[i].agent_type@ == "general"@
}

impl AgentDefinition {
    /// The agent may be `@`-mentioned.
    pub fn is_mentionable(&self) -> (r: bool)
        ensures
            r == self.mentionable,
    {
        self.mentionable
    }

    /// `name` designates this agent in an `@`-mention.
    pub fn matches_mention(&self, name: &str) -> (r: bool)
        ensures
            r == mention_matches(*self, name@),
    {
        self.mentionable && (str_eq(self.display_name.as_str(), name) || str_eq(
            self.agent_type.as_str(),
            name,
        ) || seq_has_str(&self.mention_aliases, name))
    }

    /// The agent can take `intent` in `domain`.
    #[verifier::loop_isolation(false)]
    pub fn is_eligible(&self, intent: &str, domain: &str) -> (r: bool)
        ensures
            r == eligible(*self, intent@, domain@),
    {
        if !(self.can_be_sub_agent || self.can_be_orchestrator) {
            return false;
        }
        if !(seq_has_str(&self.trigger_domains, domain) || seq_has_str(&self.trigger_domains, "all")) {
            return false;
        }
        if self.trigger_intents.len() == 0 {
            return true;
        }
        let mut k: usize = 0;
        while k < self.trigger_intents.len()
            invariant
                k <= self.trigger_intents.len(),
                forall|j: int| 0 <= j < k ==> !seq_starts_with(intent@, #[trigger] self.trigger_intents@[j]@),
            decreases self.trigger_intents.len() - k,
        {
            if str_starts_with(intent, self.trigger_intents[k].as_str()) {
                return true;
            }
            k = k + 1;
        }
        false
    }
}

/// Picks the agent for `intent` in `domain`: the highest-priority eligible
/// agent (the last one among equals); when none is eligible, the first
/// agent of type `general`.
pub fn match_agent<'a>(intent: &str, domain: &str, registry: &'a [AgentDefinition]) -> (r: &'a AgentDefinition)
    requires
        has_general(registry@),
    ensures
        (exists|i: int| 0 <= i < registry@.len() && eligible(registry@[i], intent@, domain@)) ==> exists|i: int|
            is_best_match(registry@, intent@, domain@, i) && *r == registry@[i],
        !(exists|i: int| 0 <= i < registry@.len() && eligible(registry@[i], intent@, domain@)) ==> exists|i: int|
            is_first_general(registry@, i) && *r == registry@[i],
{
    let mut best: Option<usize> = None;
    let mut i: usize = 0;
    while i < registry.len()
        invariant
            i <= registry.len(),
            match best {
                None => forall|j: int| 0 <= j < i ==> !eligible(registry@[j], intent@, domain@),
                Some(b) => b < i && is_best_match(registry@.take(i as int), intent@, domain@, b as int),
            },
        decreases registry.len() - i,
    {
        if registry[i].is_eligible(intent, domain) {
            match best {
                None => {
                    best = Some(i);
                },
                Some(b) => {
                    if registry[i].priority >= registry[b].priority {
                        best = Some(i);
                    }
                },
            }
        }
        i = i + 1;
        assert(registry@.take(i as int).take((i - 1) as int) =~= registry@.take((i - 1) as int));
    }
    assert(registry@.take(i as int) =~= registry@);
    match best {
        Some(b) => &registry[b],
        None => {
            let mut g: usize = 0;
            while g < registry.len()
                invariant
                    g <= registry.len(),
                    has_general(registry@),
                    forall|j: int| 0 <= j < registry@.len() ==> !eligible(registry@[j], intent@, domain@),
                    forall|j: int| 0 <= j < g ==> registry@[j].agent_type@ != "general"@,
                decreases registry.len() - g,
            {
                if str_eq(registry[g].agent_type.as_str(), "general") {
                    return &registry[g];
                }
                g = g + 1;
            }
            &registry[0]
        },
    }
}

/// Resolves an `@`-mention name to the first agent it designates.
pub fn match_agent_by_mention<'a>(name: &str, registry: &'a [AgentDefinition]) -> (r: Option<&'a AgentDefinition>)
    ensures
        match r {
            None => forall|j: int| 0 <= j < registry@.len() ==> !mention_matches(registry@[j], name@),
            Some(a) => exists|i: int|
                0 <= i < registry@.len() && *a == registry@[i] && mention_matches(registry@[i], name@)
                    && forall|j: int| 0 <= j < i ==> !mention_matches(registry@[j], name@),
        },
{
    let mut i: usize = 0;
    while i < registry.len()
        invariant
            i <= registry.len(),
            forall|j: int| 0 <= j < i ==> !mention_matches(registry@[j], name@),
        decreases registry.len() - i,
    {
        if registry[i].matches_mention(name) {
            return Some(&registry[i]);
        }
        i = i + 1;
    }
    None
}

/// The agents the user may `@`-mention, in registry order.
pub fn get_mentionable_agents<'a>(registry: &'a [AgentDefinition]) -> (r: Vec<&'a AgentDefinition>)
    ensures
        r@.map_values(|a: &AgentDefinition| *a) == registry@.filter(|a: AgentDefinition| a.mentionable),
{
    let ghost f = |a: AgentDefinition| a.mentionable;
    let mut out: Vec<&'a AgentDefinition> = Vec::new();
    let mut i: usize = 0;
    while i < registry.len()
        invariant
            i <= registry.len(),
            f == (|a: AgentDefinition| a.mentionable),
            out@.map_values(|a: &AgentDefinition| *a) == registry@.take(i as int).filter(f),
        decreases registry.len() - i,
    {
        proof {
            reveal_with_fuel(Seq::filter, 1);
        }
        assert(registry@.take((i + 1) as int).drop_last() =~= registry@.take(i as int));
        if registry[i].is_mentionable() {
            out.push(&registry[i]);
        }
        i = i + 1;
        assert(out@.map_values(|a: &AgentDefinition| *a) =~= registry@.take(i as int).filter(f));
    }
    assert(registry@.take(i as int) =~= registry@);
    out
}

/// The user-facing list of mentionable agents: `<emoji> @<name>` entries
/// separated by ` / `.
pub open spec fn mentionable_list(reg: Seq<AgentDefinition>) -> Seq<char>
    decreases reg.len(),
{
    if reg.len() == 0 {
        Seq::empty()
    } else if !reg.last().mentionable {
        mentionable_list(reg.drop_last())
    } else if mentionable_list(reg.drop_last()).len() == 0 && !has_mentionable(reg.drop_last()) {
        mention_entry(reg.last())
    } else {
        mentionable_list(reg.drop_last()) + " / "@ + mention_entry(reg.last())
    }
}

/// Some agent in `reg` is mentionable.
pub open spec fn has_mentionable(reg: Seq<AgentDefinition>) -> bool {
    exists|i: int| 0 <= i < reg.len() && reg[i].mentionable
}

/// One entry of the mentionable list: `<emoji> @<display name>`.
pub open spec fn mention_entry(a: AgentDefinition) -> Seq<char> {
    a.avatar_emoji@ + seq![' ', '@'] + a.display_name@
}

/// Formats the mentionable agents as `💻 @代码助手 / 🔧 @运维助手 ...`.
pub fn format_mentionable_list(registry: &[AgentDefinition]) -> (r: String)
    ensures
        r@ == mentionable_list(registry@),
{
    let mut out: Vec<char> = Vec::new();
    let mut any = false;
    let mut i: usize = 0;
    while i < registry.len()
        invariant
            i <= registry.len(),
            out@ == mentionable_list(registry@.take(i as int)),
            any == has_mentionable(registry@.take(i as int)),
        decreases registry.len() - i,
    {
        let ghost pre = registry@.take(i as int);
        assert(registry@.take((i + 1) as int).drop_last() =~= pre);
        if registry[i].mentionable {
            if any {
                push_str(&mut out, " / ");
            }
            push_str(&mut out, registry[i].avatar_emoji.as_str());
            out.push(' ');
            out.push('@');
            push_str(&mut out, registry[i].display_name.as_str());
            proof {
                if !has_mentionable(pre) {
                    assert(mentionable_list(pre).len() == 0) by {
                        lemma_no_mentionable_empty(pre);
                    }
                }
            }
            any = true;
        }
        i = i + 1;
        assert(out@ =~= mentionable_list(registry@.take(i as int)));
        assert(any == has_mentionable(registry@.take(i as int))) by {
            let t = registry@.take(i as int);
            if any && !has_mentionable(pre) {
                assert(t[i - 1].mentionable);
            }
            if has_mentionable(t) && !registry@[i - 1].mentionable {
                let w = choose|k: int| 0 <= k < t.len() && t[k].mentionable;
                assert(pre[w].mentionable);
            }
        }
    }
    assert(registry@.take(i as int) =~= registry@);
    string_from_chars(&out)
}

proof fn lemma_no_mentionable_empty(reg: Seq<AgentDefinition>)
    requires
        !has_mentionable(reg),
    ensures
        mentionable_list(reg).len() == 0,
    decreases reg.len(),
{
    if reg.len() > 0 {
        assert(!reg.last().mentionable);
        assert(!has_mentionable(reg.drop_last())) by {
            if has_mentionable(reg.drop_last()) {
                let w = choose|k: int| 0 <= k < reg.drop_last().len() && reg.drop_last()[k].mentionable;
                assert(reg[w].mentionable);
            }
        }
        lemma_no_mentionable_empty(reg.drop_last());
    }
}

/// The agent the rule-based judge proposes for a domain.
pub open spec fn preferred_agent(domain: Seq<char>) -> Seq<char> {
    if domain == "coding"@ {
        "coding"@
    } else if domain == "devops"@ {
        "devops"@
    } else if domain == "research"@ {
        "research"@
    } else if domain == "creative"@ {
        "creative"@
    } else if domain == "memory"@ {
        "memory"@
    } else if domain == "project"@ {
        "project_manager"@
    } else {
        "general"@
    }
}

/// The domain's preferred agent when it is allowed, else `general` when
/// that is allowed, else the first allowed agent, else `general`.
pub open spec fn picked_agent(domain: Seq<char>, allowed: Seq<Seq<char>>) -> Seq<char> {
    if seq_has(allowed, preferred_agent(domain)) {
        preferred_agent(domain)
    } else if seq_has(allowed, "general"@) {
        "general"@
    } else if allowed.len() > 0 {
        allowed[0]
    } else {
        "general"@
    }
}

fn preferred_agent_exec(domain: &str) -> (r: &'static str)
    ensures
        r@ == preferred_agent(domain@),
{
    if str_eq(domain, "coding") {
        "coding"
    } else if str_eq(domain, "devops") {
        "devops"
    } else if str_eq(domain, "research") {
        "research"
    } else if str_eq(domain, "creative") {
        "creative"
    } else if str_eq(domain, "memory") {
        "memory"
    } else if str_eq(domain, "project") {
        "project_manager"
    } else {
        "general"
    }
}

/// Chooses the agent type for `domain` among the `allowed` ones.
pub fn pick_agent(domain: &str, allowed: &Vec<String>) -> (r: String)
    ensures
        r@ == picked_agent(domain@, views(allowed@)),
{
    let preferred = preferred_agent_exec(domain);
    if seq_has_str(allowed, preferred) {
        own(preferred)
    } else if seq_has_str(allowed, "general") {
        own("general")
    } else if allowed.len() > 0 {
        allowed[0].clone()
    } else {
        own("general")
    }
}

} // verus!
