//! The built-in agent registry.

use vstd::prelude::*;

use crate::agents::{AgentDefinition, RuntimeMode};
use crate::text::{own, str_views, views};
use crate::tools::ToolScope;

verus! {

/// Owned copies of `items`, in order.
pub fn strings(items: &[&str]) -> (r: Vec<String>)
    ensures
        views(r@) == str_views(items@),
{
    let mut out: Vec<String> = Vec::new();
    let mut i: usize = 0;
    while i < items.len()
        invariant
            i <= items.len(),
            out@.len() == i,
            forall|k: int| 0 <= k < i ==> out@[k]@ == items@[k]@,
        decreases items.len() - i,
    {
        let s = own(items[i]);
        out.push(s);
        i = i + 1;
    }
    assert(views(out@) =~= str_views(items@));
    out
}

/// The routing-relevant profile of an agent: type, display name,
/// mentionable, aliases, domains, intent prefixes, priority, and whether
/// it can be a sub-agent or an orchestrator.
pub open spec fn profile(a: AgentDefinition) -> (
    Seq<char>,
    Seq<char>,
    bool,
    Seq<Seq<char>>,
    Seq<Seq<char>>,
    Seq<Seq<char>>,
    i32,
    bool,
    bool,
) {
    (
        a.agent_type@,
        a.display_name@,
        a.mentionable,
        views(a.mention_aliases@),
        views(a.trigger_domains@),
        views(a.trigger_intents@),
        a.priority,
        a.can_be_sub_agent,
        a.can_be_orchestrator,
    )
}

fn orchestrator() -> (r: AgentDefinition)
    ensures
        profile(r) == ("orchestrator"@, "Jarvis"@, false, Seq::<Seq<char>>::empty(), seq!["all"@], Seq::<Seq<char>>::empty(), 0i32, false, true),
{
    AgentDefinition {
        agent_type: own("orchestrator"),
        version: own("0.1"),
        display_name: own("Jarvis"),
        avatar_emoji: own("🧠"),
        tagline: own("统筹任务，协调各助手协作完成复杂目标"),
        mentionable: false,
        mention_aliases: strings(&[]),
        trigger_domains: strings(&["all"]),
        trigger_intents: strings(&[]),
        priority: 0,
        preferred_runtime_mode: RuntimeMode::InProcess,
        can_be_sub_agent: false,
        can_be_orchestrator: true,
        capabilities: strings(&["调度多 Agent 协作"]),
        limitations: strings(&["不直接执行具体任务"]),
        default_tool_scope: ToolScope::empty(),
        preferred_model: None,
        token_budget_hint: 8000,
        system_prompt_template: own(""),
    }
}

fn coding_agent() -> (r: AgentDefinition)
    ensures
        profile(r) == ("coding"@, "代码助手"@, true, seq!["代码"@, "coding"@, "coder"@, "code"@], seq!["coding"@], seq!["coding."@], 10i32, true, false),
{
    AgentDefinition {
        agent_type: own("coding"),
        version: own("0.1"),
        display_name: own("代码助手"),
        avatar_emoji: own("💻"),
        tagline: own("写代码、改代码、看代码"),
        mentionable: true,
        mention_aliases: strings(&["代码", "coding", "coder", "code"]),
        trigger_domains: strings(&["coding"]),
        trigger_intents: strings(&["coding."]),
        priority: 10,
        preferred_runtime_mode: RuntimeMode::WorkerProcess,
        can_be_sub_agent: true,
        can_be_orchestrator: false,
        capabilities: strings(&["代码生成 / 重构 / 调试"]),
        limitations: strings(&["不直接执行 shell 命令"]),
        default_tool_scope: ToolScope {
            allowed_tools: strings(&["read_file", "list_dir", "write_file", "create_file", "web.search"]),
            blocked_tools: strings(&[]),
            requires_confirmation: strings(&["delete_file", "shell.exec"]),
            max_tool_calls: 30,
            max_parallel_tools: 3,
        },
        preferred_model: None,
        token_budget_hint: 12000,
        system_prompt_template: own(""),
    }
}

fn devops_agent() -> (r: AgentDefinition)
    ensures
        profile(r) == ("devops"@, "运维助手"@, true, seq!["运维"@, "devops"@, "网络"@, "系统"@], seq!["devops"@], seq!["devops."@], 10i32, true, false),
{
    AgentDefinition {
        agent_type: own("devops"),
        version: own("0.1"),
        display_name: own("运维助手"),
        avatar_emoji: own("🔧"),
        tagline: own("网络、系统、Docker、路由器"),
        mentionable: true,
        mention_aliases: strings(&["运维", "devops", "网络", "系统"]),
        trigger_domains: strings(&["devops"]),
        trigger_intents: strings(&["devops."]),
        priority: 10,
        preferred_runtime_mode: RuntimeMode::WorkerProcess,
        can_be_sub_agent: true,
        can_be_orchestrator: false,
        capabilities: strings(&["系统配置 / 网络排障"]),
        limitations: strings(&["危险命令必须确认"]),
        default_tool_scope: ToolScope {
            allowed_tools: strings(&["read_file", "read_config", "list_dir", "inspect_system", "logread", "web.search", "shell.exec"]),
            blocked_tools: strings(&[]),
            requires_confirmation: strings(&["shell.exec", "modify_config", "restart_service", "modify_firewall", "router_config"]),
            max_tool_calls: 40,
            max_parallel_tools: 2,
        },
        preferred_model: None,
        token_budget_hint: 12000,
        system_prompt_template: own(""),
    }
}

fn research_agent() -> (r: AgentDefinition)
    ensures
        profile(r) == ("research"@, "研究助手"@, true, seq!["研究"@, "搜索"@, "research"@, "search"@], seq!["research"@], seq!["research."@], 10i32, true, false),
{
    AgentDefinition {
        agent_type: own("research"),
        version: own("0.1"),
        display_name: own("研究助手"),
        avatar_emoji: own("🔍"),
        tagline: own("搜索、整理、对比"),
        mentionable: true,
        mention_aliases: strings(&["研究", "搜索", "research", "search"]),
        trigger_domains: strings(&["research"]),
        trigger_intents: strings(&["research."]),
        priority: 10,
        preferred_runtime_mode: RuntimeMode::InProcess,
        can_be_sub_agent: true,
        can_be_orchestrator: false,
        capabilities: strings(&["网络搜索 / 文档摘要"]),
        limitations: strings(&["只读"]),
        default_tool_scope: ToolScope {
            allowed_tools: strings(&["web.search", "web.fetch", "read_file"]),
            blocked_tools: strings(&[]),
            requires_confirmation: strings(&[]),
            max_tool_calls: 20,
            max_parallel_tools: 4,
        },
        preferred_model: None,
        token_budget_hint: 8000,
        system_prompt_template: own(""),
    }
}

fn creative_agent() -> (r: AgentDefinition)
    ensures
        profile(r) == ("creative"@, "创意助手"@, true, seq!["创意"@, "设计"@, "creative"@, "design"@], seq!["creative"@], seq!["creative."@], 10i32, true, false),
{
    AgentDefinition {
        agent_type: own("creative"),
        version: own("0.1"),
        display_name: own("创意助手"),
        avatar_emoji: own("🎨"),
        tagline: own("图标、UI、文案、Prompt"),
        mentionable: true,
        mention_aliases: strings(&["创意", "设计", "creative", "design"]),
        trigger_domains: strings(&["creative"]),
        trigger_intents: strings(&["creative."]),
        priority: 10,
        preferred_runtime_mode: RuntimeMode::InProcess,
        can_be_sub_agent: true,
        can_be_orchestrator: false,
        capabilities: strings(&["Prompt 生成 / UI 方案"]),
        limitations: strings(&["不直接生成图片"]),
        default_tool_scope: ToolScope {
            allowed_tools: strings(&["web.search", "image_gen.prompt", "read_file", "create_note"]),
            blocked_tools: strings(&[]),
            requires_confirmation: strings(&[]),
            max_tool_calls: 15,
            max_parallel_tools: 2,
        },
        preferred_model: None,
        token_budget_hint: 6000,
        system_prompt_template: own(""),
    }
}

fn project_manager_agent() -> (r: AgentDefinition)
    ensures
        profile(r) == ("project_manager"@, "项目助手"@, true, seq!["项目"@, "pm"@, "project"@], seq!["project"@], seq!["project."@], 5i32, false, true),
{
    AgentDefinition {
        agent_type: own("project_manager"),
        version: own("0.1"),
        display_name: own("项目助手"),
        avatar_emoji: own("📋"),
        tagline: own("拆解目标、跟进进度"),
        mentionable: true,
        mention_aliases: strings(&["项目", "pm", "project"]),
        trigger_domains: strings(&["project"]),
        trigger_intents: strings(&["project."]),
        priority: 5,
        preferred_runtime_mode: RuntimeMode::WorkerProcess,
        can_be_sub_agent: false,
        can_be_orchestrator: true,
        capabilities: strings(&["任务拆解 / 进度跟踪"]),
        limitations: strings(&["不替代用户做最终决策"]),
        default_tool_scope: ToolScope {
            allowed_tools: strings(&["read_file", "create_note", "web.search"]),
            blocked_tools: strings(&[]),
            requires_confirmation: strings(&[]),
            max_tool_calls: 10,
            max_parallel_tools: 1,
        },
        preferred_model: None,
        token_budget_hint: 6000,
        system_prompt_template: own(""),
    }
}

fn memory_agent() -> (r: AgentDefinition)
    ensures
        profile(r) == ("memory"@, "记忆助手"@, false, Seq::<Seq<char>>::empty(), seq!["memory"@], seq!["memory."@], 100i32, false, false),
{
    AgentDefinition {
        agent_type: own("memory"),
        version: own("0.1"),
        display_name: own("记忆助手"),
        avatar_emoji: own("🗂️"),
        tagline: own("管理长期偏好和事实"),
        mentionable: false,
        mention_aliases: strings(&[]),
        trigger_domains: strings(&["memory"]),
        trigger_intents: strings(&["memory."]),
        priority: 100,
        preferred_runtime_mode: RuntimeMode::InProcess,
        can_be_sub_agent: false,
        can_be_orchestrator: false,
        capabilities: strings(&["记录 / 查询 / 清理"]),
        limitations: strings(&["不主动推断敏感信息"]),
        default_tool_scope: ToolScope::empty(),
        preferred_model: None,
        token_budget_hint: 4000,
        system_prompt_template: own(""),
    }
}

fn verifier_agent() -> (r: AgentDefinition)
    ensures
        profile(r) == ("verifier"@, "核查助手"@, false, Seq::<Seq<char>>::empty(), seq!["internal"@], Seq::<Seq<char>>::empty(), 0i32, true, false),
{
    AgentDefinition {
        agent_type: own("verifier"),
        version: own("0.1"),
        display_name: own("核查助手"),
        avatar_emoji: own("🔍✓"),
        tagline: own("独立验证产出"),
        mentionable: false,
        mention_aliases: strings(&[]),
        trigger_domains: strings(&["internal"]),
        trigger_intents: strings(&[]),
        priority: 0,
        preferred_runtime_mode: RuntimeMode::WorkerProcess,
        can_be_sub_agent: true,
        can_be_orchestrator: false,
        capabilities: strings(&["验证文件 / 重跑测试"]),
        limitations: strings(&["只读"]),
        default_tool_scope: ToolScope {
            allowed_tools: strings(&["read_file", "list_dir", "shell.exec"]),
            blocked_tools: strings(&[]),
            requires_confirmation: strings(&[]),
            max_tool_calls: 20,
            max_parallel_tools: 2,
        },
        preferred_model: None,
        token_budget_hint: 6000,
        system_prompt_template: own(""),
    }
}

fn general_agent() -> (r: AgentDefinition)
    ensures
        profile(r) == ("general"@, "通用助手"@, false, Seq::<Seq<char>>::empty(), seq!["chat"@], Seq::<Seq<char>>::empty(), 1i32, true, false),
{
    AgentDefinition {
        agent_type: own("general"),
        version: own("0.1"),
        display_name: own("通用助手"),
        avatar_emoji: own("💬"),
        tagline: own("兜底问答"),
        mentionable: false,
        mention_aliases: strings(&[]),
        trigger_domains: strings(&["chat"]),
        trigger_intents: strings(&[]),
        priority: 1,
        preferred_runtime_mode: RuntimeMode::InProcess,
        can_be_sub_agent: true,
        can_be_orchestrator: false,
        capabilities: strings(&["普通问答"]),
        limitations: strings(&["无专项工具"]),
        default_tool_scope: ToolScope::empty(),
        preferred_model: None,
        token_budget_hint: 4000,
        system_prompt_template: own(""),
    }
}

/// The profiles of the built-in agents, in registry order.
pub open spec fn builtin_profiles() -> Seq<(
    Seq<char>,
    Seq<char>,
    bool,
    Seq<Seq<char>>,
    Seq<Seq<char>>,
    Seq<Seq<char>>,
    i32,
    bool,
    bool,
)> {
    seq![
        ("orchestrator"@, "Jarvis"@, false, Seq::<Seq<char>>::empty(), seq!["all"@], Seq::<Seq<char>>::empty(), 0i32, false, true),
        ("coding"@, "代码助手"@, true, seq!["代码"@, "coding"@, "coder"@, "code"@], seq!["coding"@], seq!["coding."@], 10i32, true, false),
        ("devops"@, "运维助手"@, true, seq!["运维"@, "devops"@, "网络"@, "系统"@], seq!["devops"@], seq!["devops."@], 10i32, true, false),
        ("research"@, "研究助手"@, true, seq!["研究"@, "搜索"@, "research"@, "search"@], seq!["research"@], seq!["research."@], 10i32, true, false),
        ("creative"@, "创意助手"@, true, seq!["创意"@, "设计"@, "creative"@, "design"@], seq!["creative"@], seq!["creative."@], 10i32, true, false),
        ("project_manager"@, "项目助手"@, true, seq!["项目"@, "pm"@, "project"@], seq!["project"@], seq!["project."@], 5i32, false, true),
        ("memory"@, "记忆助手"@, false, Seq::<Seq<char>>::empty(), seq!["memory"@], seq!["memory."@], 100i32, false, false),
        ("verifier"@, "核查助手"@, false, Seq::<Seq<char>>::empty(), seq!["internal"@], Seq::<Seq<char>>::empty(), 0i32, true, false),
        ("general"@, "通用助手"@, false, Seq::<Seq<char>>::empty(), seq!["chat"@], Seq::<Seq<char>>::empty(), 1i32, true, false),
    ]
}

/// The built-in agents: orchestrator, coding, devops, research, creative,
/// project manager, memory, verifier, general.
pub fn builtin_agents() -> (r: Vec<AgentDefinition>)
    ensures
        r@.map_values(|a: AgentDefinition| profile(a)) == builtin_profiles(),
{
    let mut v: Vec<AgentDefinition> = Vec::new();
    v.push(orchestrator());
    v.push(coding_agent());
    v.push(devops_agent());
    v.push(research_agent());
    v.push(creative_agent());
    v.push(project_manager_agent());
    v.push(memory_agent());
    v.push(verifier_agent());
    v.push(general_agent());
    assert(v@.map_values(|a: AgentDefinition| profile(a)) =~= builtin_profiles());
    v
}

} // verus!
