//! The stable, cache-friendly layer of a system prompt: the agent's
//! identity, capabilities and limits, the framework directives and the
//! persona, in that order.

use vstd::prelude::*;

use crate::agents::AgentDefinition;
use crate::text::{lines, push_chars, push_lines, push_str, str_trim, string_from_chars, trim, views};

verus! {

/// The persona texts the prompt carries: how the assistant speaks and what
/// it knows of the user.
#[derive(Debug, Clone)]
pub struct Persona {
    pub persona_md: String,
    pub user_md: String,
}

/// What the stable layer is made of.
#[derive(Debug, Clone)]
pub struct StablePromptInputs {
    pub agent: AgentDefinition,
    pub persona: Option<Persona>,
    pub framework_directives: Vec<String>,
}

/// The persona block: the trimmed persona text and the trimmed user text,
/// each only when not blank.
pub open spec fn persona_text(p: Persona) -> Seq<char> {
    (if trim(p.persona_md@).len() > 0 { trim(p.persona_md@) + "\n\n"@ } else { Seq::empty() }) + (if trim(
        p.user_md@,
    ).len() > 0 {
        trim(p.user_md@) + "\n"@
    } else {
        Seq::empty()
    })
}

/// A titled list section, or nothing for an empty list.
pub open spec fn list_section(title: Seq<char>, items: Seq<Seq<char>>) -> Seq<char> {
    if items.len() > 0 {
        title + lines("- "@, items) + "\n"@
    } else {
        Seq::empty()
    }
}

/// The stable layer of the prompt for `i`.
pub open spec fn stable_text(i: StablePromptInputs) -> Seq<char> {
    let a = i.agent;
    "# "@ + a.display_name@ + " ("@ + a.avatar_emoji@ + " "@ + a.agent_type@ + ")\n\n"@ + (if a.tagline@.len() > 0 {
        a.tagline@ + "\n\n"@
    } else {
        Seq::empty()
    }) + list_section("## Capabilities\n\n"@, views(a.capabilities@)) + list_section(
        "## Limitations\n\n"@,
        views(a.limitations@),
    ) + list_section("## Framework directives\n\n"@, views(i.framework_directives@)) + match i.persona {
        Some(p) => if persona_text(p).len() > 0 {
            "## Persona\n\n"@ + persona_text(p) + "\n"@
        } else {
            Seq::empty()
        },
        None => Seq::empty(),
    }
}

fn push_list_section(out: &mut Vec<char>, title: &str, items: &Vec<String>)
    ensures
        final(out)@ == old(out)@ + list_section(title@, views(items@)),
{
    if items.len() > 0 {
        push_str(out, title);
        push_lines(out, "- ", items);
        push_str(out, "\n");
    } else {
        proof {
            assert(old(out)@ + list_section(title@, views(items@)) =~= old(out)@);
        }
    }
}

fn persona_section(p: &Persona) -> (r: Vec<char>)
    ensures
        r@ == persona_text(*p),
{
    let mut s: Vec<char> = Vec::new();
    let a = str_trim(p.persona_md.as_str());
    if a.len() > 0 {
        push_chars(&mut s, &a);
        push_str(&mut s, "\n\n");
    }
    let b = str_trim(p.user_md.as_str());
    if b.len() > 0 {
        push_chars(&mut s, &b);
        push_str(&mut s, "\n");
    }
    proof {
        assert(s@ =~= persona_text(*p));
    }
    s
}

/// The stable layer of the prompt ([`stable_text`]): a heading with the
/// agent's name, emoji and type; its tagline; its capabilities, its
/// limitations and the framework directives as lists; the persona block.
/// Empty parts are left out.
pub fn render_stable_block(inputs: &StablePromptInputs) -> (r: String)
    ensures
        r@ == stable_text(*inputs),
{
    let a = &inputs.agent;
    let mut out: Vec<char> = Vec::new();
    push_str(&mut out, "# ");
    push_str(&mut out, a.display_name.as_str());
    push_str(&mut out, " (");
    push_str(&mut out, a.avatar_emoji.as_str());
    push_str(&mut out, " ");
    push_str(&mut out, a.agent_type.as_str());
    push_str(&mut out, ")\n\n");
    let ghost head = out@;
    if crate::text::chars_of(a.tagline.as_str()).len() > 0 {
        push_str(&mut out, a.tagline.as_str());
        push_str(&mut out, "\n\n");
    }
    let ghost t1 = out@;
    push_list_section(&mut out, "## Capabilities\n\n", &a.capabilities);
    push_list_section(&mut out, "## Limitations\n\n", &a.limitations);
    push_list_section(&mut out, "## Framework directives\n\n", &inputs.framework_directives);
    let ghost t2 = out@;
    match &inputs.persona {
        Some(p) => {
            let block = persona_section(p);
            if block.len() > 0 {
                push_str(&mut out, "## Persona\n\n");
                push_chars(&mut out, &block);
                push_str(&mut out, "\n");
            }
        },
        None => {},
    }
    proof {
        assert(t1 =~= head + (if a.tagline@.len() > 0 { a.tagline@ + "\n\n"@ } else { Seq::<char>::empty() }));
        assert(out@ =~= stable_text(*inputs));
    }
    string_from_chars(&out)
}

} // verus!
