//! The rule-based judge: the fallback that turns the rule layer's hints
//! into a judgement when no model-backed judge answers. It never fails and
//! never leaves the process.

use vstd::prelude::*;

use crate::agents::{pick_agent, picked_agent};
use crate::intent::{derive_domain, domain_of, dominant_index, is_dominant, lemma_dominant_unique, IntentHint};
use crate::session::SessionAction;
use crate::text::{decimal, digit, digit_char, fmt_usize, own, push_chars, push_str, string_from_chars, take_chars, take_prefix, views};

verus! {

/// What a judge reads.
#[derive(Debug, Clone)]
pub struct JudgeInputs {
    pub user_input: String,
    pub trace_id: String,
    pub task_id: String,
    pub rule_hints: Vec<IntentHint>,
    pub recent_session_titles: Vec<String>,
    pub allowed_agents: Vec<String>,
}

/// A judgement, but for its confidence; `weight` is the dominant hint's
/// weight in thousandths (zero without hints), from which the confidence
/// follows.
#[derive(Debug, Clone)]
pub struct JudgeVerdict {
    pub primary_intent: String,
    pub secondary_intents: Vec<String>,
    pub domain: String,
    pub topic: String,
    pub session_action: SessionAction,
    pub agent_type: String,
    pub clarification_needed: bool,
    pub router_notes: String,
    pub weight: u32,
}

/// A weight in thousandths with two decimals, rounded half up (`350` is
/// `0.35`, `0` is `0.00`).
pub open spec fn two_places(w: u32) -> Seq<char> {
    let q = ((w as nat) + 5) / 10;
    decimal(q / 100) + seq!['.', digit_char((q / 10) % 10), digit_char(q % 10)]
}

/// A weight in thousandths with two decimals ([`two_places`]).
pub fn format_two_places(w: u32) -> (r: Vec<char>)
    ensures
        r@ == two_places(w),
{
    let q: u64 = (w as u64 + 5) / 10;
    let mut out = fmt_usize((q / 100) as usize);
    out.push('.');
    out.push(digit(((q / 10) % 10) as usize));
    out.push(digit((q % 10) as usize));
    out
}

/// The judge that works from the rule hints alone.
#[derive(Debug, Clone, Copy, Default)]
pub struct RuleBasedJudge;

impl RuleBasedJudge {
    /// Judges `inputs` from the dominant rule hint: its intent (or `chat`)
    /// and that intent's domain; the first twenty characters as the topic;
    /// a new session unless recent sessions exist; the agent picked for the
    /// domain among the allowed ones; clarification when the weight is
    /// under a fifth.
    pub fn judge(&self, inputs: &JudgeInputs) -> (r: JudgeVerdict)
        ensures
            ({
                let hs = inputs.rule_hints@;
                let d = hs[choose|i: int| is_dominant(hs, i)];
                let primary = if hs.len() == 0 { "chat"@ } else { d.hint@ };
                let weight: u32 = if hs.len() == 0 { 0 } else { d.weight };
                &&& r.primary_intent@ == primary
                &&& r.weight == weight
                &&& r.secondary_intents@.len() == 0
                &&& r.domain@ == domain_of(primary)
                &&& r.topic@ == take_chars(inputs.user_input@, 20)
                &&& r.session_action == if inputs.recent_session_titles@.len() == 0 {
                    SessionAction::CreateNew
                } else {
                    SessionAction::ContinueExisting
                }
                &&& r.agent_type@ == picked_agent(domain_of(primary), views(inputs.allowed_agents@))
                &&& r.clarification_needed == (weight < 200)
                &&& r.router_notes@ == "rule-based judge with dominant weight "@ + two_places(weight)
            }),
    {
        let (primary, weight) = match dominant_index(inputs.rule_hints.as_slice()) {
            Some(i) => {
                proof {
                    let c = choose|c: int| is_dominant(inputs.rule_hints@, c);
                    lemma_dominant_unique(inputs.rule_hints@, c, i as int);
                }
                (inputs.rule_hints[i].hint.clone(), inputs.rule_hints[i].weight)
            },
            None => (own("chat"), 0u32),
        };
        let domain = derive_domain(primary.as_str());
        let topic = take_prefix(inputs.user_input.as_str(), 20);
        let session_action = if inputs.recent_session_titles.len() == 0 {
            SessionAction::CreateNew
        } else {
            SessionAction::ContinueExisting
        };
        let agent_type = pick_agent(domain.as_str(), &inputs.allowed_agents);
        let mut notes: Vec<char> = Vec::new();
        push_str(&mut notes, "rule-based judge with dominant weight ");
        let w = format_two_places(weight);
        push_chars(&mut notes, &w);
        JudgeVerdict {
            primary_intent: primary,
            secondary_intents: Vec::new(),
            domain,
            topic: string_from_chars(&topic),
            session_action,
            agent_type,
            clarification_needed: weight < 200,
            router_notes: string_from_chars(&notes),
            weight,
        }
    }
}

} // verus!
