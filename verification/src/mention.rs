//! `@`-mentions in user input: an `@` followed by a name (ASCII letters,
//! digits, `_` or CJK ideographs) designates an agent; the mentions are
//! taken out of the input, which is then re-spaced.

use vstd::prelude::*;

use crate::agents::{mention_matches, AgentDefinition};
use crate::conversation::{contains_any, mentions_any};
use crate::text::{chars_of, is_whitespace, seq_contains, is_ws, own, string_from_chars, str_views};

verus! {

/// How many agents an input mentions.
#[derive(Debug, Clone, Copy, PartialEq, Eq, Structural)]
pub enum MentionMode {
    /// No mention resolved to an agent.
    NoMention,
    /// Exactly one did.
    Single,
    /// Several did.
    Multi,
    /// A directional nudge for a running agent.
    Steer,
}

/// The wire name of each [`MentionMode`] value.
pub open spec fn mention_mode_name(m: MentionMode) -> Seq<char> {
    match m {
        MentionMode::NoMention => "none"@,
        MentionMode::Single => "single"@,
        MentionMode::Multi => "multi"@,
        MentionMode::Steer => "steer"@,
    }
}

impl MentionMode {
    /// The wire name of the value.
    pub fn as_str(&self) -> (r: &'static str)
        ensures
            r@ == mention_mode_name(*self),
    {
        match self {
            MentionMode::NoMention => "none",
            MentionMode::Single => "single",
            MentionMode::Multi => "multi",
            MentionMode::Steer => "steer",
        }
    }
}

/// One mention: its text (with the `@`), the type of the agent it
/// designates, and whether none does.
#[derive(Debug, Clone)]
pub struct AgentMention {
    pub raw_text: String,
    pub resolved_type: Option<String>,
    pub unresolved: bool,
}

/// The parsed input: as written, without its mentions, the mentions, and
/// the mode they give.
#[derive(Debug, Clone)]
pub struct MentionParseResult {
    pub raw_input: String,
    pub clean_input: String,
    pub mentions: Vec<AgentMention>,
    pub mention_mode: MentionMode,
}

/// A character that may stand in a mentioned name.
pub open spec fn is_name_char(c: char) -> bool {
    ('A' <= c && c <= 'Z') || ('a' <= c && c <= 'z') || ('0' <= c && c <= '9') || c == '_' || ('\u{4e00}' <= c
        && c <= '\u{9fa5}')
}

/// The number of name characters `s` starts with.
pub open spec fn name_run(s: Seq<char>) -> nat
    decreases s.len(),
{
    if s.len() > 0 && is_name_char(s[0]) {
        1 + name_run(s.drop_first())
    } else {
        0
    }
}

/// A name run never exceeds the text.
pub proof fn lemma_name_run_le(s: Seq<char>)
    ensures
        name_run(s) <= s.len(),
    decreases s.len(),
{
    if s.len() > 0 && is_name_char(s[0]) {
        lemma_name_run_le(s.drop_first());
    }
}

/// `s` starts with a mention.
pub open spec fn starts_mention(s: Seq<char>) -> bool {
    s.len() > 1 && s[0] == '@' && is_name_char(s[1])
}

/// The length of the mention `s` starts with.
pub open spec fn mention_len(s: Seq<char>) -> int {
    1 + name_run(s.drop_first()) as int
}

/// The mentions of `s`, in order, each with its `@`.
pub open spec fn mention_texts(s: Seq<char>) -> Seq<Seq<char>>
    decreases s.len(),
{
    if s.len() == 0 {
        Seq::empty()
    } else if starts_mention(s) {
        proof {
            lemma_name_run_le(s.drop_first());
        }
        seq![s.take(mention_len(s))] + mention_texts(s.skip(mention_len(s)))
    } else {
        mention_texts(s.drop_first())
    }
}

/// `s` with its mentions taken out.
pub open spec fn unmentioned(s: Seq<char>) -> Seq<char>
    decreases s.len(),
{
    if s.len() == 0 {
        Seq::empty()
    } else if starts_mention(s) {
        proof {
            lemma_name_run_le(s.drop_first());
        }
        unmentioned(s.skip(mention_len(s)))
    } else {
        seq![s[0]] + unmentioned(s.drop_first())
    }
}

/// Re-spacing `s` so far: the text kept, and whether a space is owed
/// before the next word.
pub open spec fn squash_state(s: Seq<char>) -> (Seq<char>, bool)
    decreases s.len(),
{
    if s.len() == 0 {
        (Seq::empty(), false)
    } else {
        let (o, p) = squash_state(s.drop_last());
        let c = s.last();
        if is_ws(c) {
            (o, o.len() > 0)
        } else if p {
            (o.push(' ').push(c), false)
        } else {
            (o.push(c), false)
        }
    }
}

/// The words of `s` joined by single spaces (`split_whitespace` then
/// `join(" ")`).
pub open spec fn squash(s: Seq<char>) -> Seq<char> {
    squash_state(s).0
}

/// The type of the first agent of `reg` that `name` designates.
pub open spec fn resolved_type(reg: Seq<AgentDefinition>, name: Seq<char>) -> Option<Seq<char>>
    decreases reg.len(),
{
    if reg.len() == 0 {
        None
    } else if mention_matches(reg[0], name) {
        Some(reg[0].agent_type@)
    } else {
        resolved_type(reg.drop_first(), name)
    }
}

/// The text of a mention: raw text and resolved type.
pub open spec fn mention_view(m: AgentMention) -> (Seq<char>, Option<Seq<char>>) {
    (
        m.raw_text@,
        match m.resolved_type {
            Some(t) => Some(t@),
            None => None,
        },
    )
}

/// The number of mentions of `ms` that resolved.
pub open spec fn resolved_count(ms: Seq<AgentMention>) -> nat
    decreases ms.len(),
{
    if ms.len() == 0 {
        0
    } else {
        resolved_count(ms.drop_last()) + if ms.last().unresolved { 0nat } else { 1nat }
    }
}

/// The mode `n` resolved mentions give.
pub open spec fn mode_for(n: nat) -> MentionMode {
    if n == 0 {
        MentionMode::NoMention
    } else if n == 1 {
        MentionMode::Single
    } else {
        MentionMode::Multi
    }
}

fn resolve(name: &str, registry: &[AgentDefinition]) -> (r: Option<String>)
    ensures
        match r {
            Some(t) => resolved_type(registry@, name@) == Some(t@),
            None => resolved_type(registry@, name@).is_none(),
        },
{
    let mut i: usize = 0;
    proof {
        assert(registry@.skip(0) =~= registry@);
    }
    while i < registry.len()
        invariant
            i <= registry.len(),
            resolved_type(registry@, name@) == resolved_type(registry@.skip(i as int), name@),
        decreases registry.len() - i,
    {
        proof {
            assert(registry@.skip(i as int).drop_first() =~= registry@.skip(i + 1));
            assert(registry@.skip(i as int)[0] == registry@[i as int]);
        }
        if registry[i].matches_mention(name) {
            return Some(registry[i].agent_type.clone());
        }
        i = i + 1;
    }
    None
}

fn squash_chars(s: &Vec<char>) -> (r: Vec<char>)
    ensures
        r@ == squash(s@),
{
    let mut out: Vec<char> = Vec::new();
    let mut pending = false;
    let mut i: usize = 0;
    while i < s.len()
        invariant
            i <= s.len(),
            (out@, pending) == squash_state(s@.take(i as int)),
        decreases s.len() - i,
    {
        proof {
            assert(s@.take(i + 1).drop_last() =~= s@.take(i as int));
            assert(s@.take(i + 1).last() == s@[i as int]);
        }
        let c = s[i];
        if is_whitespace(c) {
            pending = out.len() > 0;
        } else {
            if pending {
                out.push(' ');
            }
            out.push(c);
            pending = false;
        }
        i = i + 1;
    }
    proof {
        assert(s@.take(i as int) =~= s@);
    }
    out
}

/// `r` is what reading the mentions of `input` against `registry` gives:
/// the input as written, the input without its mentions, one mention per
/// `@name` in order, each resolved to the first agent its name designates,
/// and the mode that the number of resolved mentions calls for.
pub open spec fn parsed_from(r: MentionParseResult, input: Seq<char>, registry: Seq<AgentDefinition>) -> bool {
    &&& r.raw_input@ == input
    &&& r.clean_input@ == squash(unmentioned(input))
    &&& r.mentions@.len() == mention_texts(input).len()
    &&& forall|k: int|
        0 <= k < r.mentions@.len() ==> {
            let m = #[trigger] r.mentions@[k];
            &&& m.raw_text@ == mention_texts(input)[k]
            &&& mention_view(m).1 == resolved_type(registry, mention_texts(input)[k].drop_first())
            &&& m.unresolved == m.resolved_type.is_none()
        }
    &&& r.mention_mode == mode_for(resolved_count(r.mentions@))
}

/// Reads the mentions of `input` against `registry` (each resolves to the
/// first agent its name designates), takes them out of the input and
/// re-spaces what is left; the mode follows from how many resolved.
pub fn parse_mentions(input: &str, registry: &[AgentDefinition]) -> (r: MentionParseResult)
    ensures
        r.raw_input@ == input@,
        r.clean_input@ == squash(unmentioned(input@)),
        r.mentions@.len() == mention_texts(input@).len(),
        forall|k: int|
            0 <= k < r.mentions@.len() ==> {
                let m = #[trigger] r.mentions@[k];
                &&& m.raw_text@ == mention_texts(input@)[k]
                &&& mention_view(m).1 == resolved_type(registry@, mention_texts(input@)[k].drop_first())
                &&& m.unresolved == m.resolved_type.is_none()
            },
        r.mention_mode == mode_for(resolved_count(r.mentions@)),
        parsed_from(r, input@, registry@),
{
    let s = chars_of(input);
    let mut mentions: Vec<AgentMention> = Vec::new();
    let mut clean: Vec<char> = Vec::new();
    let mut resolved: usize = 0;
    let mut i: usize = 0;
    proof {
        assert(s@.skip(0) =~= s@);
        assert(mentions@.map_values(|m: AgentMention| m.raw_text@) =~= Seq::<Seq<char>>::empty());
    }
    while i < s.len()
        invariant
            i <= s.len(),
            s@ == input@,
            mentions@.len() <= i,
            resolved == resolved_count(mentions@),
            resolved <= mentions@.len(),
            mention_texts(input@) == mentions@.map_values(|m: AgentMention| m.raw_text@) + mention_texts(
                s@.skip(i as int),
            ),
            unmentioned(input@) == clean@ + unmentioned(s@.skip(i as int)),
            forall|k: int|
                0 <= k < mentions@.len() ==> {
                    let m = #[trigger] mentions@[k];
                    &&& mention_view(m).1 == resolved_type(registry@, m.raw_text@.drop_first())
                    &&& m.unresolved == m.resolved_type.is_none()
                },
        decreases s.len() - i,
    {
        let ghost rest = s@.skip(i as int);
        if s[i] == '@' && i + 1 < s.len() && is_name_char_exec(s[i + 1]) {
            let mut j: usize = i + 1;
            proof {
                assert(rest.drop_first() =~= s@.skip(i + 1));
            }
            while j < s.len() && is_name_char_exec(s[j])
                invariant
                    i + 1 <= j <= s.len(),
                    rest == s@.skip(i as int),
                    name_run(rest.drop_first()) == (j - (i + 1)) + name_run(s@.skip(j as int)),
                    forall|k: int| i + 1 <= k < j ==> is_name_char(s@[k]),
                decreases s.len() - j,
            {
                proof {
                    assert(s@.skip(j as int).drop_first() =~= s@.skip(j + 1));
                    assert(s@.skip(j as int)[0] == s@[j as int]);
                }
                j = j + 1;
            }
            proof {
                assert(rest.drop_first() =~= s@.skip(i + 1));
                if j < s.len() {
                    assert(s@.skip(j as int)[0] == s@[j as int]);
                }
                assert(name_run(s@.skip(j as int)) == 0);
                assert(starts_mention(rest));
                assert(mention_len(rest) == j - i);
                assert(rest.skip(j - i) =~= s@.skip(j as int));
            }
            let mut raw: Vec<char> = Vec::new();
            let mut k: usize = i;
            while k < j
                invariant
                    i <= k <= j <= s.len(),
                    raw@ == s@.subrange(i as int, k as int),
                decreases j - k,
            {
                raw.push(s[k]);
                k = k + 1;
                proof {
                    assert(raw@ =~= s@.subrange(i as int, k as int));
                }
            }
            let mut name: Vec<char> = Vec::new();
            let mut k2: usize = i + 1;
            while k2 < j
                invariant
                    i + 1 <= k2 <= j <= s.len(),
                    name@ == s@.subrange(i + 1, k2 as int),
                decreases j - k2,
            {
                name.push(s[k2]);
                k2 = k2 + 1;
                proof {
                    assert(name@ =~= s@.subrange(i + 1, k2 as int));
                }
            }
            let name_s = string_from_chars(&name);
            let raw_s = string_from_chars(&raw);
            proof {
                assert(raw@ =~= rest.take(mention_len(rest)));
                assert(name@ =~= raw@.drop_first());
            }
            let rt = resolve(name_s.as_str(), registry);
            let unresolved = rt.is_none();
            let ghost old_mentions = mentions@;
            mentions.push(AgentMention { raw_text: raw_s, resolved_type: rt, unresolved });
            if !unresolved {
                resolved = resolved + 1;
            }
            proof {
                assert(mentions@.drop_last() =~= old_mentions);
                assert(mentions@.map_values(|m: AgentMention| m.raw_text@) =~= old_mentions.map_values(
                    |m: AgentMention| m.raw_text@,
                ).push(raw@));
                assert(mention_texts(rest) == seq![raw@] + mention_texts(s@.skip(j as int)));
                assert(mention_texts(input@) =~= mentions@.map_values(|m: AgentMention| m.raw_text@) + mention_texts(
                    s@.skip(j as int),
                ));
                assert(unmentioned(rest) == unmentioned(s@.skip(j as int)));
            }
            i = j;
        } else {
            proof {
                assert(rest[0] == s@[i as int]);
                assert(!starts_mention(rest));
                assert(rest.drop_first() =~= s@.skip(i + 1));
                assert(unmentioned(input@) =~= clean@.push(s@[i as int]) + unmentioned(s@.skip(i + 1)));
            }
            clean.push(s[i]);
            i = i + 1;
        }
    }
    proof {
        assert(s@.skip(i as int) =~= Seq::<char>::empty());
        assert(mention_texts(input@) =~= mentions@.map_values(|m: AgentMention| m.raw_text@));
        assert(unmentioned(input@) =~= clean@);
    }
    let clean_input = string_from_chars(&squash_chars(&clean));
    let mention_mode = if resolved == 0 {
        MentionMode::NoMention
    } else if resolved == 1 {
        MentionMode::Single
    } else {
        MentionMode::Multi
    };
    MentionParseResult { raw_input: own(input), clean_input, mentions, mention_mode }
}

/// A character that may stand in a mentioned name.
pub fn is_name_char_exec(c: char) -> (r: bool)
    ensures
        r == is_name_char(c),
{
    ('A' <= c && c <= 'Z') || ('a' <= c && c <= 'z') || ('0' <= c && c <= '9') || c == '_' || ('\u{4e00}' <= c
        && c <= '\u{9fa5}')
}

/// The phrases that make a message to a running agent a nudge.
pub open spec fn nudge_phrases() -> Seq<Seq<char>> {
    seq![
        "记得"@,
        "注意"@,
        "顺便"@,
        "对了"@,
        "另外"@,
        "别忘了"@,
        "不要改"@,
        "保持"@,
        "remember"@,
        "note that"@,
        "btw"@,
    ]
}

/// Whether `clean_input` reads as a directional nudge rather than a new
/// task: it holds one of the [`nudge_phrases`].
pub fn looks_like_steer(clean_input: &str) -> (r: bool)
    ensures
        r == mentions_any(clean_input@, nudge_phrases()),
{
    let needles: [&str; 11] = [
        "记得",
        "注意",
        "顺便",
        "对了",
        "另外",
        "别忘了",
        "不要改",
        "保持",
        "remember",
        "note that",
        "btw",
    ];
    assert(str_views(needles@) =~= nudge_phrases());
    contains_any(&chars_of(clean_input), &needles)
}

/// The text contains one of the nudge words: 记得, 注意, 顺便, 对了, 另外,
/// 别忘了, 不要改, 保持, remember, note that or btw.
pub open spec fn contains_nudge_word(text: Seq<char>) -> bool {
    seq_contains(text, "记得"@)
    || seq_contains(text, "注意"@)
    || seq_contains(text, "顺便"@)
    || seq_contains(text, "对了"@)
    || seq_contains(text, "另外"@)
    || seq_contains(text, "别忘了"@)
    || seq_contains(text, "不要改"@)
    || seq_contains(text, "保持"@)
    || seq_contains(text, "remember"@)
    || seq_contains(text, "note that"@)
    || seq_contains(text, "btw"@)
}

/// A text reads as a nudge exactly when it contains one of the nudge words
/// ([`contains_nudge_word`]).
pub proof fn lemma_nudge_words(text: Seq<char>)
    ensures
        mentions_any(text, nudge_phrases()) <==> contains_nudge_word(text),
{
    let p = nudge_phrases();
    assert(p.len() == 11);
    assert(p[0] == "记得"@);
    assert(p[1] == "注意"@);
    assert(p[2] == "顺便"@);
    assert(p[3] == "对了"@);
    assert(p[4] == "另外"@);
    assert(p[5] == "别忘了"@);
    assert(p[6] == "不要改"@);
    assert(p[7] == "保持"@);
    assert(p[8] == "remember"@);
    assert(p[9] == "note that"@);
    assert(p[10] == "btw"@);
    if mentions_any(text, p) {
        let i = choose|i: int| 0 <= i < p.len() && seq_contains(text, p[i]);
        assert(0 <= i < 11);
    }
    if seq_contains(text, "记得"@) {
        assert(seq_contains(text, p[0]));
    }
    if seq_contains(text, "注意"@) {
        assert(seq_contains(text, p[1]));
    }
    if seq_contains(text, "顺便"@) {
        assert(seq_contains(text, p[2]));
    }
    if seq_contains(text, "对了"@) {
        assert(seq_contains(text, p[3]));
    }
    if seq_contains(text, "另外"@) {
        assert(seq_contains(text, p[4]));
    }
    if seq_contains(text, "别忘了"@) {
        assert(seq_contains(text, p[5]));
    }
    if seq_contains(text, "不要改"@) {
        assert(seq_contains(text, p[6]));
    }
    if seq_contains(text, "保持"@) {
        assert(seq_contains(text, p[7]));
    }
    if seq_contains(text, "remember"@) {
        assert(seq_contains(text, p[8]));
    }
    if seq_contains(text, "note that"@) {
        assert(seq_contains(text, p[9]));
    }
    if seq_contains(text, "btw"@) {
        assert(seq_contains(text, p[10]));
    }
}

} // verus!
