//! The rule layer of intent routing: keyword patterns that each suggest an
//! intent with a weight, and the dominant suggestion among those that
//! matched. Weights are in thousandths.

use vstd::prelude::*;

use crate::text::{decimal, digit, fmt_usize, own, str_views};

verus! {

/// `regex_finds(p, h)` is what the `regex` crate answers when `p` is
/// compiled and searched for in `h`: whether it matches somewhere (false
/// when `p` does not compile).
pub uninterp spec fn regex_finds(pattern: Seq<char>, haystack: Seq<char>) -> bool;

/// Compiles `pattern` with `regex::Regex::new` and searches `haystack`
/// with `Regex::is_match`. The contract only names the answer
/// ([`regex_finds`]); a pattern that does not compile gives `false`.
#[verifier::external_body]
pub(crate) fn regex_is_match(pattern: &str, haystack: &str) -> (r: bool)
    ensures
        r == regex_finds(pattern@, haystack@),
{
    match regex::Regex::new(pattern) {
        Ok(re) => re.is_match(haystack),
        Err(_) => false,
    }
}

/// An intent suggested by a rule: the intent, its weight in thousandths,
/// and what matched.
#[derive(Debug, Clone)]
pub struct IntentHint {
    pub hint: String,
    pub weight: u32,
    pub matched: String,
}

/// The patterns of the rules, in order.
pub open spec fn rule_patterns() -> Seq<Seq<char>> {
    seq![
        "(?i)报错|error|exception|failed|denied|stack trace"@,
        "(?i)重构|refactor|rewrite"@,
        "(?i)实现|实现一下|帮我写|生成代码|写一段"@,
        "(?i)openwrt|immortalwrt|homeproxy|sing-box|dnsmasq|端口转发|防火墙"@,
        "(?i)docker|compose|镜像|container"@,
        "(?i)图标|icon|prompt|UI|界面|生成图"@,
        "(?i)记住|以后|从现在开始|忘记"@,
        "(?i)搜一下|搜索|查一下|对比|比较一下"@,
    ]
}

/// The intents the rules suggest, in order.
pub open spec fn rule_intents() -> Seq<Seq<char>> {
    seq![
        "coding.debug"@,
        "coding.refactor"@,
        "coding.generate"@,
        "devops.networking"@,
        "devops.docker"@,
        "creative.icon"@,
        "memory.update"@,
        "research.web_search"@,
    ]
}

/// The weights of the rules, in thousandths, in order.
pub open spec fn rule_weights() -> Seq<u32> {
    seq![400u32, 350u32, 350u32, 400u32, 350u32, 350u32, 800u32, 300u32]
}

/// The labels of the rules, in order.
pub open spec fn rule_labels() -> Seq<Seq<char>> {
    seq![
        "coding.debug keywords"@,
        "coding.refactor keywords"@,
        "coding.generate keywords"@,
        "devops.networking keywords"@,
        "devops.docker keywords"@,
        "creative.icon keywords"@,
        "memory.update keywords"@,
        "research keywords"@,
    ]
}

/// The text of a hint: intent, weight, label.
pub open spec fn hint_view(h: IntentHint) -> (Seq<char>, u32, Seq<char>) {
    (h.hint@, h.weight, h.matched@)
}

/// The hints of the first `n` rules that match `input`, in rule order.
pub open spec fn hits(input: Seq<char>, n: int) -> Seq<(Seq<char>, u32, Seq<char>)>
    decreases n,
{
    if n <= 0 {
        Seq::empty()
    } else if regex_finds(rule_patterns()[n - 1], input) {
        hits(input, n - 1).push((rule_intents()[n - 1], rule_weights()[n - 1], rule_labels()[n - 1]))
    } else {
        hits(input, n - 1)
    }
}

/// Runs every rule on `input`: one hint per rule that matches, in rule
/// order.
pub fn apply_rules(input: &str) -> (r: Vec<IntentHint>)
    ensures
        r@.map_values(|h: IntentHint| hint_view(h)) == hits(input@, 8),
{
    let patterns: [&str; 8] = [
        "(?i)报错|error|exception|failed|denied|stack trace",
        "(?i)重构|refactor|rewrite",
        "(?i)实现|实现一下|帮我写|生成代码|写一段",
        "(?i)openwrt|immortalwrt|homeproxy|sing-box|dnsmasq|端口转发|防火墙",
        "(?i)docker|compose|镜像|container",
        "(?i)图标|icon|prompt|UI|界面|生成图",
        "(?i)记住|以后|从现在开始|忘记",
        "(?i)搜一下|搜索|查一下|对比|比较一下",
    ];
    let intents: [&str; 8] = [
        "coding.debug",
        "coding.refactor",
        "coding.generate",
        "devops.networking",
        "devops.docker",
        "creative.icon",
        "memory.update",
        "research.web_search",
    ];
    let weights: [u32; 8] = [400, 350, 350, 400, 350, 350, 800, 300];
    let labels: [&str; 8] = [
        "coding.debug keywords",
        "coding.refactor keywords",
        "coding.generate keywords",
        "devops.networking keywords",
        "devops.docker keywords",
        "creative.icon keywords",
        "memory.update keywords",
        "research keywords",
    ];
    assert(str_views(patterns@) =~= rule_patterns());
    assert(str_views(intents@) =~= rule_intents());
    assert(weights@ =~= rule_weights());
    assert(str_views(labels@) =~= rule_labels());
    let mut out: Vec<IntentHint> = Vec::new();
    let mut i: usize = 0;
    while i < 8
        invariant
            i <= 8,
            str_views(patterns@) == rule_patterns(),
            str_views(intents@) == rule_intents(),
            weights@ == rule_weights(),
            str_views(labels@) == rule_labels(),
            out@.map_values(|h: IntentHint| hint_view(h)) == hits(input@, i as int),
        decreases 8 - i,
    {
        proof {
            assert(str_views(patterns@)[i as int] == patterns@[i as int]@);
            assert(str_views(intents@)[i as int] == intents@[i as int]@);
            assert(str_views(labels@)[i as int] == labels@[i as int]@);
        }
        if regex_is_match(patterns[i], input) {
            let ghost before = out@;
            out.push(IntentHint { hint: own(intents[i]), weight: weights[i], matched: own(labels[i]) });
            proof {
                assert(out@.map_values(|h: IntentHint| hint_view(h)) =~= before.map_values(|h: IntentHint| hint_view(h)).push(
                    (rule_intents()[i as int], rule_weights()[i as int], rule_labels()[i as int]),
                ));
            }
        }
        i = i + 1;
    }
    out
}

/// A hint is among the hits of the first `n` rules exactly when one of
/// those rules matches and suggests it.
proof fn lemma_hits_member(input: Seq<char>, n: int, t: (Seq<char>, u32, Seq<char>))
    requires
        0 <= n <= 8,
    ensures
        hits(input, n).contains(t) <==> exists|k: int|
            0 <= k < n && regex_finds(rule_patterns()[k], input) && #[trigger] rule_intents()[k] == t.0
                && rule_weights()[k] == t.1 && rule_labels()[k] == t.2,
    decreases n,
{
    if n > 0 {
        lemma_hits_member(input, n - 1, t);
        let h = hits(input, n - 1);
        let x = (rule_intents()[n - 1], rule_weights()[n - 1], rule_labels()[n - 1]);
        if regex_finds(rule_patterns()[n - 1], input) {
            assert(hits(input, n) == h.push(x));
            if h.push(x).contains(t) {
                let i = choose|i: int| 0 <= i < h.push(x).len() && h.push(x)[i] == t;
                if i < h.len() {
                    assert(h[i] == t);
                    assert(h.contains(t));
                }
            }
            if h.contains(t) {
                let i = choose|i: int| 0 <= i < h.len() && h[i] == t;
                assert(h.push(x)[i] == t);
            }
            if x == t {
                assert(h.push(x)[h.len() as int] == t);
            }
        }
    }
}

/// The rule layer, rule by rule: each rule's hint (intent, weight in
/// thousandths, label) is among the hints exactly when the input matches
/// that rule's pattern.
pub proof fn lemma_rule_layer(input: Seq<char>)
    ensures
        hits(input, 8).contains(("coding.debug"@, 400u32, "coding.debug keywords"@)) <==> regex_finds(
            "(?i)报错|error|exception|failed|denied|stack trace"@,
            input,
        ),
        hits(input, 8).contains(("coding.refactor"@, 350u32, "coding.refactor keywords"@)) <==> regex_finds(
            "(?i)重构|refactor|rewrite"@,
            input,
        ),
        hits(input, 8).contains(("coding.generate"@, 350u32, "coding.generate keywords"@)) <==> regex_finds(
            "(?i)实现|实现一下|帮我写|生成代码|写一段"@,
            input,
        ),
        hits(input, 8).contains(("devops.networking"@, 400u32, "devops.networking keywords"@)) <==> regex_finds(
            "(?i)openwrt|immortalwrt|homeproxy|sing-box|dnsmasq|端口转发|防火墙"@,
            input,
        ),
        hits(input, 8).contains(("devops.docker"@, 350u32, "devops.docker keywords"@)) <==> regex_finds(
            "(?i)docker|compose|镜像|container"@,
            input,
        ),
        hits(input, 8).contains(("creative.icon"@, 350u32, "creative.icon keywords"@)) <==> regex_finds(
            "(?i)图标|icon|prompt|UI|界面|生成图"@,
            input,
        ),
        hits(input, 8).contains(("memory.update"@, 800u32, "memory.update keywords"@)) <==> regex_finds(
            "(?i)记住|以后|从现在开始|忘记"@,
            input,
        ),
        hits(input, 8).contains(("research.web_search"@, 300u32, "research keywords"@)) <==> regex_finds(
            "(?i)搜一下|搜索|查一下|对比|比较一下"@,
            input,
        ),
{
    reveal_strlit("coding.debug");
    reveal_strlit("coding.refactor");
    reveal_strlit("coding.generate");
    reveal_strlit("devops.networking");
    reveal_strlit("devops.docker");
    reveal_strlit("creative.icon");
    reveal_strlit("memory.update");
    reveal_strlit("research.web_search");
    let ri = rule_intents();
    assert(ri[0] == "coding.debug"@);
    assert(ri[1] == "coding.refactor"@);
    assert(ri[2] == "coding.generate"@);
    assert(ri[3] == "devops.networking"@);
    assert(ri[4] == "devops.docker"@);
    assert(ri[5] == "creative.icon"@);
    assert(ri[6] == "memory.update"@);
    assert(ri[7] == "research.web_search"@);
    assert(rule_patterns()[0] == "(?i)报错|error|exception|failed|denied|stack trace"@);
    assert(rule_weights()[0] == 400u32);
    assert(rule_labels()[0] == "coding.debug keywords"@);
    assert(rule_patterns()[1] == "(?i)重构|refactor|rewrite"@);
    assert(rule_weights()[1] == 350u32);
    assert(rule_labels()[1] == "coding.refactor keywords"@);
    assert(rule_patterns()[2] == "(?i)实现|实现一下|帮我写|生成代码|写一段"@);
    assert(rule_weights()[2] == 350u32);
    assert(rule_labels()[2] == "coding.generate keywords"@);
    assert(rule_patterns()[3] == "(?i)openwrt|immortalwrt|homeproxy|sing-box|dnsmasq|端口转发|防火墙"@);
    assert(rule_weights()[3] == 400u32);
    assert(rule_labels()[3] == "devops.networking keywords"@);
    assert(rule_patterns()[4] == "(?i)docker|compose|镜像|container"@);
    assert(rule_weights()[4] == 350u32);
    assert(rule_labels()[4] == "devops.docker keywords"@);
    assert(rule_patterns()[5] == "(?i)图标|icon|prompt|UI|界面|生成图"@);
    assert(rule_weights()[5] == 350u32);
    assert(rule_labels()[5] == "creative.icon keywords"@);
    assert(rule_patterns()[6] == "(?i)记住|以后|从现在开始|忘记"@);
    assert(rule_weights()[6] == 800u32);
    assert(rule_labels()[6] == "memory.update keywords"@);
    assert(rule_patterns()[7] == "(?i)搜一下|搜索|查一下|对比|比较一下"@);
    assert(rule_weights()[7] == 300u32);
    assert(rule_labels()[7] == "research keywords"@);
    // No two rules suggest the same intent.
    assert(ri[1][7] != ri[2][7]);
    assert(ri[4][0] != ri[5][0]);
    assert(ri[4][0] != ri[6][0]);
    assert(ri[5][0] != ri[6][0]);
    assert forall|a: int, b: int| 0 <= a < 8 && 0 <= b < 8 && a != b implies #[trigger] ri[a] != #[trigger] ri[b] by {
        if ri[a].len() == ri[b].len() {
            assert(ri[a] != ri[b]);
        }
    }
    lemma_rule_hit(input, 0, ("coding.debug"@, 400u32, "coding.debug keywords"@));
    lemma_rule_hit(input, 1, ("coding.refactor"@, 350u32, "coding.refactor keywords"@));
    lemma_rule_hit(input, 2, ("coding.generate"@, 350u32, "coding.generate keywords"@));
    lemma_rule_hit(input, 3, ("devops.networking"@, 400u32, "devops.networking keywords"@));
    lemma_rule_hit(input, 4, ("devops.docker"@, 350u32, "devops.docker keywords"@));
    lemma_rule_hit(input, 5, ("creative.icon"@, 350u32, "creative.icon keywords"@));
    lemma_rule_hit(input, 6, ("memory.update"@, 800u32, "memory.update keywords"@));
    lemma_rule_hit(input, 7, ("research.web_search"@, 300u32, "research keywords"@));
}

/// When no two rules suggest the same intent, rule `k`'s hint is among the
/// hints exactly when its pattern matches.
proof fn lemma_rule_hit(input: Seq<char>, k: int, t: (Seq<char>, u32, Seq<char>))
    requires
        0 <= k < 8,
        t == (rule_intents()[k], rule_weights()[k], rule_labels()[k]),
        forall|a: int, b: int| 0 <= a < 8 && 0 <= b < 8 && a != b ==> #[trigger] rule_intents()[a] != #[trigger] rule_intents()[b],
    ensures
        hits(input, 8).contains(t) <==> regex_finds(rule_patterns()[k], input),
{
    lemma_hits_member(input, 8, t);
    if hits(input, 8).contains(t) {
        let m = choose|m: int|
            0 <= m < 8 && regex_finds(rule_patterns()[m], input) && #[trigger] rule_intents()[m] == t.0
                && rule_weights()[m] == t.1 && rule_labels()[m] == t.2;
        assert(m == k);
    }
    if regex_finds(rule_patterns()[k], input) {
        assert(rule_intents()[k] == t.0);
    }
}

/// `i` is the last of the heaviest hints (which `Iterator::max_by` picks).
pub open spec fn is_dominant(hs: Seq<IntentHint>, i: int) -> bool {
    &&& 0 <= i < hs.len()
    &&& forall|j: int| 0 <= j < hs.len() ==> hs[j].weight <= hs[i].weight
    &&& forall|j: int| i < j < hs.len() ==> hs[j].weight < hs[i].weight
}

/// At most one hint is dominant.
pub proof fn lemma_dominant_unique(hs: Seq<IntentHint>, i: int, j: int)
    requires
        is_dominant(hs, i),
        is_dominant(hs, j),
    ensures
        i == j,
{
    if i < j {
        assert(hs[j].weight < hs[i].weight);
        assert(hs[i].weight <= hs[j].weight);
    } else if j < i {
        assert(hs[i].weight < hs[j].weight);
        assert(hs[j].weight <= hs[i].weight);
    }
}

/// The position of the dominant hint: the heaviest, the last one among
/// equals; none for no hints.
pub fn dominant_index(hints: &[IntentHint]) -> (r: Option<usize>)
    ensures
        match r {
            Some(i) => is_dominant(hints@, i as int),
            None => hints@.len() == 0,
        },
{
    if hints.len() == 0 {
        return None;
    }
    let mut best: usize = 0;
    let mut i: usize = 1;
    while i < hints.len()
        invariant
            1 <= i <= hints.len(),
            best < i,
            is_dominant(hints@.take(i as int), best as int),
        decreases hints.len() - i,
    {
        if hints[i].weight >= hints[best].weight {
            best = i;
        }
        i = i + 1;
        proof {
            assert forall|j: int| 0 <= j < i implies hints@.take(i as int)[j].weight <= hints@.take(i as int)[best as int].weight by {
                if j < i - 1 {
                    assert(hints@.take(i - 1)[j] == hints@[j]);
                }
            }
        }
    }
    proof {
        assert(hints@.take(i as int) =~= hints@);
    }
    Some(best)
}

/// The dominant hint: the heaviest, the last one among equals; none for no
/// hints.
pub fn dominant_hint(hints: &[IntentHint]) -> (r: Option<&IntentHint>)
    ensures
        match r {
            Some(h) => exists|i: int| is_dominant(hints@, i) && *h == hints@[i],
            None => hints@.len() == 0,
        },
{
    match dominant_index(hints) {
        Some(i) => Some(&hints[i]),
        None => None,
    }
}

/// The part of an intent before its first `.`.
pub open spec fn domain_of(intent: Seq<char>) -> Seq<char>
    decreases intent.len(),
{
    if intent.len() == 0 || intent[0] == '.' {
        Seq::empty()
    } else {
        seq![intent[0]] + domain_of(intent.drop_first())
    }
}

/// The domain of an intent: the part before its first `.`.
pub fn derive_domain(intent: &str) -> (r: String)
    ensures
        r@ == domain_of(intent@),
{
    let cs = crate::text::chars_of(intent);
    let mut n: usize = 0;
    proof {
        assert(cs@.skip(0) =~= cs@);
    }
    while n < cs.len() && cs[n] != '.'
        invariant
            n <= cs.len(),
            domain_of(intent@) == cs@.take(n as int) + domain_of(cs@.skip(n as int)),
            cs@ == intent@,
        decreases cs.len() - n,
    {
        proof {
            assert(cs@.skip(n as int).drop_first() =~= cs@.skip(n + 1));
            assert(cs@.skip(n as int)[0] == cs@[n as int]);
            assert(cs@.take(n + 1) =~= cs@.take(n as int) + seq![cs@[n as int]]);
        }
        n = n + 1;
    }
    proof {
        if n < cs.len() {
            assert(cs@.skip(n as int)[0] == cs@[n as int]);
        }
        assert(domain_of(cs@.skip(n as int)) =~= Seq::<char>::empty());
    }
    let mut out: Vec<char> = Vec::new();
    let mut k: usize = 0;
    while k < n
        invariant
            k <= n <= cs.len(),
            out@ == cs@.take(k as int),
        decreases n - k,
    {
        out.push(cs[k]);
        k = k + 1;
        proof {
            assert(out@ =~= cs@.take(k as int));
        }
    }
    proof {
        assert(out@ =~= cs@.take(n as int) + Seq::<char>::empty());
    }
    crate::text::string_from_chars(&out)
}

/// The fractional digits of `f` thousandths, without trailing zeros.
pub open spec fn thousandths_text(f: nat) -> Seq<char> {
    let d1 = f / 100;
    let d2 = (f / 10) % 10;
    let d3 = f % 10;
    if d3 != 0 {
        seq![crate::text::digit_char(d1), crate::text::digit_char(d2), crate::text::digit_char(d3)]
    } else if d2 != 0 {
        seq![crate::text::digit_char(d1), crate::text::digit_char(d2)]
    } else {
        seq![crate::text::digit_char(d1)]
    }
}

/// A weight in thousandths as the shortest decimal: `400` is `0.4`, `350`
/// is `0.35`, `1000` is `1`.
pub open spec fn weight_text(w: u32) -> Seq<char> {
    let whole = decimal((w / 1000) as nat);
    if w % 1000 == 0 {
        whole
    } else {
        whole + seq!['.'] + thousandths_text((w % 1000) as nat)
    }
}

/// A weight in thousandths as the shortest decimal ([`weight_text`]).
pub fn format_weight(w: u32) -> (r: Vec<char>)
    ensures
        r@ == weight_text(w),
{
    let mut out = fmt_usize((w / 1000) as usize);
    let f = w % 1000;
    if f != 0 {
        out.push('.');
        let d1 = (f / 100) as usize;
        let d2 = ((f / 10) % 10) as usize;
        let d3 = (f % 10) as usize;
        out.push(digit(d1));
        if d3 != 0 {
            out.push(digit(d2));
            out.push(digit(d3));
        } else if d2 != 0 {
            out.push(digit(d2));
        }
    }
    out
}

} // verus!
