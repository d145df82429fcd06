//! Response synthesis: picking one answer when several sub-agents
//! produced results for the same parent task. The `verifier` agent's
//! verdict wins; otherwise the most thorough successful result.

use vstd::prelude::*;

use crate::sub_task::{clone_result, SubTaskResult, SubTaskStatus};
use crate::text::{decimal, fmt_usize, push_chars, push_str, str_eq, string_from_chars};

verus! {

/// How to pick a winner when several results disagree.
#[derive(Debug, Clone, Copy, PartialEq, Eq, Structural)]
pub enum ArbitrationStrategy {
    /// A `verifier` candidate wins regardless of the others; without one,
    /// as `HighestTokenSuccess`.
    ReviewerTakesPrecedence,
    /// The successful result that used the most tokens.
    HighestTokenSuccess,
    /// The successful result with the most artifacts.
    MostArtifacts,
}

/// A result together with the type of agent that produced it.
#[derive(Debug, Clone)]
pub struct Candidate {
    pub agent_type: String,
    pub result: SubTaskResult,
}

/// The chosen result and why it was chosen.
#[derive(Debug, Clone)]
pub struct ArbitrationOutcome {
    pub winner: SubTaskResult,
    pub winner_agent_type: String,
    pub strategy: ArbitrationStrategy,
    pub reason: String,
}

/// The `Debug` name of a strategy, as the reasons print it.
pub open spec fn strategy_name(s: ArbitrationStrategy) -> Seq<char> {
    match s {
        ArbitrationStrategy::ReviewerTakesPrecedence => "ReviewerTakesPrecedence"@,
        ArbitrationStrategy::HighestTokenSuccess => "HighestTokenSuccess"@,
        ArbitrationStrategy::MostArtifacts => "MostArtifacts"@,
    }
}

/// The quantity a strategy maximises.
pub open spec fn score(c: Candidate, s: ArbitrationStrategy) -> int {
    match s {
        ArbitrationStrategy::MostArtifacts => c.result.artifact_ids@.len() as int,
        _ => c.result.token_used as int,
    }
}

/// Candidate `c` is in the pool: only successes when `successes_only`.
pub open spec fn in_pool(c: Candidate, successes_only: bool) -> bool {
    !successes_only || c.result.status == SubTaskStatus::Success
}

/// `i` is the last pool member with the highest score (what
/// `Iterator::max_by_key` returns).
pub open spec fn is_last_max(cs: Seq<Candidate>, s: ArbitrationStrategy, successes_only: bool, i: int) -> bool {
    &&& 0 <= i < cs.len()
    &&& in_pool(cs[i], successes_only)
    &&& forall|j: int| 0 <= j < cs.len() && in_pool(cs[j], successes_only) ==> score(cs[j], s) <= score(cs[i], s)
    &&& forall|j: int| i < j < cs.len() && in_pool(cs[j], successes_only) ==> score(cs[j], s) < score(cs[i], s)
}

/// The number of successful candidates.
pub open spec fn success_count(cs: Seq<Candidate>) -> nat {
    cs.filter(|c: Candidate| c.result.status == SubTaskStatus::Success).len()
}

/// `i` is the first candidate from a `verifier`.
pub open spec fn is_first_verifier(cs: Seq<Candidate>, i: int) -> bool {
    &&& 0 <= i < cs.len()
    &&& cs[i].agent_type@ == "verifier"@
    &&& forall|j: int| 0 <= j < i ==> cs[j].agent_type@ != "verifier"@
}

/// Some candidate comes from a `verifier`.
pub open spec fn has_verifier(cs: Seq<Candidate>) -> bool {
    exists|i: int| 0 <= i < cs.len() && cs[i].agent_type@ == "verifier"@
}

/// The strategy that ranks the candidates once the verifier's precedence
/// has been applied.
pub open spec fn ranking(s: ArbitrationStrategy) -> ArbitrationStrategy {
    if s == ArbitrationStrategy::ReviewerTakesPrecedence {
        ArbitrationStrategy::HighestTokenSuccess
    } else {
        s
    }
}

/// Outcome `o` names candidate `i` as the winner.
pub open spec fn names_winner(o: ArbitrationOutcome, cs: Seq<Candidate>, i: int) -> bool {
    o.winner@ == cs[i].result@ && o.winner_agent_type@ == cs[i].agent_type@
}

/// What `arbitrate` promises for non-empty `cs`.
pub open spec fn arbitrated(cs: Seq<Candidate>, s: ArbitrationStrategy, o: ArbitrationOutcome) -> bool {
    if s == ArbitrationStrategy::ReviewerTakesPrecedence && has_verifier(cs) {
        &&& o.strategy == s
        &&& o.reason@ == "verifier takes precedence per §27.6"@
        &&& exists|i: int| is_first_verifier(cs, i) && names_winner(o, cs, i)
    } else if success_count(cs) > 0 {
        &&& o.strategy == ranking(s)
        &&& o.reason@ == strategy_name(ranking(s)) + " over "@ + decimal(success_count(cs))
            + " successful candidate(s)"@
        &&& exists|i: int| is_last_max(cs, ranking(s), true, i) && names_winner(o, cs, i)
    } else {
        &&& o.strategy == ranking(s)
        &&& o.reason@ == strategy_name(ranking(s)) + ": all "@ + decimal(cs.len())
            + " candidate(s) failed; picking least-bad"@
        &&& exists|i: int| is_last_max(cs, ranking(s), false, i) && names_winner(o, cs, i)
    }
}

fn strategy_name_exec(s: ArbitrationStrategy) -> (r: &'static str)
    ensures
        r@ == strategy_name(s),
{
    match s {
        ArbitrationStrategy::ReviewerTakesPrecedence => "ReviewerTakesPrecedence",
        ArbitrationStrategy::HighestTokenSuccess => "HighestTokenSuccess",
        ArbitrationStrategy::MostArtifacts => "MostArtifacts",
    }
}

fn score_exec(c: &Candidate, s: ArbitrationStrategy) -> (r: usize)
    ensures
        r as int == score(*c, s),
{
    match s {
        ArbitrationStrategy::MostArtifacts => c.result.artifact_ids.len(),
        _ => c.result.token_used as usize,
    }
}

/// The index of the last highest-scoring pool member, if the pool is non-empty.
fn last_max(cs: &[Candidate], s: ArbitrationStrategy, successes_only: bool) -> (r: Option<usize>)
    ensures
        match r {
            None => forall|j: int| 0 <= j < cs@.len() ==> !in_pool(cs@[j], successes_only),
            Some(i) => is_last_max(cs@, s, successes_only, i as int),
        },
{
    let mut best: Option<usize> = None;
    let mut i: usize = 0;
    while i < cs.len()
        invariant
            i <= cs.len(),
            match best {
                None => forall|j: int| 0 <= j < i ==> !in_pool(cs@[j], successes_only),
                Some(b) => b < i && is_last_max(cs@.take(i as int), s, successes_only, b as int),
            },
        decreases cs.len() - i,
    {
        let member = !successes_only || cs[i].result.status == SubTaskStatus::Success;
        if member {
            match best {
                None => {
                    best = Some(i);
                },
                Some(b) => {
                    if score_exec(&cs[i], s) >= score_exec(&cs[b], s) {
                        best = Some(i);
                    }
                },
            }
        }
        i = i + 1;
        assert(cs@.take(i as int).take((i - 1) as int) =~= cs@.take((i - 1) as int));
    }
    assert(cs@.take(i as int) =~= cs@);
    best
}

fn count_successes(cs: &[Candidate]) -> (n: usize)
    ensures
        n == success_count(cs@),
{
    let ghost f = |c: Candidate| c.result.status == SubTaskStatus::Success;
    let mut n: usize = 0;
    let mut i: usize = 0;
    while i < cs.len()
        invariant
            i <= cs.len(),
            f == (|c: Candidate| c.result.status == SubTaskStatus::Success),
            n == cs@.take(i as int).filter(f).len(),
            n <= i,
        decreases cs.len() - i,
    {
        proof {
            reveal_with_fuel(Seq::filter, 1);
        }
        assert(cs@.take((i + 1) as int).drop_last() =~= cs@.take(i as int));
        if cs[i].result.status == SubTaskStatus::Success {
            n = n + 1;
        }
        i = i + 1;
    }
    assert(cs@.take(i as int) =~= cs@);
    n
}

fn outcome_for(c: &Candidate, strategy: ArbitrationStrategy, reason: Vec<char>) -> (o: ArbitrationOutcome)
    ensures
        o.winner@ == c.result@,
        o.winner_agent_type@ == c.agent_type@,
        o.strategy == strategy,
        o.reason@ == reason@,
{
    ArbitrationOutcome {
        winner: clone_result(&c.result),
        winner_agent_type: c.agent_type.clone(),
        strategy,
        reason: string_from_chars(&reason),
    }
}

/// Picks a winner among `candidates` by `strategy`. `None` only for an
/// empty slice; when every candidate failed, the least-bad one is still
/// picked so the work is not dropped silently.
pub fn arbitrate(candidates: &[Candidate], strategy: ArbitrationStrategy) -> (r: Option<ArbitrationOutcome>)
    ensures
        candidates@.len() == 0 ==> r.is_none(),
        candidates@.len() > 0 ==> (r matches Some(o) && arbitrated(candidates@, strategy, o)),
{
    if candidates.len() == 0 {
        return None;
    }
    if strategy == ArbitrationStrategy::ReviewerTakesPrecedence {
        let mut i: usize = 0;
        while i < candidates.len()
            invariant
                i <= candidates.len(),
                forall|j: int| 0 <= j < i ==> candidates@[j].agent_type@ != "verifier"@,
                strategy == ArbitrationStrategy::ReviewerTakesPrecedence,
            decreases candidates.len() - i,
        {
            if str_eq(candidates[i].agent_type.as_str(), "verifier") {
                let mut reason: Vec<char> = Vec::new();
                push_str(&mut reason, "verifier takes precedence per §27.6");
                assert(reason@ == "verifier takes precedence per §27.6"@);
                let o = outcome_for(&candidates[i], strategy, reason);
                assert(is_first_verifier(candidates@, i as int));
                assert(has_verifier(candidates@));
                assert(names_winner(o, candidates@, i as int));
                return Some(o);
            }
            i = i + 1;
        }
        assert(!has_verifier(candidates@));
    }
    let rank = if strategy == ArbitrationStrategy::ReviewerTakesPrecedence {
        ArbitrationStrategy::HighestTokenSuccess
    } else {
        strategy
    };
    let successes = count_successes(candidates);
    if successes > 0 {
        match last_max(candidates, rank, true) {
            Some(w) => {
                let mut reason: Vec<char> = Vec::new();
                push_str(&mut reason, strategy_name_exec(rank));
                push_str(&mut reason, " over ");
                let digits = fmt_usize(successes);
                push_chars(&mut reason, &digits);
                push_str(&mut reason, " successful candidate(s)");
                assert(reason@ =~= strategy_name(rank) + " over "@ + decimal(success_count(candidates@))
                    + " successful candidate(s)"@);
                let o = outcome_for(&candidates[w], rank, reason);
                assert(names_winner(o, candidates@, w as int));
                assert(rank == ranking(strategy));
                return Some(o);
            },
            None => {
                proof {
                    lemma_no_member_no_success(candidates@);
                }
                return None;
            },
        }
    }
    match last_max(candidates, rank, false) {
        Some(w) => {
            let mut reason: Vec<char> = Vec::new();
            push_str(&mut reason, strategy_name_exec(rank));
            push_str(&mut reason, ": all ");
            let digits = fmt_usize(candidates.len());
            push_chars(&mut reason, &digits);
            push_str(&mut reason, " candidate(s) failed; picking least-bad");
            assert(reason@ =~= strategy_name(rank) + ": all "@ + decimal(candidates@.len())
                + " candidate(s) failed; picking least-bad"@);
            let o = outcome_for(&candidates[w], rank, reason);
            assert(names_winner(o, candidates@, w as int));
            assert(rank == ranking(strategy));
            Some(o)
        },
        None => {
            assert(in_pool(candidates@[0], false));
            None
        },
    }
}

proof fn lemma_no_member_no_success(cs: Seq<Candidate>)
    requires
        forall|j: int| 0 <= j < cs.len() ==> !in_pool(cs[j], true),
    ensures
        success_count(cs) == 0,
{
    let f = |c: Candidate| c.result.status == SubTaskStatus::Success;
    cs.lemma_all_neg_filter_empty(f);
}

} // verus!
