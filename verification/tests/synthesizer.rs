use jarvis::sub_task::{SubTaskResult, SubTaskStatus};
use jarvis::synthesizer::{arbitrate, ArbitrationStrategy, Candidate};

fn synth_candidate(agent_type: &str, status: SubTaskStatus, tokens: u32, artifacts: usize) -> Candidate {
    Candidate {
        agent_type: agent_type.to_string(),
        result: SubTaskResult {
            sub_task_id: format!("st_{agent_type}"),
            status,
            summary: format!("ran by {agent_type}"),
            artifact_ids: (0..artifacts).map(|i| format!("art_{agent_type}_{i}")).collect(),
            escalation: None,
            token_used: tokens,
            tool_calls_count: 0,
            completed_at: 0,
        },
    }
}

#[test]
fn synthesizer_returns_none_for_empty_candidates() {
    let outcome = arbitrate(&[], ArbitrationStrategy::ReviewerTakesPrecedence);
    assert!(outcome.is_none());
}

#[test]
fn synthesizer_reviewer_wins_regardless_of_tokens() {
    let candidates = vec![
        synth_candidate("coding", SubTaskStatus::Success, 5000, 5),
        synth_candidate("verifier", SubTaskStatus::Success, 200, 0),
        synth_candidate("research", SubTaskStatus::Success, 3000, 2),
    ];
    let outcome = arbitrate(&candidates, ArbitrationStrategy::ReviewerTakesPrecedence).unwrap();
    assert_eq!(outcome.winner_agent_type, "verifier");
    assert!(outcome.reason.contains("§27.6"));
}

#[test]
fn synthesizer_reviewer_strategy_falls_back_to_tokens_when_no_reviewer() {
    let candidates = vec![
        synth_candidate("coding", SubTaskStatus::Success, 1000, 1),
        synth_candidate("research", SubTaskStatus::Success, 5000, 1),
    ];
    let outcome = arbitrate(&candidates, ArbitrationStrategy::ReviewerTakesPrecedence).unwrap();
    assert_eq!(outcome.winner_agent_type, "research");
}

#[test]
fn synthesizer_highest_tokens_picks_max_among_successes() {
    let candidates = vec![
        synth_candidate("coding", SubTaskStatus::Success, 800, 5),
        synth_candidate("research", SubTaskStatus::Failed, 9999, 0),
        synth_candidate("creative", SubTaskStatus::Success, 2000, 0),
    ];
    let outcome = arbitrate(&candidates, ArbitrationStrategy::HighestTokenSuccess).unwrap();
    assert_eq!(outcome.winner_agent_type, "creative");
}

#[test]
fn synthesizer_most_artifacts_wins() {
    let candidates = vec![
        synth_candidate("coding", SubTaskStatus::Success, 100, 7),
        synth_candidate("research", SubTaskStatus::Success, 9999, 1),
    ];
    let outcome = arbitrate(&candidates, ArbitrationStrategy::MostArtifacts).unwrap();
    assert_eq!(outcome.winner_agent_type, "coding");
}

#[test]
fn synthesizer_falls_back_when_all_failed() {
    let candidates = vec![
        synth_candidate("coding", SubTaskStatus::Failed, 100, 0),
        synth_candidate("research", SubTaskStatus::Failed, 500, 0),
    ];
    let outcome = arbitrate(&candidates, ArbitrationStrategy::HighestTokenSuccess).unwrap();
    assert_eq!(outcome.winner_agent_type, "research");
    assert!(outcome.reason.contains("least-bad"));
}

#[test]
fn synthesizer_reasons_are_exact() {
    let candidates = vec![
        synth_candidate("coding", SubTaskStatus::Success, 100, 0),
        synth_candidate("research", SubTaskStatus::Success, 500, 0),
    ];
    let outcome = arbitrate(&candidates, ArbitrationStrategy::ReviewerTakesPrecedence).unwrap();
    assert_eq!(outcome.strategy, ArbitrationStrategy::HighestTokenSuccess);
    assert_eq!(outcome.reason, "HighestTokenSuccess over 2 successful candidate(s)");
    let failed = vec![
        synth_candidate("coding", SubTaskStatus::Failed, 1, 3),
        synth_candidate("research", SubTaskStatus::Partial, 1, 4),
        synth_candidate("x", SubTaskStatus::Failed, 1, 4),
    ];
    let outcome = arbitrate(&failed, ArbitrationStrategy::MostArtifacts).unwrap();
    assert_eq!(outcome.reason, "MostArtifacts: all 3 candidate(s) failed; picking least-bad");
    // ties go to the last maximal candidate
    assert_eq!(outcome.winner_agent_type, "x");
}

#[test]
fn synthesizer_winner_is_an_exact_copy() {
    let candidates = vec![synth_candidate("coding", SubTaskStatus::Success, 7, 2)];
    let outcome = arbitrate(&candidates, ArbitrationStrategy::MostArtifacts).unwrap();
    assert_eq!(outcome.winner.sub_task_id, "st_coding");
    assert_eq!(outcome.winner.summary, "ran by coding");
    assert_eq!(outcome.winner.artifact_ids, vec!["art_coding_0", "art_coding_1"]);
    assert_eq!(outcome.winner.token_used, 7);
}
