use jarvis::verification::{apply_report, record_outcome, summarize, CheckType, VerifierCheck};
use jarvis::walkthrough::{
    apply_decision, new_draft, new_section, ApprovalStatus, AutoApprovalDecision, RiskLevel, SectionType,
    VerificationStatus,
};

#[test]
fn walkthrough_auto_approves_low_risk_verified() {
    let mut doc = new_draft("wt_1", "st_1", "sess_1", "coding", "重构 sync", 0);
    doc.verification_status = VerificationStatus::Verified;
    let mut summary = new_section("s1", SectionType::Summary, "summary", "做了什么");
    summary.risk_level = Some(RiskLevel::NoRisk);
    let mut change = new_section("s2", SectionType::Change, "change", "改动");
    change.risk_level = Some(RiskLevel::Low);
    change.files_changed = 3;
    let mut tests = new_section("s3", SectionType::TestResult, "tests", "12/12 通过");
    tests.risk_level = Some(RiskLevel::Low);
    tests.has_test_failure = false;
    doc.sections = vec![summary, change, tests];
    assert_eq!(doc.auto_decide(), AutoApprovalDecision::AutoApprove);
}

#[test]
fn walkthrough_high_risk_requires_human() {
    let mut doc = new_draft("wt_2", "st_1", "sess_1", "coding", "x", 0);
    doc.verification_status = VerificationStatus::Verified;
    let mut sec = new_section("s1", SectionType::Risk, "risk", "high risk");
    sec.risk_level = Some(RiskLevel::High);
    doc.sections = vec![sec];
    assert!(matches!(doc.auto_decide(), AutoApprovalDecision::RequireHuman(_)), "expected RequireHuman");
}

#[test]
fn walkthrough_disputed_auto_rejects() {
    let mut doc = new_draft("wt_3", "st_1", "sess_1", "coding", "x", 0);
    doc.verification_status = VerificationStatus::Disputed;
    assert!(matches!(doc.auto_decide(), AutoApprovalDecision::AutoReject(_)), "expected AutoReject");
}

#[test]
fn walkthrough_test_failure_blocks_auto_approve() {
    let mut doc = new_draft("wt_4", "st_1", "sess_1", "coding", "x", 0);
    doc.verification_status = VerificationStatus::Verified;
    let mut tests = new_section("s1", SectionType::TestResult, "tests", "11/12 passed");
    tests.risk_level = Some(RiskLevel::Low);
    tests.has_test_failure = true;
    doc.sections = vec![tests];
    assert!(
        matches!(doc.auto_decide(), AutoApprovalDecision::RequireHuman(_)),
        "expected human review on test failure"
    );
}

#[test]
fn walkthrough_too_many_files_blocks_auto_approve() {
    let mut doc = new_draft("wt_5", "st_1", "sess_1", "coding", "x", 0);
    doc.verification_status = VerificationStatus::Verified;
    let mut change = new_section("s1", SectionType::Change, "change", "huge");
    change.risk_level = Some(RiskLevel::Low);
    change.files_changed = 6;
    doc.sections = vec![change];
    assert!(
        matches!(doc.auto_decide(), AutoApprovalDecision::RequireHuman(_)),
        "expected human review on size cap"
    );
}

#[test]
fn walkthrough_manual_approve_records_actor_and_timestamp() {
    let mut doc = new_draft("wt_app", "st_app", "sess_app", "coding", "x", 0);
    doc.approve("user", 1_000);
    assert_eq!(doc.approval_status, ApprovalStatus::Approved);
    assert_eq!(doc.approved_by.as_deref(), Some("user"));
    assert!(doc.approved_at.is_some());
}

#[test]
fn walkthrough_manual_reject_records_reason_in_notes() {
    let mut doc = new_draft("wt_rej", "st_rej", "sess_rej", "coding", "x", 0);
    doc.reject("user", Some("design unclear"), 1_000);
    assert_eq!(doc.approval_status, ApprovalStatus::Rejected);
    assert!(doc.verification_notes.clone().unwrap().contains("design unclear"));
    doc.reject("user", Some("still unclear"), 2_000);
    assert_eq!(doc.verification_notes.as_deref(), Some("rejected: design unclear\nrejected: still unclear"));
}

#[test]
fn walkthrough_store_round_trip_and_auto_review() {
    let mut doc = new_draft("wt_6", "st_1", "sess_1", "coding", "x", 0);
    doc.verification_status = VerificationStatus::Verified;
    doc.sections = vec![new_section("s1", SectionType::Summary, "summary", "ok")];
    let decision = doc.auto_decide();
    assert_eq!(decision, AutoApprovalDecision::AutoApprove);
    apply_decision(&mut doc, &decision, 5);
    assert_eq!(doc.approval_status, ApprovalStatus::Approved);
    assert_eq!(doc.approved_by.as_deref(), Some("auto"));
    assert_eq!(doc.approved_at, Some(5));
}

// ── verification of walkthrough claims ──────────────────────────────────

#[test]
fn verifier_file_exists_passes_when_present() {
    let mut check = VerifierCheck::new("vc_1", "doc_1", "sec_1", CheckType::FileExists, "expected hello.txt");
    let ok = record_outcome(&mut check, "/base/hello.txt", true, "", 9);
    assert!(ok);
    assert_eq!(check.matched, Some(true));
    assert_eq!(check.actual.as_deref(), Some("/base/hello.txt exists"));
    assert!(check.discrepancy.is_none());
    assert_eq!(check.executed_at, Some(9));
}

#[test]
fn verifier_file_exists_fails_with_discrepancy() {
    let mut check = VerifierCheck::new("vc_2", "doc_1", "sec_1", CheckType::FileExists, "expected nope.txt");
    let ok = record_outcome(&mut check, "/base/nope.txt", false, "", 9);
    assert!(!ok);
    assert!(check.discrepancy.is_some());
    assert_eq!(check.discrepancy.as_deref(), Some("expected `/base/nope.txt` to exist but it does not"));
    assert_eq!(check.actual.as_deref(), Some("/base/nope.txt missing"));
}

#[test]
fn verifier_content_check_compares_body() {
    let mut check = VerifierCheck::new("vc_3", "doc_1", "sec_1", CheckType::FileContent, "fn main");
    assert!(record_outcome(&mut check, "/b/a.rs", true, "pub fn main() {}", 1));
    assert_eq!(check.actual.as_deref(), Some("contains expected substring"));
    let mut check = VerifierCheck::new("vc_4", "doc_1", "sec_1", CheckType::FileContent, "fn main");
    assert!(!record_outcome(&mut check, "/b/a.rs", true, "", 1));
    assert_eq!(check.discrepancy.as_deref(), Some("`/b/a.rs` does not contain `fn main`"));
    let mut check = VerifierCheck::new("vc_5", "doc_1", "sec_1", CheckType::TestRun, "all green");
    assert!(!record_outcome(&mut check, "/b/a.rs", true, "", 1));
    assert_eq!(check.matched, None);
    assert_eq!(check.discrepancy.as_deref(), Some("runner not yet implemented"));
}

#[test]
fn verifier_run_marks_disputed_when_files_missing() {
    let mut doc = new_draft("wt_v1", "st_1", "sess_1", "coding", "x", 0);
    let mut check = VerifierCheck::new("vc_6", &doc.id, "sec_1", CheckType::FileExists, "missing");
    let ok = record_outcome(&mut check, "/tmp/missing.txt", false, "", 3);
    let report = summarize(&doc.id, &vec![check], &vec![ok]);
    assert!(!report.all_match);
    apply_report(&mut doc, &report, 4);
    assert_eq!(doc.verification_status, VerificationStatus::Disputed);
    assert!(doc.verification_notes.is_some());
    assert_eq!(doc.verified_at, Some(4));
}

#[test]
fn verifier_run_marks_verified_when_all_match() {
    let mut doc = new_draft("wt_v2", "st_1", "sess_1", "coding", "x", 0);
    let mut check = VerifierCheck::new("vc_7", &doc.id, "sec_1", CheckType::FileExists, "expect a.txt");
    let ok = record_outcome(&mut check, "/tmp/a.txt", true, "", 3);
    let report = summarize(&doc.id, &vec![check], &vec![ok]);
    assert!(report.all_match);
    apply_report(&mut doc, &report, 4);
    assert_eq!(doc.verification_status, VerificationStatus::Verified);
    assert!(doc.verification_notes.is_none());
}

#[test]
fn verifier_notes_join_failures_by_line() {
    let mut doc = new_draft("wt_v3", "st_1", "sess_1", "coding", "x", 0);
    let mut a = VerifierCheck::new("a", &doc.id, "s", CheckType::FileExists, "a");
    let oka = record_outcome(&mut a, "/a", false, "", 1);
    let mut b = VerifierCheck::new("b", &doc.id, "s", CheckType::LintRun, "b");
    let okb = record_outcome(&mut b, "/b", true, "", 1);
    let report = summarize(&doc.id, &vec![a, b], &vec![oka, okb]);
    assert_eq!(report.failures.len(), 2);
    apply_report(&mut doc, &report, 2);
    assert_eq!(
        doc.verification_notes.as_deref(),
        Some("expected `/a` to exist but it does not\nrunner not yet implemented")
    );
}
