//! Independent verification of walkthrough claims: each check is re-run
//! against what is actually on disk, and the outcome decides whether the
//! walkthrough is verified or disputed.

use vstd::prelude::*;

use crate::text::{join, opt_view, own, push_str, seq_contains, str_contains, str_eq, string_from_chars, views};
use crate::walkthrough::{VerificationStatus, WalkthroughDoc};

verus! {

/// What a verifier check looks at.
#[derive(Debug, Clone, Copy, PartialEq, Eq, Structural)]
pub enum CheckType {
    FileExists,
    FileContent,
    TestRun,
    LintRun,
    DiffMatch,
}

/// The wire name of each [`CheckType`] value.
pub open spec fn check_type_name(x: CheckType) -> Seq<char> {
    match x {
        CheckType::FileExists => "file_exists"@,
        CheckType::FileContent => "file_content"@,
        CheckType::TestRun => "test_run"@,
        CheckType::LintRun => "lint_run"@,
        CheckType::DiffMatch => "diff_match"@,
    }
}

/// The value a stored check type reads back as: the variant whose wire
/// name is `s`, or `FileExists` for any other text.
pub open spec fn check_type_parsed(s: Seq<char>) -> CheckType {
    if s == "file_content"@ {
        CheckType::FileContent
    } else if s == "test_run"@ {
        CheckType::TestRun
    } else if s == "lint_run"@ {
        CheckType::LintRun
    } else if s == "diff_match"@ {
        CheckType::DiffMatch
    } else {
        CheckType::FileExists
    }
}

impl CheckType {
    /// The wire name of the value.
    pub fn as_str(&self) -> (r: &'static str)
        ensures
            r@ == check_type_name(*self),
    {
        match self {
            CheckType::FileExists => "file_exists",
            CheckType::FileContent => "file_content",
            CheckType::TestRun => "test_run",
            CheckType::LintRun => "lint_run",
            CheckType::DiffMatch => "diff_match",
        }
    }

    /// Reads a stored check type; unknown text gives `FileExists`.
    pub fn parse(s: &str) -> (r: Self)
        ensures
            r == check_type_parsed(s@),
    {
        if str_eq(s, "file_content") {
            CheckType::FileContent
        } else if str_eq(s, "test_run") {
            CheckType::TestRun
        } else if str_eq(s, "lint_run") {
            CheckType::LintRun
        } else if str_eq(s, "diff_match") {
            CheckType::DiffMatch
        } else {
            CheckType::FileExists
        }
    }
}

/// Reading back the wire name of any check type gives that type.
pub proof fn lemma_check_type_round_trip(x: CheckType)
    ensures
        check_type_parsed(check_type_name(x)) == x,
{
    reveal_strlit("file_exists");
    reveal_strlit("file_content");
    reveal_strlit("test_run");
    reveal_strlit("lint_run");
    reveal_strlit("diff_match");
    assert("file_exists"@.len() != "file_content"@.len());
    assert("file_exists"@ != "file_content"@);
    assert("file_exists"@.len() != "test_run"@.len());
    assert("file_exists"@ != "test_run"@);
    assert("file_exists"@.len() != "lint_run"@.len());
    assert("file_exists"@ != "lint_run"@);
    assert("file_exists"@.len() != "diff_match"@.len());
    assert("file_exists"@ != "diff_match"@);
    assert("file_content"@.len() != "test_run"@.len());
    assert("file_content"@ != "test_run"@);
    assert("file_content"@.len() != "lint_run"@.len());
    assert("file_content"@ != "lint_run"@);
    assert("file_content"@.len() != "diff_match"@.len());
    assert("file_content"@ != "diff_match"@);
    assert("test_run"@[0] != "lint_run"@[0]);
    assert("test_run"@ != "lint_run"@);
    assert("test_run"@.len() != "diff_match"@.len());
    assert("test_run"@ != "diff_match"@);
    assert("lint_run"@.len() != "diff_match"@.len());
    assert("lint_run"@ != "diff_match"@);
}

/// One check of a walkthrough claim. `executed_at` is in milliseconds since
/// the Unix epoch.
#[derive(Debug, Clone)]
pub struct VerifierCheck {
    pub id: String,
    pub walkthrough_doc_id: String,
    pub section_id: String,
    pub check_type: CheckType,
    pub expected: String,
    pub actual: Option<String>,
    pub matched: Option<bool>,
    pub discrepancy: Option<String>,
    pub executed_at: Option<i64>,
}

/// The outcome of verifying one walkthrough.
#[derive(Debug, Clone)]
pub struct VerifierReport {
    pub doc_id: String,
    pub all_match: bool,
    pub failures: Vec<String>,
}

impl VerifierCheck {
    /// A check `id` of `check_type` on a section of a walkthrough, not run
    /// yet.
    pub fn new(id: &str, walkthrough_doc_id: &str, section_id: &str, check_type: CheckType, expected: &str) -> (r: Self)
        ensures
            r.id@ == id@,
            r.walkthrough_doc_id@ == walkthrough_doc_id@,
            r.section_id@ == section_id@,
            r.check_type == check_type,
            r.expected@ == expected@,
            r.actual.is_none(),
            r.matched.is_none(),
            r.discrepancy.is_none(),
            r.executed_at.is_none(),
    {
        VerifierCheck {
            id: own(id),
            walkthrough_doc_id: own(walkthrough_doc_id),
            section_id: own(section_id),
            check_type,
            expected: own(expected),
            actual: None,
            matched: None,
            discrepancy: None,
            executed_at: None,
        }
    }
}

/// The check outcome for a target at `full` that exists or not and whose
/// text is `body`: whether it passed, and the check's new `actual`,
/// `matched` and `discrepancy` (a `None` discrepancy leaves the old one).
pub open spec fn observed(
    t: CheckType,
    expected: Seq<char>,
    full: Seq<char>,
    exists: bool,
    body: Seq<char>,
) -> (bool, Option<Seq<char>>, Option<bool>, Option<Seq<char>>) {
    match t {
        CheckType::FileExists => (
            exists,
            Some(if exists { full + " exists"@ } else { full + " missing"@ }),
            Some(exists),
            if exists { None } else { Some("expected `"@ + full + "` to exist but it does not"@) },
        ),
        CheckType::FileContent => {
            let hit = seq_contains(body, expected);
            (
                hit,
                Some(if hit { "contains expected substring"@ } else { "does not contain expected substring"@ }),
                Some(hit),
                if hit { None } else { Some("`"@ + full + "` does not contain `"@ + expected + "`"@) },
            )
        },
        _ => (false, None, None, Some("runner not yet implemented"@)),
    }
}

/// Records the outcome of running `check` at `now` against the target at
/// `full`, which exists or not and holds `body` (the empty text when it
/// could not be read). File checks compare; the runner-based kinds are not
/// run and fail. Returns whether the check passed.
pub fn record_outcome(check: &mut VerifierCheck, full: &str, exists: bool, body: &str, now: i64) -> (ok: bool)
    ensures
        ({
            let o = observed(old(check).check_type, old(check).expected@, full@, exists, body@);
            &&& ok == o.0
            &&& opt_view(final(check).actual) == (match o.1 {
                Some(a) => Some(a),
                None => opt_view(old(check).actual),
            })
            &&& final(check).matched == o.2
            &&& opt_view(final(check).discrepancy) == (match o.3 {
                Some(d) => Some(d),
                None => opt_view(old(check).discrepancy),
            })
        }),
        final(check).executed_at == Some(now),
        final(check).id == old(check).id,
        final(check).walkthrough_doc_id == old(check).walkthrough_doc_id,
        final(check).section_id == old(check).section_id,
        final(check).check_type == old(check).check_type,
        final(check).expected == old(check).expected,
{
    check.executed_at = Some(now);
    match check.check_type {
        CheckType::FileExists => {
            let mut a: Vec<char> = Vec::new();
            push_str(&mut a, full);
            if exists {
                push_str(&mut a, " exists");
            } else {
                push_str(&mut a, " missing");
            }
            check.actual = Some(string_from_chars(&a));
            check.matched = Some(exists);
            if !exists {
                let mut d: Vec<char> = Vec::new();
                push_str(&mut d, "expected `");
                push_str(&mut d, full);
                push_str(&mut d, "` to exist but it does not");
                check.discrepancy = Some(string_from_chars(&d));
            }
            exists
        },
        CheckType::FileContent => {
            let hit = str_contains(body, check.expected.as_str());
            check.actual = Some(
                if hit {
                    own("contains expected substring")
                } else {
                    own("does not contain expected substring")
                },
            );
            check.matched = Some(hit);
            if !hit {
                let mut d: Vec<char> = Vec::new();
                push_str(&mut d, "`");
                push_str(&mut d, full);
                push_str(&mut d, "` does not contain `");
                push_str(&mut d, check.expected.as_str());
                push_str(&mut d, "`");
                check.discrepancy = Some(string_from_chars(&d));
            }
            hit
        },
        _ => {
            check.matched = None;
            check.discrepancy = Some(own("runner not yet implemented"));
            false
        },
    }
}

/// The discrepancies of the checks that failed, in order (a failed check
/// without a discrepancy adds nothing).
pub open spec fn failure_notes(checks: Seq<VerifierCheck>, oks: Seq<bool>) -> Seq<Seq<char>>
    decreases checks.len(),
{
    if checks.len() == 0 || oks.len() != checks.len() {
        Seq::empty()
    } else {
        let rest = failure_notes(checks.drop_last(), oks.drop_last());
        if !oks.last() && checks.last().discrepancy.is_some() {
            rest.push(checks.last().discrepancy.unwrap()@)
        } else {
            rest
        }
    }
}

/// The report on walkthrough `doc_id` from its checks after they ran and
/// whether each passed: all matched exactly when every check passed.
pub fn summarize(doc_id: &str, checks: &Vec<VerifierCheck>, oks: &Vec<bool>) -> (r: VerifierReport)
    requires
        checks.len() == oks.len(),
    ensures
        r.doc_id@ == doc_id@,
        r.all_match == (forall|i: int| 0 <= i < oks.len() ==> oks@[i]),
        views(r.failures@) == failure_notes(checks@, oks@),
{
    let mut all_match = true;
    let mut failures: Vec<String> = Vec::new();
    let mut i: usize = 0;
    while i < checks.len()
        invariant
            i <= checks.len(),
            checks.len() == oks.len(),
            all_match == (forall|j: int| 0 <= j < i ==> oks@[j]),
            views(failures@) == failure_notes(checks@.take(i as int), oks@.take(i as int)),
        decreases checks.len() - i,
    {
        proof {
            assert(checks@.take(i + 1).drop_last() =~= checks@.take(i as int));
            assert(oks@.take(i + 1).drop_last() =~= oks@.take(i as int));
        }
        if !oks[i] {
            all_match = false;
            match &checks[i].discrepancy {
                Some(d) => {
                    failures.push(d.clone());
                    proof {
                        assert(views(failures@) =~= failure_notes(checks@.take(i as int), oks@.take(i as int)).push(
                            d@,
                        ));
                    }
                },
                None => {},
            }
        }
        i = i + 1;
    }
    proof {
        assert(checks@.take(i as int) =~= checks@);
        assert(oks@.take(i as int) =~= oks@);
    }
    VerifierReport { doc_id: own(doc_id), all_match, failures }
}

/// Writes the outcome of `report` into its walkthrough at `now`: verified
/// when every check matched, disputed otherwise, with the failures, one per
/// line, as the notes when there are any.
pub fn apply_report(doc: &mut WalkthroughDoc, report: &VerifierReport, now: i64)
    ensures
        final(doc).verification_status == if report.all_match {
            VerificationStatus::Verified
        } else {
            VerificationStatus::Disputed
        },
        final(doc).verified_at == Some(now),
        opt_view(final(doc).verification_notes) == if report.failures@.len() > 0 {
            Some(join(views(report.failures@), "\n"@))
        } else {
            opt_view(old(doc).verification_notes)
        },
        final(doc).id == old(doc).id,
        final(doc).sections == old(doc).sections,
        final(doc).approval_status == old(doc).approval_status,
        final(doc).approved_by == old(doc).approved_by,
        final(doc).approved_at == old(doc).approved_at,
{
    doc.verification_status = if report.all_match {
        VerificationStatus::Verified
    } else {
        VerificationStatus::Disputed
    };
    doc.verified_at = Some(now);
    if report.failures.len() > 0 {
        let notes = crate::text::join_strings(report.failures.as_slice(), "\n");
        doc.verification_notes = Some(string_from_chars(&notes));
    }
}

} // verus!
