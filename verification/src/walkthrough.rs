//! Walkthrough documents: the structured summary of a sub-task's output
//! that is approved (by policy or by a person) before the work counts as
//! done, with the auto-approval policy.

use vstd::prelude::*;

use crate::text::{decimal, fmt_usize, own, push_str, str_eq, string_from_chars};

verus! {

/// Kind of a walkthrough section.
#[derive(Debug, Clone, Copy, PartialEq, Eq, Structural)]
pub enum SectionType {
    Summary,
    Change,
    Screenshot,
    Diff,
    TestResult,
    Risk,
}

/// The wire name of each [`SectionType`] value.
pub open spec fn section_type_name(x: SectionType) -> Seq<char> {
    match x {
        SectionType::Summary => "summary"@,
        SectionType::Change => "change"@,
        SectionType::Screenshot => "screenshot"@,
        SectionType::Diff => "diff"@,
        SectionType::TestResult => "test_result"@,
        SectionType::Risk => "risk"@,
    }
}

impl SectionType {
    /// The wire name of the value.
    pub fn as_str(&self) -> (r: &'static str)
        ensures
            r@ == section_type_name(*self),
    {
        match self {
            SectionType::Summary => "summary",
            SectionType::Change => "change",
            SectionType::Screenshot => "screenshot",
            SectionType::Diff => "diff",
            SectionType::TestResult => "test_result",
            SectionType::Risk => "risk",
        }
    }
}

/// Risk a section reports.
#[derive(Debug, Clone, Copy, PartialEq, Eq, Structural)]
pub enum RiskLevel {
    NoRisk,
    Low,
    Medium,
    High,
}

/// The wire name of each [`RiskLevel`] value.
pub open spec fn risk_level_name(x: RiskLevel) -> Seq<char> {
    match x {
        RiskLevel::NoRisk => "none"@,
        RiskLevel::Low => "low"@,
        RiskLevel::Medium => "medium"@,
        RiskLevel::High => "high"@,
    }
}

impl RiskLevel {
    /// The wire name of the value.
    pub fn as_str(&self) -> (r: &'static str)
        ensures
            r@ == risk_level_name(*self),
    {
        match self {
            RiskLevel::NoRisk => "none",
            RiskLevel::Low => "low",
            RiskLevel::Medium => "medium",
            RiskLevel::High => "high",
        }
    }
}

/// Where independent verification of a document stands.
#[derive(Debug, Clone, Copy, PartialEq, Eq, Structural)]
pub enum VerificationStatus {
    Pending,
    Verified,
    Disputed,
    Skipped,
}

/// The wire name of each [`VerificationStatus`] value.
pub open spec fn verification_status_name(x: VerificationStatus) -> Seq<char> {
    match x {
        VerificationStatus::Pending => "pending"@,
        VerificationStatus::Verified => "verified"@,
        VerificationStatus::Disputed => "disputed"@,
        VerificationStatus::Skipped => "skipped"@,
    }
}

/// The value that `VerificationStatus::parse` gives for `s`: the variant whose wire
/// name is `s`, or `Pending` for any other text.
pub open spec fn verification_status_parsed(s: Seq<char>) -> VerificationStatus {
    if s == "verified"@ {
        VerificationStatus::Verified
    } else if s == "disputed"@ {
        VerificationStatus::Disputed
    } else if s == "skipped"@ {
        VerificationStatus::Skipped
    } else {
        VerificationStatus::Pending
    }
}

impl VerificationStatus {
    /// The wire name of the value.
    pub fn as_str(&self) -> (r: &'static str)
        ensures
            r@ == verification_status_name(*self),
    {
        match self {
            VerificationStatus::Pending => "pending",
            VerificationStatus::Verified => "verified",
            VerificationStatus::Disputed => "disputed",
            VerificationStatus::Skipped => "skipped",
        }
    }

    /// Reads a wire name; unknown text gives `Pending`.
    pub fn parse(s: &str) -> (r: Self)
        ensures
            r == verification_status_parsed(s@),
    {
        if str_eq(s, "verified") {
            VerificationStatus::Verified
        } else if str_eq(s, "disputed") {
            VerificationStatus::Disputed
        } else if str_eq(s, "skipped") {
            VerificationStatus::Skipped
        } else {
            VerificationStatus::Pending
        }
    }
}

/// Reading back the wire name of any value gives that value.
pub proof fn lemma_verification_status_round_trip(x: VerificationStatus)
    ensures
        verification_status_parsed(verification_status_name(x)) == x,
{
    reveal_strlit("pending");
    reveal_strlit("verified");
    reveal_strlit("disputed");
    reveal_strlit("skipped");
    assert("pending"@.len() != "verified"@.len());
    assert("pending"@ != "verified"@);
    assert("pending"@.len() != "disputed"@.len());
    assert("pending"@ != "disputed"@);
    assert("pending"@[0] != "skipped"@[0]);
    assert("pending"@ != "skipped"@);
    assert("verified"@[0] != "disputed"@[0]);
    assert("verified"@ != "disputed"@);
    assert("verified"@.len() != "skipped"@.len());
    assert("verified"@ != "skipped"@);
    assert("disputed"@.len() != "skipped"@.len());
    assert("disputed"@ != "skipped"@);
}

/// Whether a document has been approved.
#[derive(Debug, Clone, Copy, PartialEq, Eq, Structural)]
pub enum ApprovalStatus {
    Pending,
    Approved,
    Rejected,
}

/// The wire name of each [`ApprovalStatus`] value.
pub open spec fn approval_status_name(x: ApprovalStatus) -> Seq<char> {
    match x {
        ApprovalStatus::Pending => "pending"@,
        ApprovalStatus::Approved => "approved"@,
        ApprovalStatus::Rejected => "rejected"@,
    }
}

/// The value that `ApprovalStatus::parse` gives for `s`: the variant whose wire
/// name is `s`, or `Pending` for any other text.
pub open spec fn approval_status_parsed(s: Seq<char>) -> ApprovalStatus {
    if s == "approved"@ {
        ApprovalStatus::Approved
    } else if s == "rejected"@ {
        ApprovalStatus::Rejected
    } else {
        ApprovalStatus::Pending
    }
}

impl ApprovalStatus {
    /// The wire name of the value.
    pub fn as_str(&self) -> (r: &'static str)
        ensures
            r@ == approval_status_name(*self),
    {
        match self {
            ApprovalStatus::Pending => "pending",
            ApprovalStatus::Approved => "approved",
            ApprovalStatus::Rejected => "rejected",
        }
    }

    /// Reads a wire name; unknown text gives `Pending`.
    pub fn parse(s: &str) -> (r: Self)
        ensures
            r == approval_status_parsed(s@),
    {
        if str_eq(s, "approved") {
            ApprovalStatus::Approved
        } else if str_eq(s, "rejected") {
            ApprovalStatus::Rejected
        } else {
            ApprovalStatus::Pending
        }
    }
}

/// Reading back the wire name of any value gives that value.
pub proof fn lemma_approval_status_round_trip(x: ApprovalStatus)
    ensures
        approval_status_parsed(approval_status_name(x)) == x,
{
    reveal_strlit("pending");
    reveal_strlit("approved");
    reveal_strlit("rejected");
    assert("pending"@.len() != "approved"@.len());
    assert("pending"@ != "approved"@);
    assert("pending"@.len() != "rejected"@.len());
    assert("pending"@ != "rejected"@);
    assert("approved"@[0] != "rejected"@[0]);
    assert("approved"@ != "rejected"@);
}

/// One section of a walkthrough document.
#[derive(Debug, Clone)]
pub struct WalkthroughSection {
    pub id: String,
    pub section_type: SectionType,
    pub title: String,
    pub content: String,
    pub risk_level: Option<RiskLevel>,
    pub risk_note: Option<String>,
    /// The section reports test outcomes and at least one case failed.
    pub has_test_failure: bool,
    /// Number of files this section claims to have changed.
    pub files_changed: u32,
}

/// A walkthrough document. Timestamps are milliseconds since the Unix epoch.
#[derive(Debug, Clone)]
pub struct WalkthroughDoc {
    pub id: String,
    pub sub_task_id: String,
    pub session_id: String,
    pub trace_id: Option<String>,
    pub title: String,
    pub generated_at: i64,
    pub agent_type: String,
    pub sections: Vec<WalkthroughSection>,
    pub verification_status: VerificationStatus,
    pub verification_notes: Option<String>,
    pub verified_at: Option<i64>,
    pub approval_status: ApprovalStatus,
    pub approved_by: Option<String>,
    pub approved_at: Option<i64>,
}

/// The outcome of the auto-approval policy.
#[derive(Debug, Clone, PartialEq, Eq)]
pub enum AutoApprovalDecision {
    AutoApprove,
    AutoReject(String),
    RequireHuman(String),
}

/// The mathematical value of an [`AutoApprovalDecision`].
pub enum DecisionView {
    AutoApprove,
    AutoReject(Seq<char>),
    RequireHuman(Seq<char>),
}

impl View for AutoApprovalDecision {
    type V = DecisionView;

    open spec fn view(&self) -> DecisionView {
        match self {
            AutoApprovalDecision::AutoApprove => DecisionView::AutoApprove,
            AutoApprovalDecision::AutoReject(r) => DecisionView::AutoReject(r@),
            AutoApprovalDecision::RequireHuman(r) => DecisionView::RequireHuman(r@),
        }
    }
}

/// Some section has risk level `level`.
pub open spec fn has_risk(secs: Seq<WalkthroughSection>, level: RiskLevel) -> bool {
    exists|i: int| 0 <= i < secs.len() && secs[i].risk_level == Some(level)
}

/// Some test-result section reports a failure.
pub open spec fn has_test_failure(secs: Seq<WalkthroughSection>) -> bool {
    exists|i: int|
        0 <= i < secs.len() && secs[i].section_type == SectionType::TestResult && secs[i].has_test_failure
}

/// Files changed, summed over the change sections.
pub open spec fn files_total(secs: Seq<WalkthroughSection>) -> nat
    decreases secs.len(),
{
    if secs.len() == 0 {
        0
    } else {
        files_total(secs.drop_last()) + if secs.last().section_type == SectionType::Change {
            secs.last().files_changed as nat
        } else {
            0
        }
    }
}

/// The auto-approval policy. A disputed verification is rejected; a
/// high-risk section, an unconfirmed verification, a medium-risk section,
/// a test failure or more than five changed files require a person;
/// anything else is approved.
pub open spec fn decide(status: VerificationStatus, secs: Seq<WalkthroughSection>) -> DecisionView {
    if status == VerificationStatus::Disputed {
        DecisionView::AutoReject("verifier disputed the walkthrough"@)
    } else if has_risk(secs, RiskLevel::High) {
        DecisionView::RequireHuman("high-risk section present"@)
    } else if status != VerificationStatus::Verified {
        DecisionView::RequireHuman("verifier has not yet confirmed"@)
    } else if has_risk(secs, RiskLevel::Medium) {
        DecisionView::RequireHuman("medium-risk section present"@)
    } else if has_test_failure(secs) {
        DecisionView::RequireHuman("test failure present"@)
    } else if files_total(secs) > 5 {
        DecisionView::RequireHuman(decimal(files_total(secs)) + " files changed (cap=5)"@)
    } else {
        DecisionView::AutoApprove
    }
}

fn any_risk(secs: &Vec<WalkthroughSection>, level: RiskLevel) -> (r: bool)
    ensures
        r == has_risk(secs@, level),
{
    let mut i: usize = 0;
    while i < secs.len()
        invariant
            i <= secs.len(),
            forall|j: int| 0 <= j < i ==> secs@[j].risk_level != Some(level),
        decreases secs.len() - i,
    {
        if let Some(l) = secs[i].risk_level {
            if l == level {
                return true;
            }
        }
        i = i + 1;
    }
    false
}

fn any_test_failure(secs: &Vec<WalkthroughSection>) -> (r: bool)
    ensures
        r == has_test_failure(secs@),
{
    let mut i: usize = 0;
    while i < secs.len()
        invariant
            i <= secs.len(),
            forall|j: int|
                0 <= j < i ==> !(secs@[j].section_type == SectionType::TestResult && secs@[j].has_test_failure),
        decreases secs.len() - i,
    {
        if secs[i].section_type == SectionType::TestResult && secs[i].has_test_failure {
            return true;
        }
        i = i + 1;
    }
    false
}

fn total_files(secs: &Vec<WalkthroughSection>) -> (r: u32)
    requires
        files_total(secs@) <= u32::MAX,
    ensures
        r == files_total(secs@),
{
    let mut total: u32 = 0;
    let mut i: usize = 0;
    while i < secs.len()
        invariant
            i <= secs.len(),
            files_total(secs@) <= u32::MAX,
            total == files_total(secs@.take(i as int)),
        decreases secs.len() - i,
    {
        assert(secs@.take((i + 1) as int).drop_last() =~= secs@.take(i as int));
        proof {
            lemma_files_total_prefix(secs@, (i + 1) as int);
        }
        if secs[i].section_type == SectionType::Change {
            total = total + secs[i].files_changed;
        }
        i = i + 1;
    }
    assert(secs@.take(i as int) =~= secs@);
    total
}

proof fn lemma_files_total_prefix(secs: Seq<WalkthroughSection>, k: int)
    requires
        0 <= k <= secs.len(),
    ensures
        files_total(secs.take(k)) <= files_total(secs),
    decreases secs.len() - k,
{
    if k < secs.len() {
        lemma_files_total_prefix(secs, k + 1);
        assert(secs.take(k + 1).drop_last() =~= secs.take(k));
    } else {
        assert(secs.take(k) =~= secs);
    }
}

fn reason(s: &str) -> (r: String)
    ensures
        r@ == s@,
{
    own(s)
}

impl WalkthroughDoc {
    /// Applies the auto-approval policy ([`decide`]) to the document.
    pub fn auto_decide(&self) -> (r: AutoApprovalDecision)
        requires
            files_total(self.sections@) <= u32::MAX,
        ensures
            r@ == decide(self.verification_status, self.sections@),
    {
        if self.verification_status == VerificationStatus::Disputed {
            return AutoApprovalDecision::AutoReject(reason("verifier disputed the walkthrough"));
        }
        if any_risk(&self.sections, RiskLevel::High) {
            return AutoApprovalDecision::RequireHuman(reason("high-risk section present"));
        }
        if self.verification_status != VerificationStatus::Verified {
            return AutoApprovalDecision::RequireHuman(reason("verifier has not yet confirmed"));
        }
        if any_risk(&self.sections, RiskLevel::Medium) {
            return AutoApprovalDecision::RequireHuman(reason("medium-risk section present"));
        }
        if any_test_failure(&self.sections) {
            return AutoApprovalDecision::RequireHuman(reason("test failure present"));
        }
        let total = total_files(&self.sections);
        if total > 5 {
            let mut msg = fmt_usize(total as usize);
            push_str(&mut msg, " files changed (cap=5)");
            return AutoApprovalDecision::RequireHuman(string_from_chars(&msg));
        }
        AutoApprovalDecision::AutoApprove
    }
}

/// The approval fields of a document after a decision is applied at
/// time `now`: approve and reject are recorded as made by `auto`; a
/// decision that requires a person leaves the document pending.
pub open spec fn after_review(
    before: WalkthroughDoc,
    after: WalkthroughDoc,
    d: DecisionView,
    now: i64,
) -> bool {
    &&& after.id == before.id
    &&& after.sections == before.sections
    &&& after.verification_status == before.verification_status
    &&& after.verification_notes == before.verification_notes
    &&& match d {
        DecisionView::AutoApprove => after.approval_status == ApprovalStatus::Approved
            && (after.approved_by matches Some(b) && b@ == "auto"@) && after.approved_at == Some(now),
        DecisionView::AutoReject(_) => after.approval_status == ApprovalStatus::Rejected
            && (after.approved_by matches Some(b) && b@ == "auto"@) && after.approved_at == Some(now),
        DecisionView::RequireHuman(_) => after.approval_status == ApprovalStatus::Pending
            && after.approved_by == before.approved_by && after.approved_at == before.approved_at,
    }
}

/// Records an auto-approval decision on `doc` at time `now`.
pub fn apply_decision(doc: &mut WalkthroughDoc, decision: &AutoApprovalDecision, now: i64)
    ensures
        after_review(*old(doc), *final(doc), decision@, now),
{
    match decision {
        AutoApprovalDecision::AutoApprove => {
            doc.approval_status = ApprovalStatus::Approved;
            doc.approved_by = Some(own("auto"));
            doc.approved_at = Some(now);
        },
        AutoApprovalDecision::AutoReject(_) => {
            doc.approval_status = ApprovalStatus::Rejected;
            doc.approved_by = Some(own("auto"));
            doc.approved_at = Some(now);
        },
        AutoApprovalDecision::RequireHuman(_) => {
            doc.approval_status = ApprovalStatus::Pending;
        },
    }
}

/// The notes after a rejection for `reason`: appended on a new line to
/// existing notes, or alone.
pub open spec fn rejection_notes(prev: Option<Seq<char>>, reason: Seq<char>) -> Seq<char> {
    match prev {
        Some(p) => p + "\nrejected: "@ + reason,
        None => "rejected: "@ + reason,
    }
}

impl WalkthroughDoc {
    /// Manual approval by `by` at time `now`.
    pub fn approve(&mut self, by: &str, now: i64)
        ensures
            final(self).approval_status == ApprovalStatus::Approved,
            final(self).approved_by matches Some(b) && b@ == by@,
            final(self).approved_at == Some(now),
            final(self).id == old(self).id,
            final(self).sections == old(self).sections,
            final(self).verification_status == old(self).verification_status,
            final(self).verification_notes == old(self).verification_notes,
    {
        self.approval_status = ApprovalStatus::Approved;
        self.approved_by = Some(own(by));
        self.approved_at = Some(now);
    }

    /// Manual rejection by `by` at time `now`; a reason is recorded in the
    /// verification notes.
    pub fn reject(&mut self, by: &str, why: Option<&str>, now: i64)
        ensures
            final(self).approval_status == ApprovalStatus::Rejected,
            final(self).approved_by matches Some(b) && b@ == by@,
            final(self).approved_at == Some(now),
            final(self).id == old(self).id,
            final(self).sections == old(self).sections,
            final(self).verification_status == old(self).verification_status,
            match why {
                Some(w) => final(self).verification_notes matches Some(n) && n@ == rejection_notes(
                    match old(self).verification_notes {
                        Some(p) => Some(p@),
                        None => None,
                    },
                    w@,
                ),
                None => final(self).verification_notes == old(self).verification_notes,
            },
    {
        self.approval_status = ApprovalStatus::Rejected;
        self.approved_by = Some(own(by));
        self.approved_at = Some(now);
        if let Some(w) = why {
            let mut notes: Vec<char> = Vec::new();
            match &self.verification_notes {
                Some(prev) => {
                    push_str(&mut notes, prev.as_str());
                    push_str(&mut notes, "\nrejected: ");
                },
                None => {
                    push_str(&mut notes, "rejected: ");
                },
            }
            push_str(&mut notes, w);
            self.verification_notes = Some(string_from_chars(&notes));
        }
    }
}

/// A new draft document: no sections, verification and approval pending.
pub fn new_draft(id: &str, sub_task_id: &str, session_id: &str, agent_type: &str, title: &str, now: i64) -> (r: WalkthroughDoc)
    ensures
        r.id@ == id@,
        r.sub_task_id@ == sub_task_id@,
        r.session_id@ == session_id@,
        r.agent_type@ == agent_type@,
        r.title@ == title@,
        r.trace_id.is_none(),
        r.generated_at == now,
        r.sections@.len() == 0,
        r.verification_status == VerificationStatus::Pending,
        r.verification_notes.is_none(),
        r.verified_at.is_none(),
        r.approval_status == ApprovalStatus::Pending,
        r.approved_by.is_none(),
        r.approved_at.is_none(),
{
    WalkthroughDoc {
        id: own(id),
        sub_task_id: own(sub_task_id),
        session_id: own(session_id),
        trace_id: None,
        title: own(title),
        generated_at: now,
        agent_type: own(agent_type),
        sections: Vec::new(),
        verification_status: VerificationStatus::Pending,
        verification_notes: None,
        verified_at: None,
        approval_status: ApprovalStatus::Pending,
        approved_by: None,
        approved_at: None,
    }
}

/// A new section without risk, test failure or changed files.
pub fn new_section(id: &str, section_type: SectionType, title: &str, content: &str) -> (r: WalkthroughSection)
    ensures
        r.id@ == id@,
        r.section_type == section_type,
        r.title@ == title@,
        r.content@ == content@,
        r.risk_level.is_none(),
        r.risk_note.is_none(),
        !r.has_test_failure,
        r.files_changed == 0,
{
    WalkthroughSection {
        id: own(id),
        section_type,
        title: own(title),
        content: own(content),
        risk_level: None,
        risk_note: None,
        has_test_failure: false,
        files_changed: 0,
    }
}

/// What the auto-approval policy promises over every walkthrough: a
/// disputed one is rejected; otherwise a high-risk section requires a
/// person; a verified one with a medium-risk section (and no high-risk one)
/// requires a person because of it; and a walkthrough is approved only when
/// it is verified, no section carries medium or high risk and no
/// test-result section reports a failure.
pub proof fn lemma_auto_approval_policy(status: VerificationStatus, secs: Seq<WalkthroughSection>)
    ensures
        status == VerificationStatus::Disputed ==> decide(status, secs) == DecisionView::AutoReject(
            "verifier disputed the walkthrough"@,
        ),
        status != VerificationStatus::Disputed && (exists|i: int|
            0 <= i < secs.len() && secs[i].risk_level == Some(RiskLevel::High)) ==> decide(status, secs)
            == DecisionView::RequireHuman("high-risk section present"@),
        status == VerificationStatus::Verified && (exists|i: int|
            0 <= i < secs.len() && secs[i].risk_level == Some(RiskLevel::Medium)) && (forall|i: int|
            0 <= i < secs.len() ==> secs[i].risk_level != Some(RiskLevel::High)) ==> decide(status, secs)
            == DecisionView::RequireHuman("medium-risk section present"@),
        status == VerificationStatus::Verified && (forall|i: int|
            0 <= i < secs.len() ==> secs[i].risk_level != Some(RiskLevel::Medium) && secs[i].risk_level != Some(
                RiskLevel::High,
            )) && (exists|i: int|
            0 <= i < secs.len() && secs[i].section_type == SectionType::TestResult && secs[i].has_test_failure)
            ==> decide(status, secs) == DecisionView::RequireHuman("test failure present"@),
        status == VerificationStatus::Verified && (forall|i: int|
            0 <= i < secs.len() ==> secs[i].risk_level != Some(RiskLevel::Medium) && secs[i].risk_level != Some(
                RiskLevel::High,
            )) && (forall|i: int|
            0 <= i < secs.len() && secs[i].section_type == SectionType::TestResult ==> !secs[i].has_test_failure)
            && files_total(secs) <= 5 ==> decide(status, secs) == DecisionView::AutoApprove,
        decide(status, secs) == DecisionView::AutoApprove ==> {
            &&& status == VerificationStatus::Verified
            &&& forall|i: int|
                0 <= i < secs.len() ==> secs[i].risk_level != Some(RiskLevel::Medium) && secs[i].risk_level != Some(
                    RiskLevel::High,
                )
            &&& forall|i: int|
                0 <= i < secs.len() && secs[i].section_type == SectionType::TestResult ==> !secs[i].has_test_failure
        },
{
}

} // verus!
