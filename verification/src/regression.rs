//! Regression runs: every approved walkthrough has its checks replayed, and
//! each walkthrough whose checks now fail is classified as an expected
//! change (only files touched by the change set fail) or a potential bug.

use vstd::prelude::*;

use crate::text::{opt_view, own, push_str, string_from_chars};
use crate::verification::{check_type_name, VerifierCheck};

verus! {

/// How one walkthrough fared in a regression run.
#[derive(Debug, Clone, Copy, PartialEq, Eq, Structural)]
pub enum ItemStatus {
    Pass,
    ExpectedChange,
    PotentialBug,
}

/// The wire name of each [`ItemStatus`] value.
pub open spec fn item_status_name(x: ItemStatus) -> Seq<char> {
    match x {
        ItemStatus::Pass => "pass"@,
        ItemStatus::ExpectedChange => "expected_change"@,
        ItemStatus::PotentialBug => "potential_bug"@,
    }
}

impl ItemStatus {
    /// The wire name of the value.
    pub fn as_str(&self) -> (r: &'static str)
        ensures
            r@ == item_status_name(*self),
    {
        match self {
            ItemStatus::Pass => "pass",
            ItemStatus::ExpectedChange => "expected_change",
            ItemStatus::PotentialBug => "potential_bug",
        }
    }
}

/// One failed check of a walkthrough in a regression run.
#[derive(Debug, Clone)]
pub struct DiscrepancyItem {
    pub section_title: String,
    pub expected: String,
    pub actual: String,
    pub analysis: String,
}

/// How one walkthrough fared.
#[derive(Debug, Clone)]
pub struct RegressionItem {
    pub walkthrough_doc_id: String,
    pub feature_title: String,
    pub status: ItemStatus,
    pub discrepancies: Vec<DiscrepancyItem>,
}

/// The outcome of a regression run. `triggered_at` is in milliseconds
/// since the Unix epoch.
#[derive(Debug, Clone)]
pub struct RegressionReport {
    pub id: String,
    pub session_id: Option<String>,
    pub triggered_at: i64,
    pub total_checks: u32,
    pub passed: u32,
    pub expected_changes: u32,
    pub potential_bugs: u32,
    pub items: Vec<RegressionItem>,
}

/// A check that was replayed: the check after it ran, its target, whether
/// that file was touched by the current change set, and whether it passed.
#[derive(Debug, Clone)]
pub struct CheckRun {
    pub check: VerifierCheck,
    pub target: String,
    pub touched_in_changeset: bool,
    pub ok: bool,
}

/// The replay of one walkthrough: whether the walkthrough exists and is
/// approved (the checks of any other are not run and not counted), and its
/// replayed checks.
#[derive(Debug, Clone)]
pub struct PlanRun {
    pub doc_id: String,
    pub feature_title: String,
    pub approved: bool,
    pub checks: Vec<CheckRun>,
}

/// The analysis of a failed check in a touched file.
pub open spec fn touched_note() -> Seq<char> {
    "discrepancy in a file modified by this change — likely expected"@
}

/// The analysis of a failed check in a file the change did not touch.
pub open spec fn untouched_note() -> Seq<char> {
    "discrepancy in a file NOT modified by this change — flag for review"@
}

/// The text of a discrepancy: section title, expected, actual, analysis.
pub open spec fn discrepancy_view(d: DiscrepancyItem) -> (Seq<char>, Seq<char>, Seq<char>, Seq<char>) {
    (d.section_title@, d.expected@, d.actual@, d.analysis@)
}

/// The discrepancy a failed check gives: its kind and target as the title,
/// its expectation, what it found (empty when nothing), and the analysis.
pub open spec fn discrepancy_for(c: CheckRun) -> (Seq<char>, Seq<char>, Seq<char>, Seq<char>) {
    (
        check_type_name(c.check.check_type) + " ("@ + c.target@ + ")"@,
        c.check.expected@,
        match opt_view(c.check.actual) {
            Some(a) => a,
            None => Seq::empty(),
        },
        if c.touched_in_changeset { touched_note() } else { untouched_note() },
    )
}

/// The discrepancies of the failed checks of `cs`, in order.
pub open spec fn discrepancies_of(cs: Seq<CheckRun>) -> Seq<(Seq<char>, Seq<char>, Seq<char>, Seq<char>)>
    decreases cs.len(),
{
    if cs.len() == 0 {
        Seq::empty()
    } else if cs.last().ok {
        discrepancies_of(cs.drop_last())
    } else {
        discrepancies_of(cs.drop_last()).push(discrepancy_for(cs.last()))
    }
}

/// The status of a walkthrough whose checks ran as `cs`: it passes when
/// none failed; a failure only in touched files is an expected change; any
/// failure in an untouched file is a potential bug.
pub open spec fn status_of(cs: Seq<CheckRun>) -> ItemStatus {
    if forall|i: int| 0 <= i < cs.len() ==> #[trigger] cs[i].ok {
        ItemStatus::Pass
    } else if forall|i: int| 0 <= i < cs.len() && !(#[trigger] cs[i].ok) ==> cs[i].touched_in_changeset {
        ItemStatus::ExpectedChange
    } else {
        ItemStatus::PotentialBug
    }
}

/// The replays that count: those of approved walkthroughs, in order.
pub open spec fn counted(plans: Seq<PlanRun>) -> Seq<PlanRun>
    decreases plans.len(),
{
    if plans.len() == 0 {
        plans
    } else if plans.last().approved {
        counted(plans.drop_last()).push(plans.last())
    } else {
        counted(plans.drop_last())
    }
}

/// The number of checks in `plans`.
pub open spec fn checks_in(plans: Seq<PlanRun>) -> nat
    decreases plans.len(),
{
    if plans.len() == 0 {
        0
    } else {
        checks_in(plans.drop_last()) + plans.last().checks@.len()
    }
}

/// The number of `plans` whose checks give status `s`.
pub open spec fn with_status(plans: Seq<PlanRun>, s: ItemStatus) -> nat
    decreases plans.len(),
{
    if plans.len() == 0 {
        0
    } else {
        with_status(plans.drop_last(), s) + if status_of(plans.last().checks@) == s { 1nat } else { 0nat }
    }
}

/// `item` reports the replay `p`.
pub open spec fn reports(item: RegressionItem, p: PlanRun) -> bool {
    &&& item.walkthrough_doc_id@ == p.doc_id@
    &&& item.feature_title@ == p.feature_title@
    &&& item.status == status_of(p.checks@)
    &&& item.discrepancies@.map_values(|d: DiscrepancyItem| discrepancy_view(d)) == discrepancies_of(p.checks@)
}

/// Every plan has exactly one status, so the three counts add up to the
/// number of plans.
pub proof fn lemma_statuses_cover(plans: Seq<PlanRun>)
    ensures
        with_status(plans, ItemStatus::Pass) + with_status(plans, ItemStatus::ExpectedChange) + with_status(
            plans,
            ItemStatus::PotentialBug,
        ) == plans.len(),
    decreases plans.len(),
{
    if plans.len() > 0 {
        lemma_statuses_cover(plans.drop_last());
    }
}

proof fn lemma_counted_len(plans: Seq<PlanRun>)
    ensures
        counted(plans).len() <= plans.len(),
    decreases plans.len(),
{
    if plans.len() > 0 {
        lemma_counted_len(plans.drop_last());
    }
}

proof fn lemma_with_status_le(plans: Seq<PlanRun>, s: ItemStatus)
    ensures
        with_status(plans, s) <= plans.len(),
    decreases plans.len(),
{
    if plans.len() > 0 {
        lemma_with_status_le(plans.drop_last(), s);
    }
}

proof fn lemma_checks_prefix(s: Seq<PlanRun>, n: int)
    requires
        0 <= n <= s.len(),
    ensures
        checks_in(counted(s.take(n))) <= checks_in(counted(s)),
    decreases s.len(),
{
    if n == s.len() {
        assert(s.take(n) =~= s);
    } else {
        assert(s.take(n) =~= s.drop_last().take(n));
        lemma_checks_prefix(s.drop_last(), n);
        if s.last().approved {
            assert(counted(s).drop_last() =~= counted(s.drop_last()));
        }
    }
}

fn discrepancy(c: &CheckRun) -> (r: DiscrepancyItem)
    ensures
        discrepancy_view(r) == discrepancy_for(*c),
{
    let mut title: Vec<char> = Vec::new();
    push_str(&mut title, c.check.check_type.as_str());
    push_str(&mut title, " (");
    push_str(&mut title, c.target.as_str());
    push_str(&mut title, ")");
    let actual = match &c.check.actual {
        Some(a) => a.clone(),
        None => String::new(),
    };
    proof {
        if c.check.actual.is_none() {
            assert(actual@ =~= Seq::<char>::empty());
        }
    }
    DiscrepancyItem {
        section_title: string_from_chars(&title),
        expected: c.check.expected.clone(),
        actual,
        analysis: if c.touched_in_changeset {
            own("discrepancy in a file modified by this change — likely expected")
        } else {
            own("discrepancy in a file NOT modified by this change — flag for review")
        },
    }
}

/// The item that reports the replay `p`.
pub fn classify(p: &PlanRun) -> (r: RegressionItem)
    ensures
        reports(r, *p),
{
    let cs = &p.checks;
    let mut discrepancies: Vec<DiscrepancyItem> = Vec::new();
    let mut failed = false;
    let mut touched_only = true;
    let mut i: usize = 0;
    while i < cs.len()
        invariant
            i <= cs.len(),
            cs == &p.checks,
            failed == exists|j: int| 0 <= j < i && !(#[trigger] cs@[j].ok),
            touched_only == forall|j: int| 0 <= j < i && !(#[trigger] cs@[j].ok) ==> cs@[j].touched_in_changeset,
            discrepancies@.map_values(|d: DiscrepancyItem| discrepancy_view(d)) == discrepancies_of(
                cs@.take(i as int),
            ),
        decreases cs.len() - i,
    {
        proof {
            assert(cs@.take(i + 1).drop_last() =~= cs@.take(i as int));
        }
        if !cs[i].ok {
            failed = true;
            if !cs[i].touched_in_changeset {
                touched_only = false;
            }
            let d = discrepancy(&cs[i]);
            discrepancies.push(d);
            proof {
                assert(discrepancies@.map_values(|d: DiscrepancyItem| discrepancy_view(d)) =~= discrepancies_of(
                    cs@.take(i as int),
                ).push(discrepancy_for(cs@[i as int])));
            }
        }
        i = i + 1;
    }
    proof {
        assert(cs@.take(i as int) =~= cs@);
    }
    let status = if !failed {
        ItemStatus::Pass
    } else if touched_only {
        ItemStatus::ExpectedChange
    } else {
        ItemStatus::PotentialBug
    };
    RegressionItem {
        walkthrough_doc_id: p.doc_id.clone(),
        feature_title: p.feature_title.clone(),
        status,
        discrepancies,
    }
}

/// The report `id` of a run for `session_id` at `now` over the replays
/// `plans`: one item per approved walkthrough, in order, the number of
/// checks replayed, and how many walkthroughs passed, changed as expected
/// or point at a potential bug.
pub fn compile_report(id: &str, session_id: Option<&str>, now: i64, plans: &Vec<PlanRun>) -> (r: RegressionReport)
    requires
        checks_in(counted(plans@)) <= u32::MAX,
        plans.len() <= u32::MAX,
    ensures
        r.id@ == id@,
        opt_view(r.session_id) == crate::text::opt_str_view(session_id),
        r.triggered_at == now,
        r.items@.len() == counted(plans@).len(),
        forall|i: int| 0 <= i < r.items@.len() ==> reports(#[trigger] r.items@[i], counted(plans@)[i]),
        r.total_checks == checks_in(counted(plans@)),
        r.passed == with_status(counted(plans@), ItemStatus::Pass),
        r.expected_changes == with_status(counted(plans@), ItemStatus::ExpectedChange),
        r.potential_bugs == with_status(counted(plans@), ItemStatus::PotentialBug),
        r.passed + r.expected_changes + r.potential_bugs == r.items@.len(),
{
    let mut total_checks: u32 = 0;
    let mut passed: u32 = 0;
    let mut expected_changes: u32 = 0;
    let mut potential_bugs: u32 = 0;
    let mut items: Vec<RegressionItem> = Vec::new();
    let mut i: usize = 0;
    while i < plans.len()
        invariant
            i <= plans.len(),
            plans.len() <= u32::MAX,
            checks_in(counted(plans@)) <= u32::MAX,
            items@.len() == counted(plans@.take(i as int)).len(),
            forall|k: int| 0 <= k < items@.len() ==> reports(#[trigger] items@[k], counted(plans@.take(i as int))[k]),
            total_checks == checks_in(counted(plans@.take(i as int))),
            passed == with_status(counted(plans@.take(i as int)), ItemStatus::Pass),
            expected_changes == with_status(counted(plans@.take(i as int)), ItemStatus::ExpectedChange),
            potential_bugs == with_status(counted(plans@.take(i as int)), ItemStatus::PotentialBug),
        decreases plans.len() - i,
    {
        let ghost before = plans@.take(i as int);
        let ghost after = plans@.take(i + 1);
        proof {
            assert(after.drop_last() =~= before);
            lemma_checks_prefix(plans@, i + 1);
        }
        let p = &plans[i];
        if p.approved {
            proof {
                assert(counted(after) == counted(before).push(plans@[i as int]));
                assert(counted(after).drop_last() =~= counted(before));
                assert(checks_in(counted(after)) == checks_in(counted(before)) + plans@[i as int].checks@.len());
                lemma_counted_len(before);
                lemma_statuses_cover(counted(before));
                lemma_with_status_le(counted(before), ItemStatus::Pass);
            }
            total_checks = total_checks + p.checks.len() as u32;
            let item = classify(p);
            match item.status {
                ItemStatus::Pass => {
                    passed = passed + 1;
                },
                ItemStatus::ExpectedChange => {
                    expected_changes = expected_changes + 1;
                },
                ItemStatus::PotentialBug => {
                    potential_bugs = potential_bugs + 1;
                },
            }
            let ghost old_items = items@;
            items.push(item);
            proof {
                assert forall|k: int| 0 <= k < items@.len() implies reports(
                    #[trigger] items@[k],
                    counted(after)[k],
                ) by {
                    if k < old_items.len() {
                        assert(items@[k] == old_items[k]);
                        assert(counted(after)[k] == counted(before)[k]);
                    }
                }
            }
        } else {
            proof {
                assert(counted(after) == counted(before));
            }
        }
        i = i + 1;
    }
    proof {
        assert(plans@.take(i as int) =~= plans@);
        lemma_statuses_cover(counted(plans@));
    }
    RegressionReport {
        id: own(id),
        session_id: crate::text::own_opt(session_id),
        triggered_at: now,
        total_checks,
        passed,
        expected_changes,
        potential_bugs,
        items,
    }
}

} // verus!
