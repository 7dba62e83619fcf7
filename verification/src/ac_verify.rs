//! Verification outcomes for acceptance criteria linked to test commands through `verified_by`
//! codeintel links: per-link records, per-criterion roll-ups and per-spec counts.
//!
//! Running the shell commands is done by the caller; this module decides which links run, how a
//! finished run is recorded, and how results aggregate.
use vstd::prelude::*;

use crate::models::{AcCodeLinkWithLocation, AcCodeRelationKind, CodeLocation};
use crate::text::{chars_of, owned, string_from_chars, trim_chars, trim_seq};

verus! {

/// Maximum characters retained for per-link output summaries.
pub const OUTPUT_SUMMARY_MAX_CHARS: usize = 240;

/// Outcome for one verified-by link.
#[derive(Debug, PartialEq, Eq)]
pub enum AcVerifyLinkStatus {
    Passed,
    Failed { exit_code: i32 },
    Skipped { reason: String },
}

impl Clone for AcVerifyLinkStatus {
    fn clone(&self) -> (r: Self)
        ensures
            r == *self,
    {
        match self {
            AcVerifyLinkStatus::Passed => AcVerifyLinkStatus::Passed,
            AcVerifyLinkStatus::Failed { exit_code } => AcVerifyLinkStatus::Failed {
                exit_code: *exit_code,
            },
            AcVerifyLinkStatus::Skipped { reason } => AcVerifyLinkStatus::Skipped {
                reason: reason.clone(),
            },
        }
    }
}

/// One evaluated link: AC id, code location id, command, status, short and captured output.
#[derive(Debug, Clone, PartialEq, Eq)]
pub struct AcVerifyLinkRunRecord {
    pub ac_id: String,
    pub code_location_id: String,
    pub command: String,
    pub status: AcVerifyLinkStatus,
    pub output_summary: String,
    /// Merged stdout/stderr (capped); empty when no command ran.
    pub captured_output: String,
}

/// Per-AC aggregate status.
#[derive(Debug, Clone, Copy, PartialEq, Eq, Structural)]
pub enum AcVerifyOverallStatus {
    NoVerification,
    Failed,
    Passed,
    Skipped,
}

impl AcVerifyOverallStatus {
    /// The status text.
    pub open spec fn label(self) -> Seq<char> {
        match self {
            AcVerifyOverallStatus::NoVerification => "no_verification"@,
            AcVerifyOverallStatus::Failed => "failed"@,
            AcVerifyOverallStatus::Passed => "passed"@,
            AcVerifyOverallStatus::Skipped => "skipped"@,
        }
    }

    /// The status whose text is `s`, if any.
    pub open spec fn from_label(s: Seq<char>) -> Option<Self> {
        if s == "no_verification"@ {
            Some(AcVerifyOverallStatus::NoVerification)
        } else if s == "failed"@ {
            Some(AcVerifyOverallStatus::Failed)
        } else if s == "passed"@ {
            Some(AcVerifyOverallStatus::Passed)
        } else if s == "skipped"@ {
            Some(AcVerifyOverallStatus::Skipped)
        } else {
            None
        }
    }

    pub fn as_label(&self) -> (r: &'static str)
        ensures
            r@ == self.label(),
    {
        match self {
            AcVerifyOverallStatus::NoVerification => "no_verification",
            AcVerifyOverallStatus::Failed => "failed",
            AcVerifyOverallStatus::Passed => "passed",
            AcVerifyOverallStatus::Skipped => "skipped",
        }
    }
}

/// Reading back a status label gives the same status, and only its label reads back as it.
pub proof fn lemma_overall_status_label_round_trip(x: AcVerifyOverallStatus, s: Seq<char>)
    ensures
        AcVerifyOverallStatus::from_label(x.label()) == Some(x),
        AcVerifyOverallStatus::from_label(s) == Some(x) ==> s == x.label(),
{
    reveal_strlit("no_verification");
    reveal_strlit("failed");
    reveal_strlit("passed");
    reveal_strlit("skipped");
    assert("no_verification"@[0] != "failed"@[0]);
    assert("no_verification"@[0] != "passed"@[0]);
    assert("no_verification"@[0] != "skipped"@[0]);
    assert("failed"@[0] != "passed"@[0]);
    assert("failed"@[0] != "skipped"@[0]);
    assert("passed"@[0] != "skipped"@[0]);
}

/// Some link of `links` failed.
pub open spec fn has_failed_link(links: Seq<AcVerifyLinkRunRecord>) -> bool {
    exists|i: int| 0 <= i < links.len() && (#[trigger] links[i]).status is Failed
}

/// Some link of `links` passed.
pub open spec fn has_passed_link(links: Seq<AcVerifyLinkRunRecord>) -> bool {
    exists|i: int| 0 <= i < links.len() && (#[trigger] links[i]).status is Passed
}

/// Roll-up: no links at all, else failed over passed over skipped.
pub open spec fn overall_status_spec(no_links: bool, links: Seq<AcVerifyLinkRunRecord>) -> AcVerifyOverallStatus {
    if no_links {
        AcVerifyOverallStatus::NoVerification
    } else if has_failed_link(links) {
        AcVerifyOverallStatus::Failed
    } else if has_passed_link(links) {
        AcVerifyOverallStatus::Passed
    } else {
        AcVerifyOverallStatus::Skipped
    }
}

/// How a criterion's links roll up, said link by link: no verification links at all gives
/// `NoVerification`; otherwise one failed link gives `Failed`; otherwise one passed link
/// gives `Passed`, whatever the other links are; only when every link was skipped (or
/// there is none) is the result `Skipped`.
pub proof fn lemma_rollup_by_link(no_links: bool, links: Seq<AcVerifyLinkRunRecord>)
    ensures
        no_links ==> overall_status_spec(no_links, links) == AcVerifyOverallStatus::NoVerification,
        !no_links && (exists|i: int| 0 <= i < links.len() && (#[trigger] links[i]).status is Failed)
            ==> overall_status_spec(no_links, links) == AcVerifyOverallStatus::Failed,
        !no_links && (forall|i: int| 0 <= i < links.len() ==> !((#[trigger] links[i]).status is Failed))
            && (exists|i: int| 0 <= i < links.len() && (#[trigger] links[i]).status is Passed)
            ==> overall_status_spec(no_links, links) == AcVerifyOverallStatus::Passed,
        !no_links && (forall|i: int| 0 <= i < links.len() ==> (#[trigger] links[i]).status is Skipped)
            ==> overall_status_spec(no_links, links) == AcVerifyOverallStatus::Skipped,
{
    if !no_links && (forall|i: int| 0 <= i < links.len() ==> (#[trigger] links[i]).status is Skipped) {
        assert(!has_failed_link(links));
        assert(!has_passed_link(links));
    }
}

/// A skipped link never changes a criterion's roll-up: adding one to the links gives the
/// same status as before.
pub proof fn lemma_skipped_link_changes_nothing(no_links: bool, links: Seq<AcVerifyLinkRunRecord>, extra: AcVerifyLinkRunRecord)
    requires
        extra.status is Skipped,
    ensures
        overall_status_spec(no_links, links.push(extra)) == overall_status_spec(no_links, links),
{
    let l2 = links.push(extra);
    assert forall|i: int| 0 <= i < links.len() implies #[trigger] l2[i] == links[i] by {}
    if has_failed_link(l2) {
        let i = choose|i: int| 0 <= i < l2.len() && (#[trigger] l2[i]).status is Failed;
        assert(links[i].status is Failed);
    }
    if has_failed_link(links) {
        let i = choose|i: int| 0 <= i < links.len() && (#[trigger] links[i]).status is Failed;
        assert(l2[i].status is Failed);
    }
    if has_passed_link(l2) {
        let i = choose|i: int| 0 <= i < l2.len() && (#[trigger] l2[i]).status is Passed;
        assert(links[i].status is Passed);
    }
    if has_passed_link(links) {
        let i = choose|i: int| 0 <= i < links.len() && (#[trigger] links[i]).status is Passed;
        assert(l2[i].status is Passed);
    }
}

/// Aggregate result for verifying a single AC.
#[derive(Debug, Clone, PartialEq, Eq)]
pub struct AcVerifyAcRunResult {
    pub ac_id: String,
    /// True when this AC has no `verified_by` rows at all (distinct from “all skipped”).
    pub no_verification_links: bool,
    pub links: Vec<AcVerifyLinkRunRecord>,
}

impl AcVerifyAcRunResult {
    /// The roll-up status of this result.
    pub open spec fn overall(&self) -> AcVerifyOverallStatus {
        overall_status_spec(self.no_verification_links, self.links@)
    }

    /// The CLI exit code of this result: 1 when some command failed.
    pub open spec fn exit_code_spec(&self) -> i32 {
        if has_failed_link(self.links@) {
            1
        } else {
            0
        }
    }

    fn any_failed(&self) -> (r: bool)
        ensures
            r == has_failed_link(self.links@),
    {
        let mut i: usize = 0;
        while i < self.links.len()
            invariant
                i <= self.links@.len(),
                forall|j: int| 0 <= j < i ==> (#[trigger] self.links@[j]).status !is Failed,
            decreases self.links@.len() - i,
        {
            if let AcVerifyLinkStatus::Failed { .. } = self.links[i].status {
                return true;
            }
            i = i + 1;
        }
        false
    }

    fn any_passed(&self) -> (r: bool)
        ensures
            r == has_passed_link(self.links@),
    {
        let mut i: usize = 0;
        while i < self.links.len()
            invariant
                i <= self.links@.len(),
                forall|j: int| 0 <= j < i ==> (#[trigger] self.links@[j]).status !is Passed,
            decreases self.links@.len() - i,
        {
            if let AcVerifyLinkStatus::Passed = self.links[i].status {
                return true;
            }
            i = i + 1;
        }
        false
    }

    /// Exit code for the CLI: nonzero iff any executed command failed.
    pub fn exit_code(&self) -> (r: i32)
        ensures
            r == self.exit_code_spec(),
    {
        if self.any_failed() {
            1
        } else {
            0
        }
    }

    /// Per-AC roll-up for reporting and spec-level counts.
    pub fn overall_status(&self) -> (r: AcVerifyOverallStatus)
        ensures
            r == self.overall(),
    {
        let has_failed = self.any_failed();
        let has_passed = self.any_passed();
        if self.no_verification_links {
            AcVerifyOverallStatus::NoVerification
        } else if has_failed {
            AcVerifyOverallStatus::Failed
        } else if has_passed {
            AcVerifyOverallStatus::Passed
        } else {
            AcVerifyOverallStatus::Skipped
        }
    }

    pub fn overall_status_label(&self) -> (r: &'static str)
        ensures
            r@ == self.overall().label(),
    {
        self.overall_status().as_label()
    }
}

/// Number of results in `rs` whose roll-up is `st`.
pub open spec fn count_status(rs: Seq<AcVerifyAcRunResult>, st: AcVerifyOverallStatus) -> nat
    decreases rs.len(),
{
    if rs.len() == 0 {
        0
    } else {
        count_status(rs.drop_last(), st) + if rs.last().overall() == st {
            1nat
        } else {
            0nat
        }
    }
}

/// The four status counts of a sequence of results add up to its length.
pub proof fn lemma_status_counts_partition(rs: Seq<AcVerifyAcRunResult>)
    ensures
        count_status(rs, AcVerifyOverallStatus::Passed) + count_status(
            rs,
            AcVerifyOverallStatus::Failed,
        ) + count_status(rs, AcVerifyOverallStatus::Skipped) + count_status(
            rs,
            AcVerifyOverallStatus::NoVerification,
        ) == rs.len(),
    decreases rs.len(),
{
    if rs.len() > 0 {
        lemma_status_counts_partition(rs.drop_last());
    }
}

/// The largest exit code among `rs`, 0 when empty.
pub open spec fn max_exit_code(rs: Seq<AcVerifyAcRunResult>) -> i32
    decreases rs.len(),
{
    if rs.len() == 0 {
        0
    } else {
        let m = max_exit_code(rs.drop_last());
        let e = rs.last().exit_code_spec();
        if e > m {
            e
        } else {
            m
        }
    }
}

/// Aggregate over one spec’s acceptance criteria.
#[derive(Debug, Clone, PartialEq, Eq)]
pub struct VerifySpecRunResult {
    pub spec_id: String,
    pub acceptance_criteria: usize,
    pub passed: usize,
    pub failed: usize,
    pub skipped: usize,
    pub no_verification: usize,
    pub ac_results: Vec<AcVerifyAcRunResult>,
}

impl VerifySpecRunResult {
    /// The counts match the per-AC results they summarize.
    pub open spec fn is_consistent(&self) -> bool {
        &&& self.acceptance_criteria == self.ac_results@.len()
        &&& self.passed == count_status(self.ac_results@, AcVerifyOverallStatus::Passed)
        &&& self.failed == count_status(self.ac_results@, AcVerifyOverallStatus::Failed)
        &&& self.skipped == count_status(self.ac_results@, AcVerifyOverallStatus::Skipped)
        &&& self.no_verification == count_status(
            self.ac_results@,
            AcVerifyOverallStatus::NoVerification,
        )
    }

    /// Largest per-AC exit code (0 for no ACs).
    pub fn exit_code(&self) -> (r: i32)
        ensures
            r == max_exit_code(self.ac_results@),
    {
        let mut m: i32 = 0;
        let mut i: usize = 0;
        while i < self.ac_results.len()
            invariant
                i <= self.ac_results@.len(),
                m == max_exit_code(self.ac_results@.subrange(0, i as int)),
            decreases self.ac_results@.len() - i,
        {
            let e = self.ac_results[i].exit_code();
            proof {
                assert(self.ac_results@.subrange(0, i + 1).drop_last() =~= self.ac_results@.subrange(
                    0,
                    i as int,
                ));
            }
            if e > m {
                m = e;
            }
            i = i + 1;
        }
        assert(self.ac_results@.subrange(0, self.ac_results@.len() as int) =~= self.ac_results@);
        m
    }
}

/// A spec's exit code is 1 exactly when some command of some of its ACs failed.
pub proof fn lemma_spec_exit_code_is_any_failure(rs: Seq<AcVerifyAcRunResult>)
    ensures
        max_exit_code(rs) == 1 <==> exists|i: int|
            0 <= i < rs.len() && has_failed_link((#[trigger] rs[i]).links@),
        max_exit_code(rs) == 0 || max_exit_code(rs) == 1,
    decreases rs.len(),
{
    if rs.len() > 0 {
        let p = rs.drop_last();
        lemma_spec_exit_code_is_any_failure(p);
        if exists|i: int| 0 <= i < p.len() && has_failed_link((#[trigger] p[i]).links@) {
            let i = choose|i: int| 0 <= i < p.len() && has_failed_link((#[trigger] p[i]).links@);
            assert(rs[i] == p[i]);
        }
        if exists|i: int| 0 <= i < rs.len() && has_failed_link((#[trigger] rs[i]).links@) {
            let i = choose|i: int| 0 <= i < rs.len() && has_failed_link((#[trigger] rs[i]).links@);
            if i < rs.len() - 1 {
                assert(p[i] == rs[i]);
            }
        }
    }
}

/// Counts of `(passed, failed, skipped, no_verification)` roll-ups.
fn count_overall_statuses(ac_results: &[AcVerifyAcRunResult]) -> (r: (usize, usize, usize, usize))
    ensures
        r.0 == count_status(ac_results@, AcVerifyOverallStatus::Passed),
        r.1 == count_status(ac_results@, AcVerifyOverallStatus::Failed),
        r.2 == count_status(ac_results@, AcVerifyOverallStatus::Skipped),
        r.3 == count_status(ac_results@, AcVerifyOverallStatus::NoVerification),
{
    let mut passed: usize = 0;
    let mut failed: usize = 0;
    let mut skipped: usize = 0;
    let mut no_verification: usize = 0;
    let mut i: usize = 0;
    while i < ac_results.len()
        invariant
            i <= ac_results@.len(),
            passed == count_status(ac_results@.subrange(0, i as int), AcVerifyOverallStatus::Passed),
            failed == count_status(ac_results@.subrange(0, i as int), AcVerifyOverallStatus::Failed),
            skipped == count_status(
                ac_results@.subrange(0, i as int),
                AcVerifyOverallStatus::Skipped,
            ),
            no_verification == count_status(
                ac_results@.subrange(0, i as int),
                AcVerifyOverallStatus::NoVerification,
            ),
        decreases ac_results@.len() - i,
    {
        let ghost p = ac_results@.subrange(0, i + 1);
        proof {
            assert(p.drop_last() =~= ac_results@.subrange(0, i as int));
            lemma_status_counts_partition(ac_results@.subrange(0, i as int));
        }
        match ac_results[i].overall_status() {
            AcVerifyOverallStatus::Passed => passed = passed + 1,
            AcVerifyOverallStatus::Failed => failed = failed + 1,
            AcVerifyOverallStatus::Skipped => skipped = skipped + 1,
            AcVerifyOverallStatus::NoVerification => no_verification = no_verification + 1,
        }
        i = i + 1;
    }
    assert(ac_results@.subrange(0, ac_results@.len() as int) =~= ac_results@);
    (passed, failed, skipped, no_verification)
}

/// The spec-level report over per-AC results (in the order given).
pub fn spec_run_result(spec_id: &str, ac_results: Vec<AcVerifyAcRunResult>) -> (r: VerifySpecRunResult)
    ensures
        r.spec_id@ == spec_id@,
        r.ac_results@ == ac_results@,
        r.is_consistent(),
{
    let (passed, failed, skipped, no_verification) = count_overall_statuses(ac_results.as_slice());
    VerifySpecRunResult {
        spec_id: owned(spec_id),
        acceptance_criteria: ac_results.len(),
        passed,
        failed,
        skipped,
        no_verification,
        ac_results,
    }
}

// ---------------------------------------------------------------------------------------------
// Link evaluation
// ---------------------------------------------------------------------------------------------

/// What to do for one `verified_by` link: record a skip, or run a command.
#[derive(Debug, PartialEq, Eq)]
pub enum LinkPlan {
    Skip(AcVerifyLinkRunRecord),
    Run { code_location_id: String, command: String },
}

/// The trimmed test command of a location, when it has a non-blank one.
pub open spec fn runnable_command(loc: CodeLocation) -> Option<Seq<char>> {
    match loc.test_command {
        Some(c) => if trim_seq(c@).len() > 0 {
            Some(trim_seq(c@))
        } else {
            None
        },
        None => None,
    }
}

/// Decides how a `verified_by` link is evaluated: test files and test commands run their trimmed
/// `test_command`; a location without a non-blank command is recorded as skipped.
pub fn plan_verified_link(ac_id: &str, row: &AcCodeLinkWithLocation) -> (r: LinkPlan)
    ensures
        match runnable_command(row.location) {
            Some(c) => r matches LinkPlan::Run { code_location_id, command } && code_location_id@
                == row.location.id@ && command@ == c,
            None => r matches LinkPlan::Skip(rec) && rec.ac_id@ == ac_id@ && rec.code_location_id@
                == row.location.id@ && rec.command@.len() == 0 && rec.status is Skipped
                && rec.output_summary@.len() == 0 && rec.captured_output@.len() == 0,
        },
{
    let loc = &row.location;
    let code_location_id = loc.id.clone();
    match &loc.test_command {
        Some(c) => {
            let t = trim_chars(c.as_str());
            if t.len() > 0 {
                return LinkPlan::Run { code_location_id, command: string_from_chars(t.as_slice()) };
            }
        },
        None => {},
    }
    LinkPlan::Skip(
        AcVerifyLinkRunRecord {
            ac_id: owned(ac_id),
            code_location_id,
            command: String::new(),
            status: AcVerifyLinkStatus::Skipped {
                reason: owned("missing test_command on code location"),
            },
            output_summary: String::new(),
            captured_output: String::new(),
        },
    )
}

/// Records a finished command: exit code 0 passes, any other fails with that code.
pub fn record_link_run(
    ac_id: &str,
    code_location_id: String,
    command: String,
    exit_code: i32,
    output_summary: String,
    captured_output: String,
) -> (r: AcVerifyLinkRunRecord)
    ensures
        r.ac_id@ == ac_id@,
        r.code_location_id == code_location_id,
        r.command == command,
        r.output_summary == output_summary,
        r.captured_output == captured_output,
        exit_code == 0 ==> r.status is Passed,
        exit_code != 0 ==> r.status == (AcVerifyLinkStatus::Failed { exit_code }),
{
    let status = if exit_code == 0 {
        AcVerifyLinkStatus::Passed
    } else {
        AcVerifyLinkStatus::Failed { exit_code }
    };
    AcVerifyLinkRunRecord {
        ac_id: owned(ac_id),
        code_location_id,
        command,
        status,
        output_summary,
        captured_output,
    }
}

/// The `verified_by` rows among `rows`, in order.
pub open spec fn verified_by_rows(rows: Seq<AcCodeLinkWithLocation>) -> Seq<AcCodeLinkWithLocation> {
    rows.filter(|r: AcCodeLinkWithLocation| r.link.relation_kind == AcCodeRelationKind::VerifiedBy)
}

/// Plans for the `verified_by` links of `rows`, in order; links of other kinds are ignored.
pub fn plan_verified_links(ac_id: &str, rows: &[AcCodeLinkWithLocation]) -> (r: Vec<LinkPlan>)
    ensures
        r@.len() == verified_by_rows(rows@).len(),
        forall|i: int|
            0 <= i < r@.len() ==> match runnable_command(verified_by_rows(rows@)[i].location) {
                Some(c) => (#[trigger] r@[i]) matches LinkPlan::Run { code_location_id, command }
                    && code_location_id@ == verified_by_rows(rows@)[i].location.id@ && command@
                    == c,
                None => r@[i] matches LinkPlan::Skip(rec) && rec.ac_id@ == ac_id@
                    && rec.code_location_id@ == verified_by_rows(rows@)[i].location.id@
                    && rec.status is Skipped,
            },
{
    let mut out: Vec<LinkPlan> = Vec::new();
    let mut i: usize = 0;
    while i < rows.len()
        invariant
            i <= rows@.len(),
            out@.len() == verified_by_rows(rows@.subrange(0, i as int)).len(),
            forall|k: int|
                0 <= k < out@.len() ==> match runnable_command(
                    verified_by_rows(rows@.subrange(0, i as int))[k].location,
                ) {
                    Some(c) => (#[trigger] out@[k]) matches LinkPlan::Run {
                        code_location_id,
                        command,
                    } && code_location_id@ == verified_by_rows(rows@.subrange(0, i as int))[k].location.id@
                        && command@ == c,
                    None => out@[k] matches LinkPlan::Skip(rec) && rec.ac_id@ == ac_id@
                        && rec.code_location_id@ == verified_by_rows(
                        rows@.subrange(0, i as int),
                    )[k].location.id@ && rec.status is Skipped,
                },
        decreases rows@.len() - i,
    {
        let ghost prev = rows@.subrange(0, i as int);
        let ghost next = rows@.subrange(0, i + 1);
        proof {
            assert(next.drop_last() =~= prev);
            reveal(Seq::filter);
        }
        if rows[i].link.relation_kind == AcCodeRelationKind::VerifiedBy {
            let p = plan_verified_link(ac_id, &rows[i]);
            out.push(p);
            proof {
                assert(verified_by_rows(next) == verified_by_rows(prev).push(rows@[i as int]));
            }
        } else {
            proof {
                assert(verified_by_rows(next) == verified_by_rows(prev));
            }
        }
        i = i + 1;
    }
    assert(rows@.subrange(0, rows@.len() as int) =~= rows@);
    out
}

/// The per-AC result for `ac_id`: `no_verification_links` when `rows` holds no `verified_by`
/// link, with the given link records.
pub fn ac_run_result(ac_id: &str, rows: &[AcCodeLinkWithLocation], links: Vec<AcVerifyLinkRunRecord>) -> (r: AcVerifyAcRunResult)
    ensures
        r.ac_id@ == ac_id@,
        r.no_verification_links == (verified_by_rows(rows@).len() == 0),
        r.links@ == links@,
{
    let mut any = false;
    let mut i: usize = 0;
    while i < rows.len()
        invariant
            i <= rows@.len(),
            any == (verified_by_rows(rows@.subrange(0, i as int)).len() > 0),
        decreases rows@.len() - i,
    {
        let ghost prev = rows@.subrange(0, i as int);
        let ghost next = rows@.subrange(0, i + 1);
        proof {
            assert(next.drop_last() =~= prev);
            reveal(Seq::filter);
        }
        if rows[i].link.relation_kind == AcCodeRelationKind::VerifiedBy {
            any = true;
        }
        i = i + 1;
    }
    assert(rows@.subrange(0, rows@.len() as int) =~= rows@);
    AcVerifyAcRunResult { ac_id: owned(ac_id), no_verification_links: !any, links }
}

/// One-line summary of command output: newlines become spaces, surrounding white space is
/// trimmed, and text longer than 240 characters is cut there with `…` appended.
pub open spec fn summarize_spec(raw: Seq<char>) -> Seq<char> {
    let flat = trim_seq(
        raw.map_values(
            |c: char|
                if c == '\n' {
                    ' '
                } else {
                    c
                },
        ),
    );
    if flat.len() <= OUTPUT_SUMMARY_MAX_CHARS {
        flat
    } else {
        flat.take(OUTPUT_SUMMARY_MAX_CHARS as int).push('…')
    }
}

/// One-line summary of command output (see [`summarize_spec`]).
pub fn summarize_output(raw: &str) -> (r: String)
    ensures
        r@ == summarize_spec(raw@),
{
    let v = chars_of(raw);
    let mut flat: Vec<char> = Vec::new();
    let mut i: usize = 0;
    while i < v.len()
        invariant
            v@ == raw@,
            i <= v@.len(),
            flat@ == v@.subrange(0, i as int).map_values(
                |c: char|
                    if c == '\n' {
                        ' '
                    } else {
                        c
                    },
            ),
        decreases v@.len() - i,
    {
        let c = v[i];
        flat.push(
            if c == '\n' {
                ' '
            } else {
                c
            },
        );
        proof {
            assert(v@.subrange(0, i + 1).map_values(
                |c: char|
                    if c == '\n' {
                        ' '
                    } else {
                        c
                    },
            ) =~= v@.subrange(0, i as int).map_values(
                |c: char|
                    if c == '\n' {
                        ' '
                    } else {
                        c
                    },
            ).push(
                if c == '\n' {
                    ' '
                } else {
                    c
                },
            ));
        }
        i = i + 1;
    }
    assert(v@.subrange(0, v@.len() as int) =~= v@);
    let flat_s = string_from_chars(flat.as_slice());
    let t = trim_chars(flat_s.as_str());
    if t.len() <= OUTPUT_SUMMARY_MAX_CHARS {
        string_from_chars(t.as_slice())
    } else {
        let mut out: Vec<char> = Vec::new();
        let mut k: usize = 0;
        while k < OUTPUT_SUMMARY_MAX_CHARS
            invariant
                t@.len() > OUTPUT_SUMMARY_MAX_CHARS,
                k <= OUTPUT_SUMMARY_MAX_CHARS,
                out@ == t@.take(k as int),
            decreases OUTPUT_SUMMARY_MAX_CHARS - k,
        {
            out.push(t[k]);
            assert(t@.take(k + 1) =~= t@.take(k as int).push(t@[k as int]));
            k = k + 1;
        }
        out.push('…');
        string_from_chars(out.as_slice())
    }
}

} // verus!
