//! Side effects the browser asks for, and how their outcomes change the state.
//!
//! The outside work itself (database, editor, environment) is done by the caller; the
//! functions here take what it returned.
use vstd::prelude::*;

use crate::ac_verify::{AcVerifyAcRunResult, AcVerifyOverallStatus, VerifySpecRunResult};
use crate::models::{AcceptanceCriterion, Spec, SpecGraph, SpecLevel};
use crate::text::{append_decimal, append_str, decimal, owned, str_eq, string_from_chars};
use crate::tui::app::{AppState, ids_distinct, record_status, status_of};
use crate::tui::edit::Draft;
use crate::tui::tree::{headers, opt_view, preview_of, rows_view};

verus! {

/// Work the browser hands to its caller.
#[derive(Debug, Clone, PartialEq)]
pub enum Effect {
    PersistSpec(Spec),
    PersistAc(AcceptanceCriterion),
    OpenEditorForSpec(String),
    OpenEditorForAc(String),
    RefreshGraph,
    VerifyAc(String),
    VerifySpec(String),
    VerifyLevel(SpecLevel),
    VerifyAll,
}

/// Position of the first spec with id `id`.
pub open spec fn first_spec_index(specs: Seq<Spec>, id: Seq<char>) -> Option<int> {
    if exists|i: int| 0 <= i < specs.len() && (#[trigger] specs[i]).id@ == id {
        Some(
            choose|i: int|
                0 <= i < specs.len() && (#[trigger] specs[i]).id@ == id && forall|j: int|
                    0 <= j < i ==> (#[trigger] specs[j]).id@ != id,
        )
    } else {
        None
    }
}

/// Position of the first criterion with id `id`.
pub open spec fn first_ac_index(acs: Seq<AcceptanceCriterion>, id: Seq<char>) -> Option<int> {
    if exists|i: int| 0 <= i < acs.len() && (#[trigger] acs[i]).id@ == id {
        Some(
            choose|i: int|
                0 <= i < acs.len() && (#[trigger] acs[i]).id@ == id && forall|j: int|
                    0 <= j < i ==> (#[trigger] acs[j]).id@ != id,
        )
    } else {
        None
    }
}

pub(crate) fn find_spec(specs: &Vec<Spec>, id: &str) -> (r: Option<usize>)
    ensures
        match r {
            Some(i) => i < specs@.len() && first_spec_index(specs@, id@) == Some(i as int),
            None => first_spec_index(specs@, id@) is None,
        },
{
    let mut i: usize = 0;
    while i < specs.len()
        invariant
            i <= specs@.len(),
            forall|j: int| 0 <= j < i ==> (#[trigger] specs@[j]).id@ != id@,
        decreases specs@.len() - i,
    {
        if str_eq(specs[i].id.as_str(), id) {
            let ghost c = choose|c: int|
                0 <= c < specs@.len() && (#[trigger] specs@[c]).id@ == id@ && forall|j: int|
                    0 <= j < c ==> (#[trigger] specs@[j]).id@ != id@;
            assert(0 <= i < specs@.len() && specs@[i as int].id@ == id@ && forall|j: int|
                0 <= j < i ==> (#[trigger] specs@[j]).id@ != id@);
            assert(c == i) by {
                if c < i {
                    assert(specs@[c].id@ != id@);
                } else if c > i {
                    assert(specs@[i as int].id@ != id@);
                }
            }
            return Some(i);
        }
        i = i + 1;
    }
    None
}

pub(crate) fn find_ac(acs: &Vec<AcceptanceCriterion>, id: &str) -> (r: Option<usize>)
    ensures
        match r {
            Some(i) => i < acs@.len() && first_ac_index(acs@, id@) == Some(i as int),
            None => first_ac_index(acs@, id@) is None,
        },
{
    let mut i: usize = 0;
    while i < acs.len()
        invariant
            i <= acs@.len(),
            forall|j: int| 0 <= j < i ==> (#[trigger] acs@[j]).id@ != id@,
        decreases acs@.len() - i,
    {
        if str_eq(acs[i].id.as_str(), id) {
            let ghost c = choose|c: int|
                0 <= c < acs@.len() && (#[trigger] acs@[c]).id@ == id@ && forall|j: int|
                    0 <= j < c ==> (#[trigger] acs@[j]).id@ != id@;
            assert(0 <= i < acs@.len() && acs@[i as int].id@ == id@ && forall|j: int|
                0 <= j < i ==> (#[trigger] acs@[j]).id@ != id@);
            assert(c == i) by {
                if c < i {
                    assert(acs@[c].id@ != id@);
                } else if c > i {
                    assert(acs@[i as int].id@ != id@);
                }
            }
            return Some(i);
        }
        i = i + 1;
    }
    None
}

/// The graph's specs after `saved` was stored: the first spec with its id takes its status
/// and level.
pub open spec fn with_saved_spec(specs: Seq<Spec>, saved: Spec) -> Seq<Spec> {
    match first_spec_index(specs, saved.id@) {
        Some(i) => specs.update(i, Spec { status: saved.status, level: saved.level, ..specs[i] }),
        None => specs,
    }
}

/// `a` is `before` with the review mode and risk level of `saved`.
pub open spec fn takes_saved_fields(a: AcceptanceCriterion, before: AcceptanceCriterion, saved: AcceptanceCriterion) -> bool {
    &&& a.id == before.id
    &&& a.spec_id == before.spec_id
    &&& a.slug == before.slug
    &&& a.title == before.title
    &&& a.intent == before.intent
    &&& a.concerns@ == before.concerns@
    &&& a.created_at == before.created_at
    &&& a.updated_at == before.updated_at
    &&& a.review_mode == saved.review_mode
    &&& a.risk_level == saved.risk_level
}

/// The graph's criteria after `saved` was stored: the first criterion with its id takes
/// its review mode and risk level, the others stay as they were.
pub open spec fn with_saved_ac(
    before: Seq<AcceptanceCriterion>,
    after: Seq<AcceptanceCriterion>,
    saved: AcceptanceCriterion,
) -> bool {
    &&& after.len() == before.len()
    &&& forall|k: int|
        0 <= k < before.len() ==> if first_ac_index(before, saved.id@) == Some(k) {
            takes_saved_fields(#[trigger] after[k], before[k], saved)
        } else {
            after[k] == before[k]
        }
}

/// After the spec store accepted `spec`: report its status and mirror it in the graph.
pub fn apply_persisted_spec(app: &mut AppState, spec: &Spec)
    ensures
        final(app).status@ == "Status → "@ + spec.status.db_label(),
        match old(app).graph {
            None => final(app).graph is None,
            Some(g) => final(app).graph matches Some(g2) && g2.specs@ == with_saved_spec(
                g.specs@,
                *spec,
            ) && g2.acceptance_criteria == g.acceptance_criteria && g2.spec_relations
                == g.spec_relations,
        },
        *final(app) == (AppState { status: final(app).status, graph: final(app).graph, ..*old(app) }),
{
    let mut msg: Vec<char> = Vec::new();
    append_str(&mut msg, "Status → ");
    append_str(&mut msg, spec.status.as_db_str());
    app.status = string_from_chars(msg.as_slice());
    match app.graph.take() {
        Some(mut g) => {
            match find_spec(&g.specs, spec.id.as_str()) {
                Some(i) => {
                    let mut s = g.specs[i].clone();
                    s.status = spec.status;
                    s.level = spec.level;
                    g.specs.set(i, s);
                },
                None => {},
            }
            app.graph = Some(g);
        },
        None => {},
    }
}

/// After the spec store accepted `ac`: report its review mode and mirror it in the graph.
pub fn apply_persisted_ac(app: &mut AppState, ac: &AcceptanceCriterion)
    ensures
        final(app).status@ == "Review → "@ + ac.review_mode.db_label(),
        match old(app).graph {
            None => final(app).graph is None,
            Some(g) => final(app).graph matches Some(g2) && with_saved_ac(
                g.acceptance_criteria@,
                g2.acceptance_criteria@,
                *ac,
            ) && g2.specs == g.specs
                && g2.spec_relations == g.spec_relations,
        },
        *final(app) == (AppState { status: final(app).status, graph: final(app).graph, ..*old(app) }),
{
    let mut msg: Vec<char> = Vec::new();
    append_str(&mut msg, "Review → ");
    append_str(&mut msg, ac.review_mode.as_db_str());
    app.status = string_from_chars(msg.as_slice());
    match app.graph.take() {
        Some(mut g) => {
            match find_ac(&g.acceptance_criteria, ac.id.as_str()) {
                Some(i) => {
                    let mut a = g.acceptance_criteria[i].clone();
                    a.review_mode = ac.review_mode;
                    a.risk_level = ac.risk_level;
                    g.acceptance_criteria.set(i, a);
                },
                None => {},
            }
            app.graph = Some(g);
        },
        None => {},
    }
}

/// Status line after one criterion was verified.
pub open spec fn ac_summary(r: AcVerifyAcRunResult) -> Seq<char> {
    "AC "@ + r.ac_id@ + ": "@ + r.overall().label()
}

/// `AC <id>: <status>`.
pub fn verify_ac_summary(result: &AcVerifyAcRunResult) -> (r: String)
    ensures
        r@ == ac_summary(*result),
{
    let mut msg: Vec<char> = Vec::new();
    append_str(&mut msg, "AC ");
    append_str(&mut msg, result.ac_id.as_str());
    append_str(&mut msg, ": ");
    append_str(&mut msg, result.overall_status_label());
    string_from_chars(msg.as_slice())
}

/// `<n> ACs, <p> passed, <f> failed, <s> skipped, <v> no verification`.
pub open spec fn counts_text(n: nat, p: nat, f: nat, s: nat, v: nat) -> Seq<char> {
    decimal(n) + " ACs, "@ + decimal(p) + " passed, "@ + decimal(f) + " failed, "@ + decimal(s)
        + " skipped, "@ + decimal(v) + " no verification"@
}

fn append_counts(out: &mut Vec<char>, n: usize, p: usize, f: usize, s: usize, v: usize)
    ensures
        final(out)@ == old(out)@ + counts_text(n as nat, p as nat, f as nat, s as nat, v as nat),
{
    append_decimal(out, n);
    append_str(out, " ACs, ");
    append_decimal(out, p);
    append_str(out, " passed, ");
    append_decimal(out, f);
    append_str(out, " failed, ");
    append_decimal(out, s);
    append_str(out, " skipped, ");
    append_decimal(out, v);
    append_str(out, " no verification");
    assert(out@ =~= old(out)@ + counts_text(n as nat, p as nat, f as nat, s as nat, v as nat));
}

/// Status line after one spec was verified.
pub open spec fn spec_summary(label: Seq<char>, r: VerifySpecRunResult) -> Seq<char> {
    label + " "@ + r.spec_id@ + ": "@ + counts_text(
        r.acceptance_criteria as nat,
        r.passed as nat,
        r.failed as nat,
        r.skipped as nat,
        r.no_verification as nat,
    )
}

/// `<label> <spec id>: <counts>`.
pub fn verify_spec_summary(label: &str, result: &VerifySpecRunResult) -> (r: String)
    ensures
        r@ == spec_summary(label@, *result),
{
    let mut msg: Vec<char> = Vec::new();
    append_str(&mut msg, label);
    append_str(&mut msg, " ");
    append_str(&mut msg, result.spec_id.as_str());
    append_str(&mut msg, ": ");
    append_counts(
        &mut msg,
        result.acceptance_criteria,
        result.passed,
        result.failed,
        result.skipped,
        result.no_verification,
    );
    assert(msg@ =~= spec_summary(label@, *result));
    string_from_chars(msg.as_slice())
}

/// The status the last result for `id` in `results` reports, if any.
pub open spec fn reported_status(results: Seq<AcVerifyAcRunResult>, id: Seq<char>) -> Option<AcVerifyOverallStatus>
    decreases results.len(),
{
    if results.len() == 0 {
        None
    } else if results.last().ac_id@ == id {
        Some(results.last().overall())
    } else {
        reported_status(results.drop_last(), id)
    }
}

/// The status table after recording `results` in order.
pub open spec fn statuses_after(
    table: Seq<(String, AcVerifyOverallStatus)>,
    results: Seq<AcVerifyAcRunResult>,
    id: Seq<char>,
) -> Option<AcVerifyOverallStatus> {
    match reported_status(results, id) {
        Some(s) => Some(s),
        None => status_of(table, id),
    }
}

/// Records the status of every criterion in a spec report.
pub fn update_statuses_from_report(app: &mut AppState, report: &VerifySpecRunResult)
    requires
        old(app).wf(),
    ensures
        final(app).wf(),
        forall|id: Seq<char>| #[trigger] status_of(final(app).verification_statuses@, id) == statuses_after(
            old(app).verification_statuses@,
            report.ac_results@,
            id,
        ),
        *final(app) == (AppState { verification_statuses: final(app).verification_statuses, ..*old(app) }),
{
    let ghost t0 = app.verification_statuses@;
    let ghost rs = report.ac_results@;
    let mut i: usize = 0;
    while i < report.ac_results.len()
        invariant
            rs == report.ac_results@,
            i <= rs.len(),
            ids_distinct(app.verification_statuses@),
            forall|id: Seq<char>| #[trigger] status_of(app.verification_statuses@, id) == statuses_after(
                t0,
                rs.subrange(0, i as int),
                id,
            ),
            *app == (AppState { verification_statuses: app.verification_statuses, ..*old(app) }),
        decreases rs.len() - i,
    {
        let r = &report.ac_results[i];
        let st = r.overall_status();
        record_status(&mut app.verification_statuses, r.ac_id.as_str(), st);
        assert(rs.subrange(0, i + 1).drop_last() =~= rs.subrange(0, i as int));
        assert(rs.subrange(0, i + 1).last() == rs[i as int]);
        i = i + 1;
    }
    assert(rs.subrange(0, rs.len() as int) =~= rs);
}

/// After one criterion was verified: record its status and report it.
pub fn apply_verified_ac(app: &mut AppState, result: &AcVerifyAcRunResult)
    requires
        old(app).wf(),
    ensures
        final(app).wf(),
        forall|id: Seq<char>| #[trigger] status_of(final(app).verification_statuses@, id) == if id
            == result.ac_id@ {
            Some(result.overall())
        } else {
            status_of(old(app).verification_statuses@, id)
        },
        final(app).status@ == ac_summary(*result),
        *final(app) == (AppState {
            verification_statuses: final(app).verification_statuses,
            status: final(app).status,
            ..*old(app)
        }),
{
    record_status(&mut app.verification_statuses, result.ac_id.as_str(), result.overall_status());
    app.status = verify_ac_summary(result);
}

/// After one spec was verified: record its criteria's statuses and report the counts.
pub fn apply_verified_spec(app: &mut AppState, result: &VerifySpecRunResult)
    requires
        old(app).wf(),
    ensures
        final(app).wf(),
        forall|id: Seq<char>| #[trigger] status_of(final(app).verification_statuses@, id) == statuses_after(
            old(app).verification_statuses@,
            result.ac_results@,
            id,
        ),
        final(app).status@ == spec_summary("Spec"@, *result),
        *final(app) == (AppState {
            verification_statuses: final(app).verification_statuses,
            status: final(app).status,
            ..*old(app)
        }),
{
    update_statuses_from_report(app, result);
    app.status = verify_spec_summary("Spec", result);
}

/// Ids of the specs at level `l`, in graph order.
pub open spec fn level_ids(specs: Seq<Spec>, l: Option<SpecLevel>) -> Seq<Seq<char>>
    decreases specs.len(),
{
    if specs.len() == 0 {
        Seq::empty()
    } else {
        let rest = level_ids(specs.drop_last(), l);
        match l {
            Some(x) => if specs.last().level == x {
                rest.push(specs.last().id@)
            } else {
                rest
            },
            None => rest.push(specs.last().id@),
        }
    }
}

/// Views of a list of strings.
pub open spec fn texts_view(v: Seq<String>) -> Seq<Seq<char>> {
    v.map_values(|s: String| s@)
}

/// Ids of the graph's specs at `level`, or of all of them for `None`, in graph order.
pub fn spec_ids_at(graph: &SpecGraph, level: Option<SpecLevel>) -> (r: Vec<String>)
    ensures
        texts_view(r@) == level_ids(graph.specs@, level),
{
    let ghost specs = graph.specs@;
    let mut out: Vec<String> = Vec::new();
    let mut i: usize = 0;
    assert(texts_view(out@) =~= level_ids(specs.subrange(0, 0), level));
    while i < graph.specs.len()
        invariant
            specs == graph.specs@,
            i <= specs.len(),
            texts_view(out@) == level_ids(specs.subrange(0, i as int), level),
        decreases specs.len() - i,
    {
        let ghost before = out@;
        assert(specs.subrange(0, i + 1).drop_last() =~= specs.subrange(0, i as int));
        let keep = match level {
            Some(l) => graph.specs[i].level == l,
            None => true,
        };
        if keep {
            out.push(graph.specs[i].id.clone());
            assert(texts_view(out@) =~= texts_view(before).push(specs[i as int].id@));
        }
        i = i + 1;
    }
    assert(specs.subrange(0, specs.len() as int) =~= specs);
    out
}

/// Label of a level-wide verification: `<level> level`.
pub fn level_run_label(level: SpecLevel) -> (r: String)
    ensures
        r@ == level.db_label() + " level"@,
{
    let mut msg: Vec<char> = Vec::new();
    append_str(&mut msg, level.as_db_str());
    append_str(&mut msg, " level");
    string_from_chars(msg.as_slice())
}

/// Status line when a batch has no spec: `<label>: no specs to verify`.
pub fn no_specs_summary(label: &str) -> (r: String)
    ensures
        r@ == label@ + ": no specs to verify"@,
{
    let mut msg: Vec<char> = Vec::new();
    append_str(&mut msg, label);
    append_str(&mut msg, ": no specs to verify");
    string_from_chars(msg.as_slice())
}

/// Sum of one count over a list of spec reports.
pub open spec fn total(rs: Seq<VerifySpecRunResult>, field: int) -> nat
    decreases rs.len(),
{
    if rs.len() == 0 {
        0
    } else {
        total(rs.drop_last(), field) + (if field == 0 {
            rs.last().acceptance_criteria
        } else if field == 1 {
            rs.last().passed
        } else if field == 2 {
            rs.last().failed
        } else if field == 3 {
            rs.last().skipped
        } else {
            rs.last().no_verification
        }) as nat
    }
}

/// The totals fit in machine words.
pub open spec fn totals_fit(rs: Seq<VerifySpecRunResult>) -> bool {
    forall|f: int| 0 <= f < 5 ==> #[trigger] total(rs, f) <= usize::MAX
}

proof fn lemma_total_prefix(rs: Seq<VerifySpecRunResult>, i: int, f: int)
    requires
        0 <= i <= rs.len(),
    ensures
        total(rs.subrange(0, i), f) <= total(rs, f),
    decreases rs.len() - i,
{
    if i < rs.len() {
        lemma_total_prefix(rs, i + 1, f);
        assert(rs.subrange(0, i + 1).drop_last() =~= rs.subrange(0, i));
    } else {
        assert(rs.subrange(0, i) =~= rs);
    }
}

/// Status line after a batch of specs was verified: the summed counts.
pub fn verify_specs_summary(label: &str, reports: &Vec<VerifySpecRunResult>) -> (r: String)
    requires
        totals_fit(reports@),
    ensures
        r@ == label@ + ": "@ + counts_text(
            total(reports@, 0),
            total(reports@, 1),
            total(reports@, 2),
            total(reports@, 3),
            total(reports@, 4),
        ),
{
    let ghost rs = reports@;
    let mut n: usize = 0;
    let mut p: usize = 0;
    let mut f: usize = 0;
    let mut s: usize = 0;
    let mut v: usize = 0;
    let mut i: usize = 0;
    while i < reports.len()
        invariant
            rs == reports@,
            i <= rs.len(),
            totals_fit(rs),
            n == total(rs.subrange(0, i as int), 0),
            p == total(rs.subrange(0, i as int), 1),
            f == total(rs.subrange(0, i as int), 2),
            s == total(rs.subrange(0, i as int), 3),
            v == total(rs.subrange(0, i as int), 4),
        decreases rs.len() - i,
    {
        assert(rs.subrange(0, i + 1).drop_last() =~= rs.subrange(0, i as int));
        proof {
            lemma_total_prefix(rs, i + 1, 0);
            lemma_total_prefix(rs, i + 1, 1);
            lemma_total_prefix(rs, i + 1, 2);
            lemma_total_prefix(rs, i + 1, 3);
            lemma_total_prefix(rs, i + 1, 4);
            assert(total(rs, 0) <= usize::MAX);
            assert(total(rs, 1) <= usize::MAX);
            assert(total(rs, 2) <= usize::MAX);
            assert(total(rs, 3) <= usize::MAX);
            assert(total(rs, 4) <= usize::MAX);
        }
        let r = &reports[i];
        n = n + r.acceptance_criteria;
        p = p + r.passed;
        f = f + r.failed;
        s = s + r.skipped;
        v = v + r.no_verification;
        i = i + 1;
    }
    assert(rs.subrange(0, rs.len() as int) =~= rs);
    let mut msg: Vec<char> = Vec::new();
    append_str(&mut msg, label);
    append_str(&mut msg, ": ");
    append_counts(&mut msg, n, p, f, s, v);
    assert(msg@ =~= label@ + ": "@ + counts_text(n as nat, p as nat, f as nat, s as nat, v as nat));
    string_from_chars(msg.as_slice())
}


/// Text the editor opens on for a spec: the pending description of a spec draft, else the
/// stored one.
pub fn editor_initial_spec_text(app: &AppState, stored: &str) -> (r: String)
    ensures
        r@ == match app.draft {
            Some(Draft::Spec { pending_description: Some(d), .. }) => d@,
            _ => stored@,
        },
{
    match &app.draft {
        Some(Draft::Spec { pending_description: Some(d), .. }) => d.clone(),
        _ => owned(stored),
    }
}

/// Text the editor opens on for a criterion: the pending intent of a criterion draft, else
/// the stored one.
pub fn editor_initial_ac_text(app: &AppState, stored: &str) -> (r: String)
    ensures
        r@ == match app.draft {
            Some(Draft::Ac { pending_intent: Some(i), .. }) => i@,
            _ => stored@,
        },
{
    match &app.draft {
        Some(Draft::Ac { pending_intent: Some(i), .. }) => i.clone(),
        _ => owned(stored),
    }
}

/// After the editor closed on a spec description: `None` when it was cancelled, else the
/// edited text, which becomes the pending description of a spec draft.
pub fn apply_spec_editor_result(app: &mut AppState, edited: Option<String>)
    ensures
        match edited {
            None => final(app).status@ == "Edit cancelled"@ && final(app).draft == old(app).draft,
            Some(text) => match old(app).draft {
                Some(Draft::Spec { spec_id, original_status, original_level, original_description, pending_status, pending_level, .. }) => {
                    &&& final(app).draft == Some(Draft::Spec {
                        spec_id,
                        original_status,
                        original_level,
                        original_description,
                        pending_status,
                        pending_level,
                        pending_description: Some(text),
                    })
                    &&& final(app).status@ == "Description updated in draft"@
                },
                _ => final(app).draft == old(app).draft && final(app).status@ == "No active draft"@,
            },
        },
        *final(app) == (AppState { draft: final(app).draft, status: final(app).status, ..*old(app) }),
{
    match edited {
        None => {
            app.status = owned("Edit cancelled");
        },
        Some(text) => {
            match app.draft.take() {
                Some(
                    Draft::Spec {
                        spec_id,
                        original_status,
                        original_level,
                        original_description,
                        pending_status,
                        pending_level,
                        pending_description: _,
                    },
                ) => {
                    app.draft = Some(
                        Draft::Spec {
                            spec_id,
                            original_status,
                            original_level,
                            original_description,
                            pending_status,
                            pending_level,
                            pending_description: Some(text),
                        },
                    );
                    app.status = owned("Description updated in draft");
                },
                other => {
                    app.draft = other;
                    app.status = owned("No active draft");
                },
            }
        },
    }
}

/// After the editor closed on a criterion intent: `None` when it was cancelled, else the
/// edited text, which becomes the pending intent of a criterion draft.
pub fn apply_ac_editor_result(app: &mut AppState, edited: Option<String>)
    ensures
        match edited {
            None => final(app).status@ == "Edit cancelled"@ && final(app).draft == old(app).draft,
            Some(text) => match old(app).draft {
                Some(Draft::Ac { ac_id, original_review_mode, original_risk_level, original_intent, pending_review_mode, pending_risk_level, .. }) => {
                    &&& final(app).draft == Some(Draft::Ac {
                        ac_id,
                        original_review_mode,
                        original_risk_level,
                        original_intent,
                        pending_review_mode,
                        pending_risk_level,
                        pending_intent: Some(text),
                    })
                    &&& final(app).status@ == "Intent updated in draft"@
                },
                _ => final(app).draft == old(app).draft && final(app).status@ == "No active draft"@,
            },
        },
        *final(app) == (AppState { draft: final(app).draft, status: final(app).status, ..*old(app) }),
{
    match edited {
        None => {
            app.status = owned("Edit cancelled");
        },
        Some(text) => {
            match app.draft.take() {
                Some(
                    Draft::Ac {
                        ac_id,
                        original_review_mode,
                        original_risk_level,
                        original_intent,
                        pending_review_mode,
                        pending_risk_level,
                        pending_intent: _,
                    },
                ) => {
                    app.draft = Some(
                        Draft::Ac {
                            ac_id,
                            original_review_mode,
                            original_risk_level,
                            original_intent,
                            pending_review_mode,
                            pending_risk_level,
                            pending_intent: Some(text),
                        },
                    );
                    app.status = owned("Intent updated in draft");
                },
                other => {
                    app.draft = other;
                    app.status = owned("No active draft");
                },
            }
        },
    }
}

/// The environment to load: the selected one, or `dev` when the selection is out of range.
pub fn selected_env_name(app: &AppState) -> (r: String)
    ensures
        r@ == if app.selected_env < app.envs@.len() {
            app.envs@[app.selected_env as int]@
        } else {
            "dev"@
        },
{
    if app.selected_env < app.envs.len() {
        app.envs[app.selected_env].clone()
    } else {
        owned("dev")
    }
}

/// The status the last pair for `id` gives, if any.
pub open spec fn pairs_status(ps: Seq<(String, AcVerifyOverallStatus)>, id: Seq<char>) -> Option<AcVerifyOverallStatus>
    decreases ps.len(),
{
    if ps.len() == 0 {
        None
    } else if ps.last().0@ == id {
        Some(ps.last().1)
    } else {
        pairs_status(ps.drop_last(), id)
    }
}

/// After a graph was loaded for `project` in environment `env`, with the latest stored
/// status of each criterion that has one: install it, rebuild the tree, report, and show
/// the first row.
pub fn apply_loaded_graph(
    app: &mut AppState,
    project: String,
    env: &str,
    graph: SpecGraph,
    statuses: &Vec<(String, AcVerifyOverallStatus)>,
)
    ensures
        final(app).wf(),
        forall|id: Seq<char>| #[trigger] status_of(final(app).verification_statuses@, id) == pairs_status(statuses@, id),
        final(app).project_dir == Some(project),
        final(app).graph == Some(graph),
        rows_view(final(app).tree_items@) == headers(graph.specs@),
        final(app).selected_tree == 0,
        final(app).tree_scroll == 0,
        final(app).status@ == "Loaded "@ + env@ + " specs from "@ + project@,
        (opt_view(final(app).detail_spec_id), opt_view(final(app).detail_ac_id)) == preview_of(
            headers(graph.specs@),
            0,
        ),
        final(app).detail_scroll == 0,
        *final(app) == (AppState {
            verification_statuses: final(app).verification_statuses,
            project_dir: final(app).project_dir,
            graph: final(app).graph,
            tree_items: final(app).tree_items,
            selected_tree: 0,
            tree_scroll: 0,
            status: final(app).status,
            detail_spec_id: final(app).detail_spec_id,
            detail_ac_id: final(app).detail_ac_id,
            detail_scroll: 0,
            ..*old(app)
        }),
{
    app.verification_statuses.clear();
    let ghost ps = statuses@;
    let mut i: usize = 0;
    while i < statuses.len()
        invariant
            ps == statuses@,
            i <= ps.len(),
            ids_distinct(app.verification_statuses@),
            forall|id: Seq<char>| #[trigger] status_of(app.verification_statuses@, id) == pairs_status(
                ps.subrange(0, i as int),
                id,
            ),
            *app == (AppState { verification_statuses: app.verification_statuses, ..*old(app) }),
        decreases ps.len() - i,
    {
        record_status(&mut app.verification_statuses, statuses[i].0.as_str(), statuses[i].1);
        assert(ps.subrange(0, i + 1).drop_last() =~= ps.subrange(0, i as int));
        assert(ps.subrange(0, i + 1).last() == ps[i as int]);
        i = i + 1;
    }
    assert(ps.subrange(0, ps.len() as int) =~= ps);
    let mut msg: Vec<char> = Vec::new();
    append_str(&mut msg, "Loaded ");
    append_str(&mut msg, env);
    append_str(&mut msg, " specs from ");
    append_str(&mut msg, project.as_str());
    app.project_dir = Some(project);
    app.graph = Some(graph);
    app.build_tree();
    app.status = string_from_chars(msg.as_slice());
    app.update_preview();
}

/// After loading a graph failed: report why and refresh the detail pane.
pub fn apply_load_failure(app: &mut AppState, message: String)
    ensures
        final(app).status == message,
        (opt_view(final(app).detail_spec_id), opt_view(final(app).detail_ac_id)) == preview_of(
            rows_view(old(app).tree_items@),
            old(app).selected_tree as int,
        ),
        *final(app) == (AppState {
            status: message,
            detail_spec_id: final(app).detail_spec_id,
            detail_ac_id: final(app).detail_ac_id,
            detail_scroll: 0,
            ..*old(app)
        }),
{
    app.status = message;
    app.update_preview();
}

/// A storage step of the browser that can fail.
#[derive(Debug, Clone, Copy, PartialEq, Eq, Structural)]
pub enum RepoStep {
    /// Storing an edited spec or criterion.
    Update,
    /// Reading a spec for the editor.
    GetSpec,
    /// Reading a criterion for the editor.
    GetAc,
    /// Verifying one criterion.
    VerifyAc,
    /// Verifying one spec.
    VerifySpec,
}

/// What the status line says before the error text of a failed step.
pub open spec fn step_failure_prefix(step: RepoStep) -> Seq<char> {
    match step {
        RepoStep::Update => "update failed: "@,
        RepoStep::GetSpec => "get spec: "@,
        RepoStep::GetAc => "get AC: "@,
        RepoStep::VerifyAc => "verify AC failed: "@,
        RepoStep::VerifySpec => "verify spec failed: "@,
    }
}

/// The status line after `step` failed with `error`.
pub fn step_failure_status(step: RepoStep, error: &str) -> (r: String)
    ensures
        r@ == step_failure_prefix(step) + error@,
{
    let prefix = match step {
        RepoStep::Update => "update failed: ",
        RepoStep::GetSpec => "get spec: ",
        RepoStep::GetAc => "get AC: ",
        RepoStep::VerifyAc => "verify AC failed: ",
        RepoStep::VerifySpec => "verify spec failed: ",
    };
    let mut msg: Vec<char> = Vec::new();
    append_str(&mut msg, prefix);
    append_str(&mut msg, error);
    string_from_chars(msg.as_slice())
}

/// Status when the editor is asked for a spec that the store does not have.
pub const SPEC_NOT_FOUND_STATUS: &'static str = "spec not found";

/// Status when the editor is asked for a criterion that the store does not have.
pub const AC_NOT_FOUND_STATUS: &'static str = "AC not found";

/// Status when the editor's scratch file could not be written.
pub const EDITOR_WRITE_FAILED_STATUS: &'static str = "write failed";

/// Status when a level or all specs are to be verified before a graph is loaded.
pub const NO_GRAPH_STATUS: &'static str = "No spec graph loaded";

/// The status of criterion `id` after the reports of `reports` were recorded in turn
/// (a later report wins).
pub open spec fn status_after_reports(
    table: Seq<(String, AcVerifyOverallStatus)>,
    reports: Seq<VerifySpecRunResult>,
    id: Seq<char>,
) -> Option<AcVerifyOverallStatus>
    decreases reports.len(),
{
    if reports.len() == 0 {
        status_of(table, id)
    } else {
        match reported_status(reports.last().ac_results@, id) {
            Some(s) => Some(s),
            None => status_after_reports(table, reports.drop_last(), id),
        }
    }
}

/// Applies the outcome of verifying a batch of specs (`label` names the batch): on an error
/// (the caller stops at the first failing spec) only the status line changes, to the
/// error; otherwise every report's statuses are recorded, in order, and the status line
/// gives the summed counts.
pub fn apply_verify_specs_outcome(app: &mut AppState, label: &str, outcome: &Result<Vec<VerifySpecRunResult>, String>)
    requires
        old(app).wf(),
        outcome matches Ok(rs) ==> totals_fit(rs@),
    ensures
        final(app).wf(),
        match outcome {
            Err(e) => *final(app) == (AppState { status: final(app).status, ..*old(app) })
                && final(app).status@ == "verify "@ + label@ + " failed: "@ + e@,
            Ok(rs) => {
                &&& *final(app) == (AppState {
                    status: final(app).status,
                    verification_statuses: final(app).verification_statuses,
                    ..*old(app)
                })
                &&& forall|id: Seq<char>| #[trigger] status_of(final(app).verification_statuses@, id)
                    == status_after_reports(old(app).verification_statuses@, rs@, id)
                &&& final(app).status@ == label@ + ": "@ + counts_text(
                    total(rs@, 0),
                    total(rs@, 1),
                    total(rs@, 2),
                    total(rs@, 3),
                    total(rs@, 4),
                )
            },
        },
{
    match outcome {
        Err(e) => {
            let mut msg: Vec<char> = Vec::new();
            append_str(&mut msg, "verify ");
            append_str(&mut msg, label);
            append_str(&mut msg, " failed: ");
            append_str(&mut msg, e.as_str());
            app.status = string_from_chars(msg.as_slice());
        },
        Ok(reports) => {
            let ghost t0 = app.verification_statuses@;
            let ghost rs = reports@;
            let ghost start = *app;
            let mut i: usize = 0;
            assert(rs.subrange(0, 0) =~= Seq::<VerifySpecRunResult>::empty());
            while i < reports.len()
                invariant
                    rs == reports@,
                    i <= rs.len(),
                    app.wf(),
                    forall|id: Seq<char>| #[trigger] status_of(app.verification_statuses@, id)
                        == status_after_reports(t0, rs.subrange(0, i as int), id),
                    *app == (AppState { verification_statuses: app.verification_statuses, ..start }),
                decreases rs.len() - i,
            {
                let ghost before = app.verification_statuses@;
                update_statuses_from_report(app, &reports[i]);
                proof {
                    assert(rs.subrange(0, i + 1).drop_last() =~= rs.subrange(0, i as int));
                    assert(rs.subrange(0, i + 1).last() == rs[i as int]);
                    assert forall|id: Seq<char>| #[trigger] status_of(app.verification_statuses@, id)
                        == status_after_reports(t0, rs.subrange(0, i + 1), id) by {
                        assert(status_of(app.verification_statuses@, id) == statuses_after(
                            before,
                            rs[i as int].ac_results@,
                            id,
                        ));
                    }
                }
                i = i + 1;
            }
            assert(rs.subrange(0, rs.len() as int) =~= rs);
            app.status = verify_specs_summary(label, reports);
        },
    }
}

} // verus!
