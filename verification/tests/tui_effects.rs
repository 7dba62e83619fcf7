use coherence_core_db::ac_verify::{AcVerifyAcRunResult, AcVerifyLinkRunRecord, AcVerifyLinkStatus, AcVerifyOverallStatus, VerifySpecRunResult};
use coherence_core_db::tui::app::{lookup_status, AppState};
use coherence_core_db::tui::effects::{apply_verify_specs_outcome, step_failure_status, RepoStep};

fn passed_ac(id: &str) -> AcVerifyAcRunResult {
    AcVerifyAcRunResult {
        ac_id: id.into(),
        no_verification_links: false,
        links: vec![AcVerifyLinkRunRecord {
            ac_id: id.into(),
            code_location_id: "L".into(),
            command: "true".into(),
            status: AcVerifyLinkStatus::Passed,
            output_summary: String::new(),
            captured_output: String::new(),
        }],
    }
}

fn spec_report(id: &str, acs: Vec<AcVerifyAcRunResult>) -> VerifySpecRunResult {
    VerifySpecRunResult {
        spec_id: id.into(),
        acceptance_criteria: acs.len(),
        passed: acs.len(),
        failed: 0,
        skipped: 0,
        no_verification: 0,
        ac_results: acs,
    }
}

#[test]
fn batch_outcome_records_every_report_and_sums_counts() {
    let mut app = AppState::new(vec![]);
    let outcome = Ok(vec![spec_report("S1", vec![passed_ac("A1")]), spec_report("S2", vec![passed_ac("A2"), passed_ac("A3")])]);
    apply_verify_specs_outcome(&mut app, "All specs", &outcome);
    assert_eq!(app.status, "All specs: 3 ACs, 3 passed, 0 failed, 0 skipped, 0 no verification");
    assert_eq!(lookup_status(&app.verification_statuses, "A3"), Some(AcVerifyOverallStatus::Passed));
}

#[test]
fn batch_failure_only_reports_the_error() {
    let mut app = AppState::new(vec![]);
    let outcome: Result<Vec<VerifySpecRunResult>, String> = Err("db down".into());
    apply_verify_specs_outcome(&mut app, "Module specs", &outcome);
    assert_eq!(app.status, "verify Module specs failed: db down");
    assert_eq!(lookup_status(&app.verification_statuses, "A1"), None);
}

#[test]
fn step_failures_are_prefixed_by_step() {
    assert_eq!(step_failure_status(RepoStep::Update, "x"), "update failed: x");
    assert_eq!(step_failure_status(RepoStep::GetSpec, "x"), "get spec: x");
    assert_eq!(step_failure_status(RepoStep::GetAc, "x"), "get AC: x");
    assert_eq!(step_failure_status(RepoStep::VerifyAc, "x"), "verify AC failed: x");
    assert_eq!(step_failure_status(RepoStep::VerifySpec, "x"), "verify spec failed: x");
}
