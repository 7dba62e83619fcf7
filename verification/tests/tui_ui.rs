use coherence_core_db::ac_verify::AcVerifyOverallStatus;
use coherence_core_db::tui::app::AppState;
use coherence_core_db::tui::ui::{title_text, tree_title, verification_description, verification_marker};

#[test]
fn verification_marker_distinguishes_all_ac_states() {
    assert_eq!(verification_marker(Some(AcVerifyOverallStatus::Passed)), "[+]");
    assert_eq!(verification_marker(Some(AcVerifyOverallStatus::Failed)), "[!]");
    assert_eq!(verification_marker(Some(AcVerifyOverallStatus::Skipped)), "[?]");
    assert_eq!(verification_marker(Some(AcVerifyOverallStatus::NoVerification)), "[-]");
    assert_eq!(verification_marker(None), "[ ]");
}

#[test]
fn verification_description_explains_not_run_and_missing_links() {
    assert!(verification_description(None).contains("never run"));
    assert!(verification_description(Some(AcVerifyOverallStatus::NoVerification)).contains("no verified_by"));
    assert!(verification_description(Some(AcVerifyOverallStatus::Skipped)).contains("missing/skipped"));
}

#[test]
fn title_and_tree_title_texts() {
    let app = AppState::new(vec![]);
    assert_eq!(title_text(&app), " Coherence Spec Browser   [↑↓] nav  [Enter] select  [q] quit");
    assert_eq!(tree_title(" Specs ", &app, 5), " Specs ");
}

use coherence_core_db::models::{
    AcceptanceCriterion, ConcernKind, ReviewMode, RiskLevel, Spec, SpecGraph, SpecLevel, SpecStatus,
};
use coherence_core_db::tui::app::record_status;
use coherence_core_db::tui::edit::Draft;
use coherence_core_db::tui::ui::{detail_content, textwrap_indent};

fn sample_spec() -> Spec {
    Spec {
        id: "S1".into(),
        slug: "s1".into(),
        title: "T".into(),
        description: "line1\nline2".into(),
        level: SpecLevel::Product,
        status: SpecStatus::Active,
        created_at: String::new(),
        updated_at: String::new(),
    }
}

fn sample_ac() -> AcceptanceCriterion {
    AcceptanceCriterion {
        id: "A1".into(),
        spec_id: "S1".into(),
        slug: "a1".into(),
        title: "AT".into(),
        intent: "do it".into(),
        review_mode: ReviewMode::Manual,
        risk_level: RiskLevel::Low,
        concerns: vec![ConcernKind::Correctness, ConcernKind::Security],
        created_at: String::new(),
        updated_at: String::new(),
    }
}

fn bar(n: usize) -> String {
    "━".repeat(n)
}

#[test]
fn textwrap_indent_prefixes_every_line() {
    assert_eq!(textwrap_indent("a\nb", "> "), "> a\n> b");
    assert_eq!(textwrap_indent("", "> "), "");
    assert_eq!(textwrap_indent("x\r\ny\n", "# "), "# x\n# y");
    assert_eq!(textwrap_indent("a\n\nb", "|"), "|a\n|\n|b");
}

#[test]
fn detail_content_without_selection_asks_for_one() {
    let app = AppState::new(vec![]);
    let graph = SpecGraph::new(vec![sample_spec()], vec![sample_ac()], vec![]);
    assert_eq!(detail_content(&app, &graph), "Select a spec or AC from the tree");
}

#[test]
fn detail_content_reports_missing_spec_and_ac() {
    let graph = SpecGraph::new(vec![sample_spec()], vec![sample_ac()], vec![]);
    let mut app = AppState::new(vec![]);
    app.detail_spec_id = Some("S9".into());
    assert_eq!(detail_content(&app, &graph), "Spec not found");
    let mut app = AppState::new(vec![]);
    app.detail_ac_id = Some("A9".into());
    assert_eq!(detail_content(&app, &graph), "AC not found");
}

#[test]
fn detail_content_renders_spec_with_its_criteria() {
    let graph = SpecGraph::new(vec![sample_spec()], vec![sample_ac()], vec![]);
    let mut app = AppState::new(vec![]);
    app.detail_spec_id = Some("S1".into());
    let expected = format!(
        "┌ {} Spec {}┐\n┃  ID       │ S1    \n┃  Slug     │ s1    \n┃  Title    │ T    \n┃  Level    │ product    \n┃  Status   │ active    \n┣{}┨\n┃  Description:    \n┃  line1\n┃  line2\n┃\n┃  Acceptance Criteria:\n      ├ a1 — AT (risk=low review=manual)\n\n┗{}┛",
        bar(36),
        bar(36),
        bar(80),
        bar(80)
    );
    assert_eq!(detail_content(&app, &graph), expected);
}

#[test]
fn detail_content_renders_spec_draft_values_and_modified_mark() {
    let graph = SpecGraph::new(vec![sample_spec()], vec![], vec![]);
    let mut app = AppState::new(vec![]);
    app.detail_spec_id = Some("S1".into());
    let mut draft = Draft::from_spec(&sample_spec());
    if let Draft::Spec { pending_status, pending_description, .. } = &mut draft {
        *pending_status = SpecStatus::Deprecated;
        *pending_description = Some("new".into());
    }
    app.draft = Some(draft);
    let expected = format!(
        "┌ {} Spec {}┐\n┃  ID       │ S1    \n┃  Slug     │ s1    \n┃  Title    │ T    \n┃  Level    │ product    \n┃  Status   │ deprecated    \n┣{}┨\n┃  Description:  [modified]    \n┃  new\n\n┗{}┛",
        bar(36),
        bar(36),
        bar(80),
        bar(80)
    );
    assert_eq!(detail_content(&app, &graph), expected);
}

#[test]
fn detail_content_renders_ac_with_verification() {
    let graph = SpecGraph::new(vec![sample_spec()], vec![sample_ac()], vec![]);
    let mut app = AppState::new(vec![]);
    app.detail_ac_id = Some("A1".into());
    record_status(&mut app.verification_statuses, "A1", AcVerifyOverallStatus::Passed);
    let expected = format!(
        "┌ {} Acceptance Criterion {}┐\n┃  ID         │ A1    \n┃  Spec ID    │ S1    \n┃  Slug       │ a1    \n┃  Title      │ AT    \n┃  Review     │ manual    \n┃  Risk       │ low    \n┃  Concerns   │ correctness, security    \n┃  Verify     │ [+] passed    \n┣{}┨\n┃  Intent:    \n┃  do it\n┗{}┛",
        bar(28),
        bar(28),
        bar(80),
        bar(80)
    );
    assert_eq!(detail_content(&app, &graph), expected);
}
