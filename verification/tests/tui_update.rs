use coherence_core_db::models::{AcceptanceCriterion, ReviewMode, Spec, SpecGraph, SpecLevel, SpecStatus};
use coherence_core_db::tui::action::AppAction;
use coherence_core_db::tui::app::{AppState, Screen};
use coherence_core_db::tui::edit::Draft;
use coherence_core_db::tui::effects::Effect;
use coherence_core_db::tui::tree::TreeItem;
use coherence_core_db::tui::update::update;

fn app_with_tree(item: TreeItem) -> AppState {
    let mut app = AppState::new(vec![]);
    app.screen = Screen::Specs;
    app.tree_items = vec![item];
    app
}

#[test]
fn verify_selected_dispatches_ac_effect() {
    let mut app = app_with_tree(TreeItem {
        indent: 2,
        label: "ac".into(),
        id: "AC1".into(),
        is_spec: false,
        expanded: false,
        has_children: false,
        parent_spec_id: Some("S1".into()),
    });

    let effects = update(&mut app, AppAction::VerifySelected);

    assert_eq!(effects, vec![Effect::VerifyAc("AC1".into())]);
}

#[test]
fn verify_selected_dispatches_spec_effect() {
    let mut app = app_with_tree(TreeItem {
        indent: 1,
        label: "spec".into(),
        id: "S1".into(),
        is_spec: true,
        expanded: false,
        has_children: true,
        parent_spec_id: None,
    });

    let effects = update(&mut app, AppAction::VerifySelected);

    assert_eq!(effects, vec![Effect::VerifySpec("S1".into())]);
}

#[test]
fn verify_selected_dispatches_level_effect() {
    let mut app = app_with_tree(TreeItem {
        indent: 0,
        label: "Product".into(),
        id: String::new(),
        is_spec: false,
        expanded: false,
        has_children: true,
        parent_spec_id: None,
    });

    let effects = update(&mut app, AppAction::VerifySelected);

    assert_eq!(effects, vec![Effect::VerifyLevel(SpecLevel::Product)]);
}

#[test]
fn verify_all_dispatches_all_effect() {
    let mut app = AppState::new(vec![]);

    let effects = update(&mut app, AppAction::VerifyAll);

    assert_eq!(effects, vec![Effect::VerifyAll]);
}

#[test]
fn verify_selected_without_tree_item_reports_status() {
    let mut app = AppState::new(vec![]);

    let effects = update(&mut app, AppAction::VerifySelected);

    assert!(effects.is_empty());
    assert_eq!(app.status, "Nothing selected to verify");
}

fn graph_one() -> SpecGraph {
    let spec = Spec::new("S1", "one");
    let ac = AcceptanceCriterion::new("AC1", "S1", "t");
    SpecGraph::new(vec![spec], vec![ac], vec![])
}

#[test]
fn picker_navigation_and_enter_reach_specs() {
    let mut app = AppState::new(vec![
        ("/a".to_string(), "a".to_string()),
        ("/b".to_string(), "b".to_string()),
    ]);
    update(&mut app, AppAction::NavDown);
    update(&mut app, AppAction::NavDown);
    assert_eq!(app.selected_project, 1);
    update(&mut app, AppAction::NavUp);
    update(&mut app, AppAction::NavUp);
    assert_eq!(app.selected_project, 0);
    let e = update(&mut app, AppAction::Enter);
    assert!(e.is_empty());
    assert_eq!(app.screen, Screen::EnvPicker);
    assert_eq!(app.status, "Select environment for a");
    let e = update(&mut app, AppAction::Enter);
    assert_eq!(e, vec![Effect::RefreshGraph]);
    assert_eq!(app.screen, Screen::Specs);
}

#[test]
fn edit_cycle_and_save_spec_draft() {
    let mut app = AppState::new(vec![]);
    app.screen = Screen::Specs;
    app.graph = Some(graph_one());
    app.build_tree();
    update(&mut app, AppAction::ToggleExpand);
    update(&mut app, AppAction::FocusTreeDown);
    assert_eq!(app.detail_spec_id.as_deref(), Some("S1"));
    update(&mut app, AppAction::EnterEditMode);
    assert!(app.edit_mode);
    assert!(matches!(app.draft, Some(Draft::Spec { .. })));
    update(&mut app, AppAction::CycleStatus);
    assert_eq!(app.status, "Status → active");
    update(&mut app, AppAction::CycleLevel);
    assert_eq!(app.status, "Level → component");
    update(&mut app, AppAction::CycleRiskLevel);
    assert_eq!(app.status, "AC not selected for risk edit");
    let effects = update(&mut app, AppAction::SaveDraft);
    assert_eq!(effects.len(), 1);
    match &effects[0] {
        Effect::PersistSpec(s) => {
            assert_eq!(s.id, "S1");
            assert_eq!(s.status, SpecStatus::Active);
            assert_eq!(s.level, SpecLevel::Component);
        }
        other => panic!("unexpected effect {other:?}"),
    }
    assert_eq!(app.status, "Draft saved");
    assert!(!app.edit_mode);
    assert!(app.draft.is_none());
    assert_eq!(app.graph.as_ref().unwrap().specs[0].status, SpecStatus::Active);
}

#[test]
fn save_without_changes_and_blank_text_is_rejected() {
    let mut app = AppState::new(vec![]);
    app.screen = Screen::Specs;
    app.graph = Some(graph_one());
    app.detail_ac_id = Some("AC1".into());
    update(&mut app, AppAction::EnterEditMode);
    let e = update(&mut app, AppAction::SaveDraft);
    assert!(e.is_empty());
    assert_eq!(app.status, "No changes to save");
    update(&mut app, AppAction::EnterEditMode);
    if let Some(Draft::Ac { pending_intent, .. }) = app.draft.as_mut() {
        *pending_intent = Some("  ".into());
    }
    let e = update(&mut app, AppAction::SaveDraft);
    assert!(e.is_empty());
    assert_eq!(app.status, "Validation errors: Intent must not be empty");
    assert!(app.draft.is_some());
    update(&mut app, AppAction::CycleReviewMode);
    assert_eq!(app.status, "Review → automated");
    let e = update(&mut app, AppAction::OpenEditor);
    assert_eq!(e, vec![Effect::OpenEditorForAc("AC1".into())]);
    if let Some(Draft::Ac { pending_intent, .. }) = app.draft.as_mut() {
        *pending_intent = None;
    }
    let e = update(&mut app, AppAction::SaveDraft);
    assert_eq!(e.len(), 1);
    assert_eq!(app.graph.as_ref().unwrap().acceptance_criteria[0].review_mode, ReviewMode::Automated);
}

#[test]
fn back_and_left_move_focus_up() {
    let mut app = AppState::new(vec![("/a".to_string(), "a".to_string())]);
    app.screen = Screen::Specs;
    app.graph = Some(graph_one());
    app.build_tree();
    update(&mut app, AppAction::ToggleExpand);
    update(&mut app, AppAction::FocusTreeDown);
    update(&mut app, AppAction::ToggleExpand);
    update(&mut app, AppAction::FocusTreeDown);
    assert_eq!(app.selected_tree, 2);
    assert_eq!(app.detail_ac_id.as_deref(), Some("AC1"));
    update(&mut app, AppAction::FocusTreeLeft);
    assert_eq!(app.selected_tree, 1);
    assert_eq!(app.detail_spec_id.as_deref(), Some("S1"));
    app.focus_tree = false;
    update(&mut app, AppAction::Back);
    assert!(app.focus_tree);
    update(&mut app, AppAction::Back);
    assert_eq!(app.screen, Screen::EnvPicker);
    update(&mut app, AppAction::Quit);
    assert_eq!(app.status, "quit");
}

#[test]
fn edit_cycles_come_back_around() {
    let mut app = AppState::new(vec![]);
    app.screen = Screen::Specs;
    app.graph = Some(graph_one());
    app.detail_spec_id = Some("S1".into());
    update(&mut app, AppAction::EnterEditMode);
    for _ in 0..4 {
        update(&mut app, AppAction::CycleStatus);
    }
    assert_eq!(app.status, "Status → draft");
    for _ in 0..5 {
        update(&mut app, AppAction::CycleLevel);
    }
    let e = update(&mut app, AppAction::SaveDraft);
    assert!(e.is_empty());
    assert_eq!(app.status, "No changes to save");
}
