use coherence_core_db::ac_verify::AcVerifyOverallStatus;
use coherence_core_db::tui::app::{lookup_status, record_status, AppState, Screen};
use coherence_core_db::tui::tree::TreeItem;

fn rows(n: usize) -> Vec<TreeItem> {
    (0..n)
        .map(|i| TreeItem {
            indent: 0,
            label: format!("item-{i}"),
            id: i.to_string(),
            is_spec: false,
            expanded: false,
            has_children: false,
            parent_spec_id: None,
        })
        .collect()
}

#[test]
fn ensure_tree_selection_visible_scrolls_down_to_selected_row() {
    let mut app = AppState::new(vec![]);
    app.tree_items = rows(20);
    app.selected_tree = 7;

    app.ensure_tree_selection_visible(5);

    assert_eq!(app.tree_scroll, 3);
}

#[test]
fn ensure_tree_selection_visible_scrolls_up_to_selected_row() {
    let mut app = AppState::new(vec![]);
    app.tree_items = rows(20);
    app.tree_scroll = 10;
    app.selected_tree = 4;

    app.ensure_tree_selection_visible(5);

    assert_eq!(app.tree_scroll, 4);
}

#[test]
fn ensure_tree_selection_visible_resets_without_viewport() {
    let mut app = AppState::new(vec![]);
    app.tree_items = rows(3);
    app.tree_scroll = 2;
    app.ensure_tree_selection_visible(0);
    assert_eq!(app.tree_scroll, 0);
    app.tree_scroll = 1;
    app.selected_tree = 2;
    app.ensure_tree_selection_visible(5);
    assert_eq!(app.tree_scroll, 1);
}

#[test]
fn new_state_starts_on_project_picker() {
    let app = AppState::new(vec![("/p".to_string(), "p".to_string())]);
    assert_eq!(app.screen, Screen::ProjectPicker);
    assert_eq!(app.envs, vec!["dev", "test", "prod"]);
    assert_eq!(app.status, "Select a project");
    assert!(app.focus_tree);
}

#[test]
fn recorded_status_reads_back_and_replaces() {
    let mut t = Vec::new();
    assert_eq!(lookup_status(&t, "AC1"), None);
    record_status(&mut t, "AC1", AcVerifyOverallStatus::Failed);
    record_status(&mut t, "AC2", AcVerifyOverallStatus::Skipped);
    record_status(&mut t, "AC1", AcVerifyOverallStatus::Passed);
    assert_eq!(t.len(), 2);
    assert_eq!(lookup_status(&t, "AC1"), Some(AcVerifyOverallStatus::Passed));
    assert_eq!(lookup_status(&t, "AC2"), Some(AcVerifyOverallStatus::Skipped));
}
