use coherence_core_db::tui::action::{key_to_action, AppAction, KeyCode, KeyEventKind, KeyInput};
use coherence_core_db::tui::app::{AppState, Screen};

fn make_app_state() -> AppState {
    AppState {
        edit_mode: false,
        draft: None,
        screen: Screen::Specs,
        focus_tree: true,
        detail_scroll: 0,
        projects: Vec::new(),
        selected_project: 0,
        envs: Vec::new(),
        selected_env: 0,
        graph: None,
        tree_items: Vec::new(),
        selected_tree: 0,
        tree_scroll: 0,
        detail_spec_id: None,
        detail_ac_id: None,
        verification_statuses: Vec::new(),
        status: String::new(),
        project_dir: None,
    }
}

fn press(code: KeyCode) -> KeyInput {
    KeyInput { code, kind: KeyEventKind::Press }
}

#[test]
fn key_enter_in_edit_mode_returns_save_draft() {
    let mut app = make_app_state();
    app.edit_mode = true;
    assert_eq!(key_to_action(press(KeyCode::Enter), &app), Some(AppAction::SaveDraft));
}

#[test]
fn key_esc_in_edit_mode_returns_back() {
    let mut app = make_app_state();
    app.edit_mode = true;
    assert_eq!(key_to_action(press(KeyCode::Esc), &app), Some(AppAction::Back));
}

#[test]
fn key_v_in_specs_returns_verify_selected() {
    let app = make_app_state();
    assert_eq!(key_to_action(press(KeyCode::Char('v')), &app), Some(AppAction::VerifySelected));
}

#[test]
fn key_shift_v_in_specs_returns_verify_all() {
    let app = make_app_state();
    assert_eq!(key_to_action(press(KeyCode::Char('V')), &app), Some(AppAction::VerifyAll));
}

#[test]
fn key_release_and_unknown_keys_do_nothing() {
    let app = make_app_state();
    let release = KeyInput { code: KeyCode::Enter, kind: KeyEventKind::Release };
    assert_eq!(key_to_action(release, &app), None);
    assert_eq!(key_to_action(press(KeyCode::Char('z')), &app), None);
    let mut detail = make_app_state();
    detail.focus_tree = false;
    assert_eq!(key_to_action(press(KeyCode::Left), &detail), None);
    assert_eq!(key_to_action(press(KeyCode::Esc), &detail), Some(AppAction::FocusDetail));
}
