//! Key presses to browser actions, per screen and mode.
use vstd::prelude::*;

use crate::tui::app::{AppState, Screen};

verus! {

/// What the user asked for.
#[derive(Debug, Clone, Copy, PartialEq, Eq, Structural)]
pub enum AppAction {
    NavUp,
    NavDown,
    Enter,
    Back,
    Quit,
    ToggleExpand,
    FocusTreeUp,
    FocusTreeDown,
    FocusTreeLeft,
    FocusDetail,
    EnterEditMode,
    CycleStatus,
    CycleLevel,
    CycleReviewMode,
    CycleRiskLevel,
    OpenEditor,
    SaveDraft,
    SwitchToProjectPicker,
    SwitchToEnvPicker,
    VerifySelected,
    VerifyAll,
}

/// The key of a terminal key event, as far as the browser reads it.
#[derive(Debug, Clone, Copy, PartialEq, Eq, Structural)]
pub enum KeyCode {
    Up,
    Down,
    Left,
    Right,
    Enter,
    Esc,
    Char(char),
    /// Any other key.
    Other,
}

/// Whether the key went down, repeats or went up.
#[derive(Debug, Clone, Copy, PartialEq, Eq, Structural)]
pub enum KeyEventKind {
    Press,
    Repeat,
    Release,
}

/// A terminal key event.
#[derive(Debug, Clone, Copy, PartialEq, Eq, Structural)]
pub struct KeyInput {
    pub code: KeyCode,
    pub kind: KeyEventKind,
}

/// Keys of the two pickers.
pub open spec fn picker_action(code: KeyCode) -> Option<AppAction> {
    match code {
        KeyCode::Up => Some(AppAction::NavUp),
        KeyCode::Down => Some(AppAction::NavDown),
        KeyCode::Enter => Some(AppAction::Enter),
        KeyCode::Esc => Some(AppAction::Back),
        KeyCode::Char(c) => if c == 'q' {
            Some(AppAction::Quit)
        } else {
            None
        },
        _ => None,
    }
}

/// Keys of the spec screen while a draft is open.
pub open spec fn edit_action(code: KeyCode) -> Option<AppAction> {
    match code {
        KeyCode::Enter => Some(AppAction::SaveDraft),
        KeyCode::Esc => Some(AppAction::Back),
        KeyCode::Char(c) => if c == 'e' {
            Some(AppAction::OpenEditor)
        } else if c == 's' {
            Some(AppAction::CycleStatus)
        } else if c == 'l' {
            Some(AppAction::CycleLevel)
        } else if c == 'r' {
            Some(AppAction::CycleReviewMode)
        } else if c == 'k' {
            Some(AppAction::CycleRiskLevel)
        } else {
            None
        },
        _ => None,
    }
}

/// Keys of the spec screen when browsing, with the tree or the detail pane focused.
pub open spec fn browse_action(code: KeyCode, focus_tree: bool) -> Option<AppAction> {
    match code {
        KeyCode::Up => Some(if focus_tree { AppAction::FocusTreeUp } else { AppAction::NavUp }),
        KeyCode::Down => Some(
            if focus_tree {
                AppAction::FocusTreeDown
            } else {
                AppAction::NavDown
            },
        ),
        KeyCode::Enter => Some(
            if focus_tree {
                AppAction::ToggleExpand
            } else {
                AppAction::FocusDetail
            },
        ),
        KeyCode::Esc => Some(if focus_tree { AppAction::Back } else { AppAction::FocusDetail }),
        KeyCode::Left => if focus_tree {
            Some(AppAction::FocusTreeLeft)
        } else {
            None
        },
        KeyCode::Char(c) => if c == 'e' {
            Some(AppAction::EnterEditMode)
        } else if c == 'p' {
            Some(AppAction::SwitchToProjectPicker)
        } else if c == 'd' {
            Some(AppAction::SwitchToEnvPicker)
        } else if c == 'v' {
            Some(AppAction::VerifySelected)
        } else if c == 'V' {
            Some(AppAction::VerifyAll)
        } else if c == 'q' {
            Some(AppAction::Quit)
        } else {
            None
        },
        _ => None,
    }
}

/// The action of a key event; only presses act.
pub open spec fn action_for(key: KeyInput, screen: Screen, edit_mode: bool, focus_tree: bool) -> Option<AppAction> {
    if key.kind != KeyEventKind::Press {
        None
    } else {
        match screen {
            Screen::ProjectPicker | Screen::EnvPicker => picker_action(key.code),
            Screen::Specs => if edit_mode {
                edit_action(key.code)
            } else {
                browse_action(key.code, focus_tree)
            },
        }
    }
}

/// The action a key event asks for in the current state, if any.
pub fn key_to_action(key: KeyInput, app: &AppState) -> (r: Option<AppAction>)
    ensures
        r == action_for(key, app.screen, app.edit_mode, app.focus_tree),
{
    if key.kind != KeyEventKind::Press {
        return None;
    }
    match app.screen {
        Screen::ProjectPicker | Screen::EnvPicker => match key.code {
            KeyCode::Up => Some(AppAction::NavUp),
            KeyCode::Down => Some(AppAction::NavDown),
            KeyCode::Enter => Some(AppAction::Enter),
            KeyCode::Esc => Some(AppAction::Back),
            KeyCode::Char('q') => Some(AppAction::Quit),
            _ => None,
        },
        Screen::Specs => {
            if app.edit_mode {
                match key.code {
                    KeyCode::Enter => Some(AppAction::SaveDraft),
                    KeyCode::Char('e') => Some(AppAction::OpenEditor),
                    KeyCode::Char('s') => Some(AppAction::CycleStatus),
                    KeyCode::Char('l') => Some(AppAction::CycleLevel),
                    KeyCode::Char('r') => Some(AppAction::CycleReviewMode),
                    KeyCode::Char('k') => Some(AppAction::CycleRiskLevel),
                    KeyCode::Esc => Some(AppAction::Back),
                    _ => None,
                }
            } else {
                match key.code {
                    KeyCode::Up if app.focus_tree => Some(AppAction::FocusTreeUp),
                    KeyCode::Down if app.focus_tree => Some(AppAction::FocusTreeDown),
                    KeyCode::Enter if app.focus_tree => Some(AppAction::ToggleExpand),
                    KeyCode::Up if !app.focus_tree => Some(AppAction::NavUp),
                    KeyCode::Down if !app.focus_tree => Some(AppAction::NavDown),
                    KeyCode::Enter if !app.focus_tree => Some(AppAction::FocusDetail),
                    KeyCode::Esc if !app.focus_tree => Some(AppAction::FocusDetail),
                    KeyCode::Esc if app.focus_tree => Some(AppAction::Back),
                    KeyCode::Left if app.focus_tree => Some(AppAction::FocusTreeLeft),
                    KeyCode::Char('e') => Some(AppAction::EnterEditMode),
                    KeyCode::Char('p') => Some(AppAction::SwitchToProjectPicker),
                    KeyCode::Char('d') => Some(AppAction::SwitchToEnvPicker),
                    KeyCode::Char('v') => Some(AppAction::VerifySelected),
                    KeyCode::Char('V') => Some(AppAction::VerifyAll),
                    KeyCode::Char('q') => Some(AppAction::Quit),
                    _ => None,
                }
            }
        },
    }
}

} // verus!
