//! How each browser action changes the state, and which effects it asks for.
use vstd::prelude::*;

use crate::models::{ReviewMode, RiskLevel, SpecLevel, SpecStatus};
use crate::text::{append_str, join_messages, joined, owned, string_from_chars};
use crate::tui::action::AppAction;
use crate::tui::app::{AppState, Screen};
use crate::tui::edit::Draft;
use crate::tui::effects::{Effect, find_ac, find_spec, first_ac_index, first_spec_index};
use crate::models::{AcceptanceCriterion, Spec, SpecGraph};
use crate::tui::tree::{level_from_label, level_of_title, opt_view, preview_of, rows_view, toggle_rows};

verus! {

/// `post` is `pre` with only the status line changed, to `s`.
pub open spec fn only_status(pre: AppState, post: AppState, s: Seq<char>) -> bool {
    post.status@ == s && post == (AppState { status: post.status, ..pre })
}

/// The prompt of the environment picker for the selected project.
pub open spec fn env_prompt(app: AppState) -> Seq<char> {
    "Select environment for "@ + app.projects@[app.selected_project as int].1@
}

fn env_prompt_text(app: &AppState) -> (r: String)
    requires
        app.selected_project < app.projects@.len(),
    ensures
        r@ == env_prompt(*app),
{
    let mut msg: Vec<char> = Vec::new();
    append_str(&mut msg, "Select environment for ");
    append_str(&mut msg, app.projects[app.selected_project].1.as_str());
    string_from_chars(msg.as_slice())
}

/// One less, but not below zero.
pub open spec fn dec(n: int) -> int {
    if n > 0 {
        n - 1
    } else {
        0
    }
}

/// Moving up: in a picker the selection, in the detail pane the scroll offset.
pub open spec fn nav_up_done(pre: AppState, post: AppState) -> bool {
    match pre.screen {
        Screen::ProjectPicker => post == (AppState { selected_project: dec(pre.selected_project as int) as usize, ..pre }),
        Screen::EnvPicker => post == (AppState { selected_env: dec(pre.selected_env as int) as usize, ..pre }),
        Screen::Specs => if !pre.focus_tree {
            post == (AppState { detail_scroll: dec(pre.detail_scroll as int) as u16, ..pre })
        } else {
            post == pre
        },
    }
}

fn nav_up(app: &mut AppState) -> (r: Vec<Effect>)
    ensures
        nav_up_done(*old(app), *final(app)),
        r@.len() == 0,
{
    match app.screen {
        Screen::ProjectPicker => {
            if app.selected_project > 0 {
                app.selected_project = app.selected_project - 1;
            }
        },
        Screen::EnvPicker => {
            if app.selected_env > 0 {
                app.selected_env = app.selected_env - 1;
            }
        },
        Screen::Specs => {
            if !app.focus_tree && app.detail_scroll > 0 {
                app.detail_scroll = app.detail_scroll - 1;
            }
        },
    }
    Vec::new()
}

/// One more, but at most `last`.
pub open spec fn inc_to(n: int, last: int) -> int {
    if n + 1 < last {
        n + 1
    } else {
        last
    }
}

/// What moving down needs: a nonempty list in a picker, and room for one more.
pub open spec fn nav_down_ok(app: AppState) -> bool {
    match app.screen {
        Screen::ProjectPicker => app.projects@.len() > 0 && app.selected_project < usize::MAX,
        Screen::EnvPicker => app.envs@.len() > 0 && app.selected_env < usize::MAX,
        Screen::Specs => true,
    }
}

/// Moving down: in a picker the selection (up to the last entry), in the detail pane the
/// scroll offset (saturating).
pub open spec fn nav_down_done(pre: AppState, post: AppState) -> bool {
    match pre.screen {
        Screen::ProjectPicker => post == (AppState {
            selected_project: inc_to(pre.selected_project as int, pre.projects@.len() - 1) as usize,
            ..pre
        }),
        Screen::EnvPicker => post == (AppState {
            selected_env: inc_to(pre.selected_env as int, pre.envs@.len() - 1) as usize,
            ..pre
        }),
        Screen::Specs => if !pre.focus_tree {
            post == (AppState {
                detail_scroll: (if pre.detail_scroll < u16::MAX {
                    pre.detail_scroll + 1
                } else {
                    pre.detail_scroll as int
                }) as u16,
                ..pre
            })
        } else {
            post == pre
        },
    }
}

fn nav_down(app: &mut AppState) -> (r: Vec<Effect>)
    requires
        nav_down_ok(*old(app)),
    ensures
        nav_down_done(*old(app), *final(app)),
        r@.len() == 0,
{
    match app.screen {
        Screen::ProjectPicker => {
            let last = app.projects.len() - 1;
            let next = app.selected_project + 1;
            app.selected_project = if next < last {
                next
            } else {
                last
            };
        },
        Screen::EnvPicker => {
            let last = app.envs.len() - 1;
            let next = app.selected_env + 1;
            app.selected_env = if next < last {
                next
            } else {
                last
            };
        },
        Screen::Specs => {
            if !app.focus_tree && app.detail_scroll < u16::MAX {
                app.detail_scroll = app.detail_scroll + 1;
            }
        },
    }
    Vec::new()
}

/// The state after `AppState::toggle_expand` on `pre`.
pub open spec fn toggled(pre: AppState, post: AppState) -> bool {
    match pre.graph {
        None => post == pre,
        Some(g) => {
            &&& rows_view(post.tree_items@) == toggle_rows(
                rows_view(pre.tree_items@),
                pre.selected_tree as int,
                g.specs@,
                g.acceptance_criteria@,
            )
            &&& post.selected_tree == if pre.selected_tree < post.tree_items@.len() {
                pre.selected_tree as int
            } else if post.tree_items@.len() > 0 {
                post.tree_items@.len() - 1
            } else {
                0
            }
            &&& post.tree_scroll == if pre.tree_scroll <= post.selected_tree {
                pre.tree_scroll
            } else {
                post.selected_tree
            }
            &&& post == (AppState {
                tree_items: post.tree_items,
                selected_tree: post.selected_tree,
                tree_scroll: post.tree_scroll,
                ..pre
            })
        },
    }
}

/// What Enter needs: a selected project in the project picker, a selected row in the
/// focused tree.
pub open spec fn enter_ok(app: AppState) -> bool {
    match app.screen {
        Screen::ProjectPicker => app.selected_project < app.projects@.len(),
        Screen::EnvPicker => true,
        Screen::Specs => app.focus_tree ==> app.selected_tree < app.tree_items@.len(),
    }
}

/// Enter: project picker to environment picker, environment picker to the specs (asking
/// for the graph), in the tree expand/collapse a row with children or focus the detail
/// pane.
pub open spec fn enter_done(pre: AppState, post: AppState, r: Seq<Effect>) -> bool {
    match pre.screen {
        Screen::ProjectPicker => r.len() == 0 && post.status@ == env_prompt(pre) && post == (AppState {
            screen: Screen::EnvPicker,
            status: post.status,
            ..pre
        }),
        Screen::EnvPicker => r == seq![Effect::RefreshGraph] && post == (AppState {
            screen: Screen::Specs,
            focus_tree: true,
            ..pre
        }),
        Screen::Specs => r.len() == 0 && if pre.focus_tree {
            if pre.tree_items@[pre.selected_tree as int].has_children {
                toggled(pre, post)
            } else {
                post == (AppState { focus_tree: false, ..pre })
            }
        } else {
            post == pre
        },
    }
}

fn handle_enter(app: &mut AppState) -> (r: Vec<Effect>)
    requires
        enter_ok(*old(app)),
    ensures
        enter_done(*old(app), *final(app), r@),
{
    match app.screen {
        Screen::ProjectPicker => {
            app.screen = Screen::EnvPicker;
            app.status = env_prompt_text(app);
            Vec::new()
        },
        Screen::EnvPicker => {
            app.screen = Screen::Specs;
            app.focus_tree = true;
            let mut v: Vec<Effect> = Vec::new();
            v.push(Effect::RefreshGraph);
            v
        },
        Screen::Specs => {
            if app.focus_tree {
                if app.tree_items[app.selected_tree].has_children {
                    app.toggle_expand();
                } else {
                    app.focus_tree = false;
                }
            }
            Vec::new()
        },
    }
}

/// What Back needs: a selected project when it returns to the environment picker.
pub open spec fn back_ok(app: AppState) -> bool {
    app.screen == Screen::Specs && app.focus_tree && !app.edit_mode ==> app.selected_project
        < app.projects@.len()
}

/// Back: environment picker to project picker; from the detail pane to the tree; out of
/// an edit (dropping the draft); from the tree to the environment picker.
pub open spec fn back_done(pre: AppState, post: AppState) -> bool {
    match pre.screen {
        Screen::EnvPicker => post == (AppState { screen: Screen::ProjectPicker, ..pre }),
        Screen::Specs => if !pre.focus_tree {
            post == (AppState { focus_tree: true, ..pre })
        } else if pre.edit_mode {
            post.status@ == "Edit cancelled"@ && post == (AppState {
                edit_mode: false,
                draft: None,
                status: post.status,
                ..pre
            })
        } else {
            post.status@ == env_prompt(pre) && post == (AppState {
                screen: Screen::EnvPicker,
                status: post.status,
                ..pre
            })
        },
        Screen::ProjectPicker => post == pre,
    }
}

fn handle_back(app: &mut AppState) -> (r: Vec<Effect>)
    requires
        back_ok(*old(app)),
    ensures
        back_done(*old(app), *final(app)),
        r@.len() == 0,
{
    match app.screen {
        Screen::EnvPicker => {
            app.screen = Screen::ProjectPicker;
        },
        Screen::Specs => {
            if !app.focus_tree {
                app.focus_tree = true;
            } else if app.edit_mode {
                app.edit_mode = false;
                app.draft = None;
                app.status = owned("Edit cancelled");
            } else {
                app.screen = Screen::EnvPicker;
                app.status = env_prompt_text(app);
            }
        },
        Screen::ProjectPicker => {},
    }
    Vec::new()
}

/// The nearest row above `sel` that is less indented, if any.
pub open spec fn parent_row(rows: Seq<crate::tui::tree::RowView>, sel: int) -> Option<int> {
    if exists|i: int| 0 <= i < sel && (#[trigger] rows[i]).indent < rows[sel].indent {
        Some(
            choose|i: int|
                0 <= i < sel && (#[trigger] rows[i]).indent < rows[sel].indent && forall|j: int|
                    i < j < sel ==> (#[trigger] rows[j]).indent >= rows[sel].indent,
        )
    } else {
        None
    }
}

/// Left in the tree: select the enclosing row and show it; nothing at the top level.
pub open spec fn left_done(pre: AppState, post: AppState) -> bool {
    let rows = rows_view(pre.tree_items@);
    let sel = pre.selected_tree as int;
    if sel < rows.len() && rows[sel].indent != 0 && parent_row(rows, sel) is Some {
        let p = parent_row(rows, sel)->Some_0;
        &&& (opt_view(post.detail_spec_id), opt_view(post.detail_ac_id)) == preview_of(rows, p)
        &&& post == (AppState {
            selected_tree: p as usize,
            detail_spec_id: post.detail_spec_id,
            detail_ac_id: post.detail_ac_id,
            detail_scroll: 0,
            ..pre
        })
    } else {
        post == pre
    }
}

fn focus_tree_left(app: &mut AppState) -> (r: Vec<Effect>)
    ensures
        left_done(*old(app), *final(app)),
        r@.len() == 0,
{
    let ghost rows = rows_view(app.tree_items@);
    let sel = app.selected_tree;
    if app.tree_items.len() == 0 || sel >= app.tree_items.len() {
        return Vec::new();
    }
    let cur = app.tree_items[sel].indent;
    assert(rows[sel as int].indent == cur);
    if cur == 0 {
        return Vec::new();
    }
    let mut i: usize = sel;
    while i > 0
        invariant
            rows == rows_view(app.tree_items@),
            *app == *old(app),
            sel == app.selected_tree,
            sel < rows.len(),
            cur == rows[sel as int].indent,
            i <= sel,
            forall|j: int| i <= j < sel ==> (#[trigger] rows[j]).indent >= cur,
        decreases i,
    {
        let k = i - 1;
        assert(rows[k as int].indent == app.tree_items@[k as int].indent);
        if app.tree_items[k].indent < cur {
            proof {
                let c = choose|c: int|
                    0 <= c < sel && (#[trigger] rows[c]).indent < rows[sel as int].indent && forall|
                        j: int,
                    | c < j < sel ==> (#[trigger] rows[j]).indent >= rows[sel as int].indent;
                assert(0 <= k < sel && rows[k as int].indent < rows[sel as int].indent && forall|
                    j: int,
                | k < j < sel ==> (#[trigger] rows[j]).indent >= rows[sel as int].indent);
                assert(c == k) by {
                    if c < k {
                        assert(rows[k as int].indent >= rows[sel as int].indent);
                    } else if c > k {
                        assert(rows[c].indent >= cur);
                    }
                }
            }
            app.selected_tree = k;
            app.update_preview();
            return Vec::new();
        }
        i = k;
    }
    assert(parent_row(rows, sel as int) is None) by {
        if exists|c: int| 0 <= c < sel && (#[trigger] rows[c]).indent < rows[sel as int].indent {
            let c = choose|c: int| 0 <= c < sel && (#[trigger] rows[c]).indent < rows[sel as int].indent;
            assert(rows[c].indent >= cur);
        }
    }
    Vec::new()
}

/// The level named by a header label.
pub fn level_from_tree_label(label: &str) -> (r: Option<SpecLevel>)
    ensures
        r == level_of_title(label@),
{
    level_from_label(label)
}

/// Verifying the selection: a criterion row asks to verify the criterion, a spec row the
/// spec, a level header every spec of its level; otherwise the status line explains.
pub open spec fn verify_selected_done(pre: AppState, post: AppState, r: Seq<Effect>) -> bool {
    let rows = rows_view(pre.tree_items@);
    let sel = pre.selected_tree as int;
    if sel >= rows.len() {
        r.len() == 0 && only_status(pre, post, "Nothing selected to verify"@)
    } else if rows[sel].parent_spec_id is Some {
        post == pre && r.len() == 1 && (r[0] matches Effect::VerifyAc(id) && id@ == rows[sel].id)
    } else if rows[sel].is_spec {
        post == pre && r.len() == 1 && (r[0] matches Effect::VerifySpec(id) && id@ == rows[sel].id)
    } else {
        match level_of_title(rows[sel].label) {
            Some(l) => post == pre && r == seq![Effect::VerifyLevel(l)],
            None => r.len() == 0 && only_status(pre, post, "Selected row cannot be verified"@),
        }
    }
}

fn verify_selected(app: &mut AppState) -> (r: Vec<Effect>)
    ensures
        verify_selected_done(*old(app), *final(app), r@),
{
    let ghost rows = rows_view(app.tree_items@);
    let mut out: Vec<Effect> = Vec::new();
    if app.selected_tree >= app.tree_items.len() {
        app.status = owned("Nothing selected to verify");
        return out;
    }
    let item = &app.tree_items[app.selected_tree];
    assert(rows[app.selected_tree as int] == item@);
    if item.parent_spec_id.is_some() {
        out.push(Effect::VerifyAc(item.id.clone()));
        return out;
    }
    if item.is_spec {
        out.push(Effect::VerifySpec(item.id.clone()));
        return out;
    }
    match level_from_tree_label(item.label.as_str()) {
        None => {
            app.status = owned("Selected row cannot be verified");
            out
        },
        Some(l) => {
            out.push(Effect::VerifyLevel(l));
            assert(out@ =~= seq![Effect::VerifyLevel(l)]);
            out
        },
    }
}


/// A fresh draft of `s`.
pub open spec fn spec_draft(s: Spec) -> Draft {
    Draft::Spec {
        spec_id: s.id,
        original_status: s.status,
        original_level: s.level,
        original_description: s.description,
        pending_status: s.status,
        pending_level: s.level,
        pending_description: None,
    }
}

/// A fresh draft of `a`.
pub open spec fn ac_draft(a: AcceptanceCriterion) -> Draft {
    Draft::Ac {
        ac_id: a.id,
        original_review_mode: a.review_mode,
        original_risk_level: a.risk_level,
        original_intent: a.intent,
        pending_review_mode: a.review_mode,
        pending_risk_level: a.risk_level,
        pending_intent: None,
    }
}

/// The draft that editing opens: of the spec shown in the detail pane, else of the
/// criterion shown there, looked up in the graph.
pub open spec fn edit_target(app: AppState) -> Option<Draft> {
    match opt_view(app.detail_spec_id) {
        Some(sid) => match app.graph {
            Some(g) => match first_spec_index(g.specs@, sid) {
                Some(i) => Some(spec_draft(g.specs@[i])),
                None => None,
            },
            None => None,
        },
        None => match opt_view(app.detail_ac_id) {
            Some(aid) => match app.graph {
                Some(g) => match first_ac_index(g.acceptance_criteria@, aid) {
                    Some(i) => Some(ac_draft(g.acceptance_criteria@[i])),
                    None => None,
                },
                None => None,
            },
            None => None,
        },
    }
}

/// Help line shown while editing.
pub open spec fn edit_help() -> Seq<char> {
    "Edit: [s] status  [l] level  [r] review  [k] risk  [e] content  [Enter] save  [Esc] cancel"@
}

/// Entering edit mode: a draft of what the detail pane shows, or a note that nothing is.
pub open spec fn enter_edit_done(pre: AppState, post: AppState) -> bool {
    match edit_target(pre) {
        Some(d) => post.status@ == edit_help() && post == (AppState {
            edit_mode: true,
            draft: Some(d),
            status: post.status,
            ..pre
        }),
        None => post.status@ == "Nothing selected to edit"@ && post == (AppState {
            edit_mode: true,
            status: post.status,
            ..pre
        }),
    }
}

fn enter_edit_mode(app: &mut AppState) -> (r: Vec<Effect>)
    ensures
        enter_edit_done(*old(app), *final(app)),
        r@.len() == 0,
{
    app.edit_mode = true;
    let draft: Option<Draft> = match &app.detail_spec_id {
        Some(sid) => match &app.graph {
            Some(g) => match find_spec(&g.specs, sid.as_str()) {
                Some(i) => Some(Draft::from_spec(&g.specs[i])),
                None => None,
            },
            None => None,
        },
        None => match &app.detail_ac_id {
            Some(aid) => match &app.graph {
                Some(g) => match find_ac(&g.acceptance_criteria, aid.as_str()) {
                    Some(i) => Some(Draft::from_ac(&g.acceptance_criteria[i])),
                    None => None,
                },
                None => None,
            },
            None => None,
        },
    };
    match draft {
        Some(d) => {
            app.draft = Some(d);
            app.status = owned(
                "Edit: [s] status  [l] level  [r] review  [k] risk  [e] content  [Enter] save  [Esc] cancel",
            );
        },
        None => {
            app.status = owned("Nothing selected to edit");
        },
    }
    Vec::new()
}

/// The next spec status in the edit cycle.
pub open spec fn next_status(s: SpecStatus) -> SpecStatus {
    match s {
        SpecStatus::Draft => SpecStatus::Active,
        SpecStatus::Active => SpecStatus::Deprecated,
        SpecStatus::Deprecated => SpecStatus::Archived,
        SpecStatus::Archived => SpecStatus::Draft,
    }
}

/// The next spec level in the edit cycle.
pub open spec fn next_level(l: SpecLevel) -> SpecLevel {
    match l {
        SpecLevel::Product => SpecLevel::System,
        SpecLevel::System => SpecLevel::Module,
        SpecLevel::Module => SpecLevel::Component,
        SpecLevel::Component => SpecLevel::Foundation,
        SpecLevel::Foundation => SpecLevel::Product,
    }
}

/// The next review mode in the edit cycle.
pub open spec fn next_review_mode(m: ReviewMode) -> ReviewMode {
    match m {
        ReviewMode::Manual => ReviewMode::Automated,
        ReviewMode::Automated => ReviewMode::Hybrid,
        ReviewMode::Hybrid => ReviewMode::Manual,
    }
}

/// The next risk level in the edit cycle.
pub open spec fn next_risk_level(r: RiskLevel) -> RiskLevel {
    match r {
        RiskLevel::Low => RiskLevel::Medium,
        RiskLevel::Medium => RiskLevel::High,
        RiskLevel::High => RiskLevel::Critical,
        RiskLevel::Critical => RiskLevel::Low,
    }
}

/// Each edit cycle runs through every value of its field and comes back to where it
/// started after as many presses as the field has values.
pub proof fn lemma_edit_cycles_wrap(
    s: SpecStatus,
    t: SpecStatus,
    l: SpecLevel,
    m: SpecLevel,
    rm: ReviewMode,
    rn: ReviewMode,
    rl: RiskLevel,
    rk: RiskLevel,
)
    ensures
        next_status(next_status(next_status(next_status(s)))) == s,
        t == s || t == next_status(s) || t == next_status(next_status(s))
            || t == next_status(next_status(next_status(s))),
        next_level(next_level(next_level(next_level(next_level(l))))) == l,
        m == l || m == next_level(l) || m == next_level(next_level(l))
            || m == next_level(next_level(next_level(l)))
            || m == next_level(next_level(next_level(next_level(l)))),
        next_review_mode(next_review_mode(next_review_mode(rm))) == rm,
        rn == rm || rn == next_review_mode(rm) || rn == next_review_mode(next_review_mode(rm)),
        next_risk_level(next_risk_level(next_risk_level(next_risk_level(rl)))) == rl,
        rk == rl || rk == next_risk_level(rl) || rk == next_risk_level(next_risk_level(rl))
            || rk == next_risk_level(next_risk_level(next_risk_level(rl))),
{
}

/// One press of a cycle key on a draft without changes leaves a draft with a change, so
/// saving it stores the new value: every cycle moves to a different value.
pub proof fn lemma_cycle_makes_clean_draft_dirty(d: Draft, f: CycleField)
    requires
        !d.dirty(),
        cycled(d, f) is Some,
    ensures
        cycled(d, f)->0.dirty(),
{
    crate::tui::edit::lemma_dirty_iff_a_value_changed(d);
    crate::tui::edit::lemma_dirty_iff_a_value_changed(cycled(d, f)->0);
}

/// Which pending value a cycle key changes.
#[derive(Debug, Clone, Copy, PartialEq, Eq, Structural)]
pub enum CycleField {
    Status,
    Level,
    ReviewMode,
    RiskLevel,
}

/// The draft with the pending value of `f` advanced, or `None` when the draft has no such
/// value.
pub open spec fn cycled(d: Draft, f: CycleField) -> Option<Draft> {
    match d {
        Draft::Spec {
            spec_id,
            original_status,
            original_level,
            original_description,
            pending_status,
            pending_level,
            pending_description,
        } => match f {
            CycleField::Status => Some(
                Draft::Spec {
                    spec_id,
                    original_status,
                    original_level,
                    original_description,
                    pending_status: next_status(pending_status),
                    pending_level,
                    pending_description,
                },
            ),
            CycleField::Level => Some(
                Draft::Spec {
                    spec_id,
                    original_status,
                    original_level,
                    original_description,
                    pending_status,
                    pending_level: next_level(pending_level),
                    pending_description,
                },
            ),
            _ => None,
        },
        Draft::Ac {
            ac_id,
            original_review_mode,
            original_risk_level,
            original_intent,
            pending_review_mode,
            pending_risk_level,
            pending_intent,
        } => match f {
            CycleField::ReviewMode => Some(
                Draft::Ac {
                    ac_id,
                    original_review_mode,
                    original_risk_level,
                    original_intent,
                    pending_review_mode: next_review_mode(pending_review_mode),
                    pending_risk_level,
                    pending_intent,
                },
            ),
            CycleField::RiskLevel => Some(
                Draft::Ac {
                    ac_id,
                    original_review_mode,
                    original_risk_level,
                    original_intent,
                    pending_review_mode,
                    pending_risk_level: next_risk_level(pending_risk_level),
                    pending_intent,
                },
            ),
            _ => None,
        },
    }
}

/// Status line after advancing `f` of draft `d`.
pub open spec fn cycled_message(d: Draft, f: CycleField) -> Seq<char> {
    match (d, f) {
        (Draft::Spec { pending_status, .. }, CycleField::Status) => "Status → "@ + next_status(
            pending_status,
        ).db_label(),
        (Draft::Spec { pending_level, .. }, CycleField::Level) => "Level → "@ + next_level(
            pending_level,
        ).db_label(),
        (Draft::Ac { pending_review_mode, .. }, CycleField::ReviewMode) => "Review → "@
            + next_review_mode(pending_review_mode).db_label(),
        (Draft::Ac { pending_risk_level, .. }, CycleField::RiskLevel) => "Risk → "@
            + next_risk_level(pending_risk_level).db_label(),
        (_, CycleField::Status) => "Spec not selected for status edit"@,
        (_, CycleField::Level) => "Spec not selected for level edit"@,
        (_, CycleField::ReviewMode) => "AC not selected for review edit"@,
        (_, CycleField::RiskLevel) => "AC not selected for risk edit"@,
    }
}

/// Advancing a pending value: without a draft the status line says so; a draft without
/// that value is left alone and the status line says why.
pub open spec fn cycle_done(pre: AppState, post: AppState, f: CycleField) -> bool {
    match pre.draft {
        None => only_status(pre, post, "No active draft"@),
        Some(d) => post.status@ == cycled_message(d, f) && post == (AppState {
            draft: match cycled(d, f) {
                Some(d2) => Some(d2),
                None => Some(d),
            },
            status: post.status,
            ..pre
        }),
    }
}

fn cycle_field(app: &mut AppState, f: CycleField) -> (r: Vec<Effect>)
    ensures
        cycle_done(*old(app), *final(app), f),
        r@.len() == 0,
{
    let mut msg: Vec<char> = Vec::new();
    match app.draft.take() {
        None => {
            app.status = owned("No active draft");
        },
        Some(
            Draft::Spec {
                spec_id,
                original_status,
                original_level,
                original_description,
                pending_status,
                pending_level,
                pending_description,
            },
        ) => {
            let mut ps = pending_status;
            let mut pl = pending_level;
            match f {
                CycleField::Status => {
                    ps = match pending_status {
                        SpecStatus::Draft => SpecStatus::Active,
                        SpecStatus::Active => SpecStatus::Deprecated,
                        SpecStatus::Deprecated => SpecStatus::Archived,
                        SpecStatus::Archived => SpecStatus::Draft,
                    };
                    append_str(&mut msg, "Status → ");
                    append_str(&mut msg, ps.as_db_str());
                },
                CycleField::Level => {
                    pl = match pending_level {
                        SpecLevel::Product => SpecLevel::System,
                        SpecLevel::System => SpecLevel::Module,
                        SpecLevel::Module => SpecLevel::Component,
                        SpecLevel::Component => SpecLevel::Foundation,
                        SpecLevel::Foundation => SpecLevel::Product,
                    };
                    append_str(&mut msg, "Level → ");
                    append_str(&mut msg, pl.as_db_str());
                },
                CycleField::ReviewMode => {
                    append_str(&mut msg, "AC not selected for review edit");
                },
                CycleField::RiskLevel => {
                    append_str(&mut msg, "AC not selected for risk edit");
                },
            }
            app.draft = Some(
                Draft::Spec {
                    spec_id,
                    original_status,
                    original_level,
                    original_description,
                    pending_status: ps,
                    pending_level: pl,
                    pending_description,
                },
            );
            app.status = string_from_chars(msg.as_slice());
        },
        Some(
            Draft::Ac {
                ac_id,
                original_review_mode,
                original_risk_level,
                original_intent,
                pending_review_mode,
                pending_risk_level,
                pending_intent,
            },
        ) => {
            let mut pm = pending_review_mode;
            let mut pr = pending_risk_level;
            match f {
                CycleField::ReviewMode => {
                    pm = match pending_review_mode {
                        ReviewMode::Manual => ReviewMode::Automated,
                        ReviewMode::Automated => ReviewMode::Hybrid,
                        ReviewMode::Hybrid => ReviewMode::Manual,
                    };
                    append_str(&mut msg, "Review → ");
                    append_str(&mut msg, pm.as_db_str());
                },
                CycleField::RiskLevel => {
                    pr = match pending_risk_level {
                        RiskLevel::Low => RiskLevel::Medium,
                        RiskLevel::Medium => RiskLevel::High,
                        RiskLevel::High => RiskLevel::Critical,
                        RiskLevel::Critical => RiskLevel::Low,
                    };
                    append_str(&mut msg, "Risk → ");
                    append_str(&mut msg, pr.as_db_str());
                },
                CycleField::Status => {
                    append_str(&mut msg, "Spec not selected for status edit");
                },
                CycleField::Level => {
                    append_str(&mut msg, "Spec not selected for level edit");
                },
            }
            app.draft = Some(
                Draft::Ac {
                    ac_id,
                    original_review_mode,
                    original_risk_level,
                    original_intent,
                    pending_review_mode: pm,
                    pending_risk_level: pr,
                    pending_intent,
                },
            );
            app.status = string_from_chars(msg.as_slice());
        },
    }
    Vec::new()
}

/// Opening the editor on the draft's text: asks for it by entity id, or notes that there
/// is no draft.
pub open spec fn open_editor_done(pre: AppState, post: AppState, r: Seq<Effect>) -> bool {
    match pre.draft {
        None => r.len() == 0 && only_status(pre, post, "No active draft"@),
        Some(Draft::Spec { spec_id, .. }) => post == pre && r.len() == 1 && (r[0] matches Effect::OpenEditorForSpec(id) && id@ == spec_id@),
        Some(Draft::Ac { ac_id, .. }) => post == pre && r.len() == 1 && (r[0] matches Effect::OpenEditorForAc(id) && id@ == ac_id@),
    }
}

fn open_editor(app: &mut AppState) -> (r: Vec<Effect>)
    ensures
        open_editor_done(*old(app), *final(app), r@),
{
    let mut out: Vec<Effect> = Vec::new();
    match &app.draft {
        None => {
            app.status = owned("No active draft");
        },
        Some(Draft::Spec { spec_id, .. }) => {
            out.push(Effect::OpenEditorForSpec(spec_id.clone()));
        },
        Some(Draft::Ac { ac_id, .. }) => {
            out.push(Effect::OpenEditorForAc(ac_id.clone()));
        },
    }
    out
}


fn cycle_status(app: &mut AppState) -> (r: Vec<Effect>)
    ensures
        cycle_done(*old(app), *final(app), CycleField::Status),
        r@.len() == 0,
{
    cycle_field(app, CycleField::Status)
}

fn cycle_level(app: &mut AppState) -> (r: Vec<Effect>)
    ensures
        cycle_done(*old(app), *final(app), CycleField::Level),
        r@.len() == 0,
{
    cycle_field(app, CycleField::Level)
}

fn cycle_review_mode(app: &mut AppState) -> (r: Vec<Effect>)
    ensures
        cycle_done(*old(app), *final(app), CycleField::ReviewMode),
        r@.len() == 0,
{
    cycle_field(app, CycleField::ReviewMode)
}

fn cycle_risk_level(app: &mut AppState) -> (r: Vec<Effect>)
    ensures
        cycle_done(*old(app), *final(app), CycleField::RiskLevel),
        r@.len() == 0,
{
    cycle_field(app, CycleField::RiskLevel)
}

/// `s` with the pending values of a spec draft applied.
pub open spec fn spec_with_pending(
    s: Spec,
    status: SpecStatus,
    level: SpecLevel,
    description: Option<String>,
) -> Spec {
    Spec {
        status,
        level,
        description: match description {
            Some(d) => d,
            None => s.description,
        },
        ..s
    }
}

/// `a` is `before` with the pending values of a criterion draft applied.
pub open spec fn ac_with_pending(
    a: AcceptanceCriterion,
    before: AcceptanceCriterion,
    mode: ReviewMode,
    risk: RiskLevel,
    intent: Option<String>,
) -> bool {
    &&& a.id == before.id
    &&& a.spec_id == before.spec_id
    &&& a.slug == before.slug
    &&& a.title == before.title
    &&& a.intent == match intent {
        Some(i) => i,
        None => before.intent,
    }
    &&& a.concerns@ == before.concerns@
    &&& a.created_at == before.created_at
    &&& a.updated_at == before.updated_at
    &&& a.review_mode == mode
    &&& a.risk_level == risk
}

/// The entity of the draft is in the graph.
pub open spec fn saved_found(pre: AppState, d: Draft) -> bool {
    match pre.graph {
        Some(g) => match d {
            Draft::Spec { spec_id, .. } => first_spec_index(g.specs@, spec_id@) is Some,
            Draft::Ac { ac_id, .. } => first_ac_index(g.acceptance_criteria@, ac_id@) is Some,
        },
        None => false,
    }
}

/// Status line when the entity of the draft is not in the graph.
pub open spec fn missing_message(d: Draft) -> Seq<char> {
    match d {
        Draft::Spec { .. } => "Spec not found in graph"@,
        Draft::Ac { .. } => "AC not found in graph"@,
    }
}

/// The graph `g2` and effects `r` after saving `d` when its entity is in the graph: the
/// entity takes the pending values and is handed on to be stored.
pub open spec fn saved_graph(pre: AppState, d: Draft, g2o: Option<SpecGraph>, r: Seq<Effect>) -> bool {
    let g = pre.graph->Some_0;
    match d {
        Draft::Spec { spec_id, pending_status, pending_level, pending_description, .. } => {
            let i = first_spec_index(g.specs@, spec_id@)->Some_0;
            let s2 = spec_with_pending(g.specs@[i], pending_status, pending_level, pending_description);
            &&& r == seq![Effect::PersistSpec(s2)]
            &&& g2o matches Some(g2)
            &&& g2.specs@ == g.specs@.update(i, s2)
            &&& g2.acceptance_criteria == g.acceptance_criteria
            &&& g2.spec_relations == g.spec_relations
        },
        Draft::Ac { ac_id, pending_review_mode, pending_risk_level, pending_intent, .. } => {
            let i = first_ac_index(g.acceptance_criteria@, ac_id@)->Some_0;
            &&& g2o matches Some(g2)
            &&& g2.acceptance_criteria@.len() == g.acceptance_criteria@.len()
            &&& ac_with_pending(
                g2.acceptance_criteria@[i],
                g.acceptance_criteria@[i],
                pending_review_mode,
                pending_risk_level,
                pending_intent,
            )
            &&& forall|k: int|
                0 <= k < g.acceptance_criteria@.len() && k != i ==> (#[trigger] g2.acceptance_criteria@[k])
                    == g.acceptance_criteria@[k]
            &&& g2.specs == g.specs
            &&& g2.spec_relations == g.spec_relations
            &&& r.len() == 1
            &&& (r[0] matches Effect::PersistAc(a) && ac_with_pending(
                a,
                g.acceptance_criteria@[i],
                pending_review_mode,
                pending_risk_level,
                pending_intent,
            ))
        },
    }
}

/// Saving a dirty, valid draft: its entity in the graph takes the pending values, is
/// handed on to be stored and the edit closes; an entity missing from the graph is
/// reported instead.
pub open spec fn saved_done(pre: AppState, d: Draft, post: AppState, r: Seq<Effect>) -> bool {
    if saved_found(pre, d) {
        &&& saved_graph(pre, d, post.graph, r)
        &&& post.status@ == "Draft saved"@
        &&& post == (AppState {
            edit_mode: false,
            draft: None,
            graph: post.graph,
            status: post.status,
            ..pre
        })
    } else {
        r.len() == 0 && post.status@ == missing_message(d) && post == (AppState {
            draft: None,
            status: post.status,
            ..pre
        })
    }
}

fn effects_for_saved_draft(app: &mut AppState, draft: &Draft) -> (r: Option<Vec<Effect>>)
    requires
        old(app).draft is None,
    ensures
        match r {
            Some(effects) => saved_found(*old(app), *draft) && saved_graph(
                *old(app),
                *draft,
                final(app).graph,
                effects@,
            ) && *final(app) == (AppState { graph: final(app).graph, ..*old(app) }),
            None => !saved_found(*old(app), *draft) && final(app).status@ == missing_message(*draft)
                && *final(app) == (AppState { status: final(app).status, ..*old(app) }),
        },
{
    match draft {
        Draft::Spec { spec_id, pending_status, pending_level, pending_description, .. } => {
            match app.graph.take() {
                Some(mut g) => match find_spec(&g.specs, spec_id.as_str()) {
                    Some(i) => {
                        let mut s = g.specs[i].clone();
                        s.status = *pending_status;
                        s.level = *pending_level;
                        match pending_description {
                            Some(desc) => {
                                s.description = desc.clone();
                            },
                            None => {},
                        }
                        let saved = s.clone();
                        g.specs.set(i, s);
                        app.graph = Some(g);
                        let mut out: Vec<Effect> = Vec::new();
                        out.push(Effect::PersistSpec(saved));
                        Some(out)
                    },
                    None => {
                        app.graph = Some(g);
                        app.status = owned("Spec not found in graph");
                        None
                    },
                },
                None => {
                    app.status = owned("Spec not found in graph");
                    None
                },
            }
        },
        Draft::Ac { ac_id, pending_review_mode, pending_risk_level, pending_intent, .. } => {
            match app.graph.take() {
                Some(mut g) => match find_ac(&g.acceptance_criteria, ac_id.as_str()) {
                    Some(i) => {
                        let mut a = g.acceptance_criteria[i].clone();
                        a.review_mode = *pending_review_mode;
                        a.risk_level = *pending_risk_level;
                        match pending_intent {
                            Some(intent) => {
                                a.intent = intent.clone();
                            },
                            None => {},
                        }
                        let saved = a.clone();
                        g.acceptance_criteria.set(i, a);
                        app.graph = Some(g);
                        let mut out: Vec<Effect> = Vec::new();
                        out.push(Effect::PersistAc(saved));
                        Some(out)
                    },
                    None => {
                        app.graph = Some(g);
                        app.status = owned("AC not found in graph");
                        None
                    },
                },
                None => {
                    app.status = owned("AC not found in graph");
                    None
                },
            }
        },
    }
}

/// Saving the draft: without one, or with an invalid one (kept), the status line explains;
/// an unchanged one just closes the edit; otherwise see `saved_done`.
pub open spec fn save_done(pre: AppState, post: AppState, r: Seq<Effect>) -> bool {
    match pre.draft {
        None => r.len() == 0 && only_status(pre, post, "No active draft"@),
        Some(d) => match d.problem() {
            Some(m) => r.len() == 0 && only_status(pre, post, "Validation errors: "@ + m),
            None => if !d.dirty() {
                r.len() == 0 && post.status@ == "No changes to save"@ && post == (AppState {
                    edit_mode: false,
                    draft: None,
                    status: post.status,
                    ..pre
                })
            } else {
                saved_done(AppState { draft: None, ..pre }, d, post, r)
            },
        },
    }
}

fn save_draft(app: &mut AppState) -> (r: Vec<Effect>)
    ensures
        save_done(*old(app), *final(app), r@),
{
    let draft = match app.draft.take() {
        None => {
            app.status = owned("No active draft");
            return Vec::new();
        },
        Some(d) => d,
    };
    match draft.validate() {
        Err(errors) => {
            let mut msg: Vec<char> = Vec::new();
            append_str(&mut msg, "Validation errors: ");
            let joined_text = join_messages(errors.as_slice(), "; ");
            append_str(&mut msg, joined_text.as_str());
            proof {
                let vs = errors@.map_values(|s: String| s@);
                assert(vs.len() == 1);
                assert(joined(vs, "; "@) == vs[0]);
            }
            app.draft = Some(draft);
            app.status = string_from_chars(msg.as_slice());
            return Vec::new();
        },
        Ok(()) => {},
    }
    if !draft.is_dirty() {
        app.edit_mode = false;
        app.status = owned("No changes to save");
        return Vec::new();
    }
    match effects_for_saved_draft(app, &draft) {
        None => Vec::new(),
        Some(effects) => {
            app.edit_mode = false;
            app.status = owned("Draft saved");
            effects
        },
    }
}


/// What an action needs so that it cannot fail: see `nav_down_ok`, `enter_ok`, `back_ok`;
/// moving down the tree needs room for one more row; switching to the environment picker
/// needs a selected project.
pub open spec fn update_ok(app: AppState, action: AppAction) -> bool {
    match action {
        AppAction::NavDown => nav_down_ok(app),
        AppAction::Enter => enter_ok(app),
        AppAction::Back => back_ok(app),
        AppAction::FocusTreeDown => app.selected_tree < usize::MAX,
        AppAction::SwitchToEnvPicker => app.selected_project < app.projects@.len(),
        _ => true,
    }
}

/// The tree selection moved to `sel`, shown in the detail pane.
pub open spec fn selected_shown(pre: AppState, post: AppState, sel: int) -> bool {
    &&& (opt_view(post.detail_spec_id), opt_view(post.detail_ac_id)) == preview_of(
        rows_view(pre.tree_items@),
        sel,
    )
    &&& post == (AppState {
        selected_tree: sel as usize,
        detail_spec_id: post.detail_spec_id,
        detail_ac_id: post.detail_ac_id,
        detail_scroll: 0,
        ..pre
    })
}

/// The state and effects after `action`.
pub open spec fn update_done(pre: AppState, action: AppAction, post: AppState, r: Seq<Effect>) -> bool {
    match action {
        AppAction::NavUp => nav_up_done(pre, post) && r.len() == 0,
        AppAction::NavDown => nav_down_done(pre, post) && r.len() == 0,
        AppAction::Enter => enter_done(pre, post, r),
        AppAction::Back => back_done(pre, post) && r.len() == 0,
        AppAction::Quit => only_status(pre, post, "quit"@) && r.len() == 0,
        AppAction::ToggleExpand => toggled(pre, post) && r.len() == 0,
        AppAction::FocusTreeUp => selected_shown(pre, post, dec(pre.selected_tree as int)) && r.len()
            == 0,
        AppAction::FocusTreeDown => selected_shown(
            pre,
            post,
            inc_to(pre.selected_tree as int, dec(pre.tree_items@.len() as int)),
        ) && r.len() == 0,
        AppAction::FocusTreeLeft => left_done(pre, post) && r.len() == 0,
        AppAction::FocusDetail => post == (AppState { focus_tree: true, ..pre }) && r.len() == 0,
        AppAction::EnterEditMode => enter_edit_done(pre, post) && r.len() == 0,
        AppAction::CycleStatus => cycle_done(pre, post, CycleField::Status) && r.len() == 0,
        AppAction::CycleLevel => cycle_done(pre, post, CycleField::Level) && r.len() == 0,
        AppAction::CycleReviewMode => cycle_done(pre, post, CycleField::ReviewMode) && r.len() == 0,
        AppAction::CycleRiskLevel => cycle_done(pre, post, CycleField::RiskLevel) && r.len() == 0,
        AppAction::OpenEditor => open_editor_done(pre, post, r),
        AppAction::SaveDraft => save_done(pre, post, r),
        AppAction::SwitchToProjectPicker => r.len() == 0 && post.status@ == "Select a project"@
            && post == (AppState { screen: Screen::ProjectPicker, status: post.status, ..pre }),
        AppAction::SwitchToEnvPicker => r.len() == 0 && post.status@ == env_prompt(pre) && post == (
        AppState { screen: Screen::EnvPicker, status: post.status, ..pre }),
        AppAction::VerifySelected => verify_selected_done(pre, post, r),
        AppAction::VerifyAll => post == pre && r == seq![Effect::VerifyAll],
    }
}

/// Applies `action` to the state and returns the effects it asks for. No action changes
/// the recorded verification statuses.
pub fn update(app: &mut AppState, action: AppAction) -> (r: Vec<Effect>)
    requires
        update_ok(*old(app), action),
    ensures
        update_done(*old(app), action, *final(app), r@),
        final(app).verification_statuses == old(app).verification_statuses,
{
    match action {
        AppAction::NavUp => nav_up(app),
        AppAction::NavDown => nav_down(app),
        AppAction::Enter => handle_enter(app),
        AppAction::Back => handle_back(app),
        AppAction::Quit => {
            app.status = owned("quit");
            Vec::new()
        },
        AppAction::ToggleExpand => {
            app.toggle_expand();
            Vec::new()
        },
        AppAction::FocusTreeUp => {
            if app.selected_tree > 0 {
                app.selected_tree = app.selected_tree - 1;
            }
            app.update_preview();
            Vec::new()
        },
        AppAction::FocusTreeDown => {
            let n = app.tree_items.len();
            let last = if n > 0 {
                n - 1
            } else {
                0
            };
            let next = app.selected_tree + 1;
            app.selected_tree = if next < last {
                next
            } else {
                last
            };
            app.update_preview();
            Vec::new()
        },
        AppAction::FocusTreeLeft => focus_tree_left(app),
        AppAction::FocusDetail => {
            app.focus_tree = true;
            Vec::new()
        },
        AppAction::EnterEditMode => enter_edit_mode(app),
        AppAction::CycleStatus => cycle_status(app),
        AppAction::CycleLevel => cycle_level(app),
        AppAction::CycleReviewMode => cycle_review_mode(app),
        AppAction::CycleRiskLevel => cycle_risk_level(app),
        AppAction::OpenEditor => open_editor(app),
        AppAction::SaveDraft => save_draft(app),
        AppAction::SwitchToProjectPicker => {
            app.screen = Screen::ProjectPicker;
            app.status = owned("Select a project");
            Vec::new()
        },
        AppAction::SwitchToEnvPicker => {
            app.screen = Screen::EnvPicker;
            app.status = env_prompt_text(app);
            Vec::new()
        },
        AppAction::VerifySelected => verify_selected(app),
        AppAction::VerifyAll => {
            let mut v: Vec<Effect> = Vec::new();
            v.push(Effect::VerifyAll);
            v
        },
    }
}

} // verus!
