//! State of the spec browser: screens, pickers, the navigation tree, the detail pane
//! and the latest verification status of each acceptance criterion.
use vstd::prelude::*;

use crate::ac_verify::AcVerifyOverallStatus;
use crate::models::SpecGraph;
use crate::text::{owned, str_eq};
use crate::tui::edit::Draft;
use crate::tui::tree::{self, TreeItem, opt_view, preview_of, rows_view, headers, toggle_rows};

verus! {

/// The screen on display.
#[derive(Debug, Clone, Copy, PartialEq, Eq, Structural)]
pub enum Screen {
    ProjectPicker,
    EnvPicker,
    Specs,
}

/// Latest verification status per acceptance criterion id: `(ac id, status)`, ids distinct.
pub type StatusTable = Vec<(String, AcVerifyOverallStatus)>;

/// No id occurs twice in the table.
pub open spec fn ids_distinct(t: Seq<(String, AcVerifyOverallStatus)>) -> bool {
    forall|i: int, j: int| 0 <= i < j < t.len() ==> (#[trigger] t[i]).0@ != (#[trigger] t[j]).0@
}

/// The status recorded for `id`, if any.
pub open spec fn status_of(t: Seq<(String, AcVerifyOverallStatus)>, id: Seq<char>) -> Option<AcVerifyOverallStatus> {
    if exists|i: int| 0 <= i < t.len() && (#[trigger] t[i]).0@ == id {
        Some(t[choose|i: int| 0 <= i < t.len() && (#[trigger] t[i]).0@ == id].1)
    } else {
        None
    }
}

fn find_status(t: &StatusTable, id: &str) -> (r: Option<usize>)
    requires
        ids_distinct(t@),
    ensures
        match r {
            Some(i) => i < t@.len() && t@[i as int].0@ == id@ && status_of(t@, id@) == Some(t@[i as int].1),
            None => status_of(t@, id@) is None,
        },
{
    let mut i: usize = 0;
    while i < t.len()
        invariant
            ids_distinct(t@),
            i <= t@.len(),
            forall|j: int| 0 <= j < i ==> (#[trigger] t@[j]).0@ != id@,
        decreases t@.len() - i,
    {
        if str_eq(t[i].0.as_str(), id) {
            let ghost c = choose|k: int| 0 <= k < t@.len() && (#[trigger] t@[k]).0@ == id@;
            assert(c == i) by {
                if c < i {
                    assert(t@[c].0@ != id@);
                } else if c > i {
                    assert(t@[i as int].0@ != t@[c].0@);
                }
            }
            return Some(i);
        }
        i = i + 1;
    }
    None
}

/// The status recorded for `id`.
pub fn lookup_status(t: &StatusTable, id: &str) -> (r: Option<AcVerifyOverallStatus>)
    requires
        ids_distinct(t@),
    ensures
        r == status_of(t@, id@),
{
    match find_status(t, id) {
        Some(i) => Some(t[i].1),
        None => None,
    }
}

/// Records `st` as the status of `id`, replacing an earlier one.
pub fn record_status(t: &mut StatusTable, id: &str, st: AcVerifyOverallStatus)
    requires
        ids_distinct(old(t)@),
    ensures
        ids_distinct(final(t)@),
        forall|k: Seq<char>| #[trigger] status_of(final(t)@, k) == if k == id@ {
            Some(st)
        } else {
            status_of(old(t)@, k)
        },
{
    match find_status(t, id) {
        Some(i) => {
            let key = owned(id);
            t.set(i, (key, st));
            assert forall|k: Seq<char>| #[trigger] status_of(t@, k) == if k == id@ {
                Some(st)
            } else {
                status_of(old(t)@, k)
            } by {
                if k == id@ {
                    assert(t@[i as int].0@ == k);
                    let c = choose|c: int| 0 <= c < t@.len() && (#[trigger] t@[c]).0@ == k;
                    if c != i {
                        if c < i {
                            assert(old(t)@[c].0@ != old(t)@[i as int].0@);
                        } else {
                            assert(old(t)@[i as int].0@ != old(t)@[c].0@);
                        }
                    }
                } else {
                    if exists|c: int| 0 <= c < t@.len() && (#[trigger] t@[c]).0@ == k {
                        let c = choose|c: int| 0 <= c < t@.len() && (#[trigger] t@[c]).0@ == k;
                        assert(old(t)@[c] == t@[c]);
                    }
                    if exists|c: int| 0 <= c < old(t)@.len() && (#[trigger] old(t)@[c]).0@ == k {
                        let c = choose|c: int| 0 <= c < old(t)@.len() && (#[trigger] old(t)@[c]).0@ == k;
                        assert(old(t)@[c] == t@[c]);
                    }
                }
            }
        },
        None => {
            let key = owned(id);
            t.push((key, st));
            assert forall|k: Seq<char>| #[trigger] status_of(t@, k) == if k == id@ {
                Some(st)
            } else {
                status_of(old(t)@, k)
            } by {
                let n = old(t)@.len() as int;
                if k == id@ {
                    assert(t@[n].0@ == k);
                    let c = choose|c: int| 0 <= c < t@.len() && (#[trigger] t@[c]).0@ == k;
                    if c < n {
                        assert(old(t)@[c] == t@[c]);
                    }
                } else {
                    if exists|c: int| 0 <= c < t@.len() && (#[trigger] t@[c]).0@ == k {
                        let c = choose|c: int| 0 <= c < t@.len() && (#[trigger] t@[c]).0@ == k;
                        assert(old(t)@[c] == t@[c]);
                    }
                    if exists|c: int| 0 <= c < old(t)@.len() && (#[trigger] old(t)@[c]).0@ == k {
                        let c = choose|c: int| 0 <= c < old(t)@.len() && (#[trigger] old(t)@[c]).0@ == k;
                        assert(old(t)@[c] == t@[c]);
                    }
                }
            }
        },
    }
}

/// The whole state of the browser.
pub struct AppState {
    pub screen: Screen,
    pub focus_tree: bool,
    pub edit_mode: bool,
    pub draft: Option<Draft>,
    pub detail_scroll: u16,
    /// Discovered projects: `(project directory, display name)`.
    pub projects: Vec<(String, String)>,
    pub selected_project: usize,
    pub envs: Vec<String>,
    pub selected_env: usize,
    pub graph: Option<SpecGraph>,
    pub tree_items: Vec<TreeItem>,
    pub selected_tree: usize,
    pub tree_scroll: usize,
    pub detail_spec_id: Option<String>,
    pub detail_ac_id: Option<String>,
    pub verification_statuses: StatusTable,
    pub status: String,
    pub project_dir: Option<String>,
}

impl AppState {
    /// The state invariant: the status table has no id twice.
    pub open spec fn wf(&self) -> bool {
        ids_distinct(self.verification_statuses@)
    }

    /// Start on the project picker with environments dev, test and prod.
    pub fn new(projects: Vec<(String, String)>) -> (r: Self)
        ensures
            r.wf(),
            r.screen == Screen::ProjectPicker,
            r.focus_tree,
            !r.edit_mode,
            r.draft is None,
            r.detail_scroll == 0,
            r.projects == projects,
            r.selected_project == 0,
            r.envs@.len() == 3,
            r.envs@[0]@ == "dev"@,
            r.envs@[1]@ == "test"@,
            r.envs@[2]@ == "prod"@,
            r.selected_env == 0,
            r.graph is None,
            r.tree_items@.len() == 0,
            r.selected_tree == 0,
            r.tree_scroll == 0,
            r.detail_spec_id is None,
            r.detail_ac_id is None,
            r.verification_statuses@.len() == 0,
            r.status@ == "Select a project"@,
            r.project_dir is None,
    {
        let mut envs: Vec<String> = Vec::new();
        envs.push(owned("dev"));
        envs.push(owned("test"));
        envs.push(owned("prod"));
        AppState {
            screen: Screen::ProjectPicker,
            focus_tree: true,
            edit_mode: false,
            draft: None,
            detail_scroll: 0,
            projects,
            selected_project: 0,
            envs,
            selected_env: 0,
            graph: None,
            tree_items: Vec::new(),
            selected_tree: 0,
            tree_scroll: 0,
            detail_spec_id: None,
            detail_ac_id: None,
            verification_statuses: Vec::new(),
            status: owned("Select a project"),
            project_dir: None,
        }
    }

    /// Shows the selected row in the detail pane, scrolled to the top.
    pub fn update_preview(&mut self)
        ensures
            (opt_view(final(self).detail_spec_id), opt_view(final(self).detail_ac_id)) == preview_of(
                rows_view(old(self).tree_items@),
                old(self).selected_tree as int,
            ),
            final(self).detail_scroll == 0,
            *final(self) == (AppState {
                detail_spec_id: final(self).detail_spec_id,
                detail_ac_id: final(self).detail_ac_id,
                detail_scroll: 0,
                ..*old(self)
            }),
    {
        let (sid, aid) = tree::update_preview(self.tree_items.as_slice(), self.selected_tree);
        self.detail_spec_id = sid;
        self.detail_ac_id = aid;
        self.detail_scroll = 0;
    }

    /// Rebuilds the tree from the graph (empty without one) and selects its first row.
    pub fn build_tree(&mut self)
        ensures
            final(self).selected_tree == 0,
            final(self).tree_scroll == 0,
            rows_view(final(self).tree_items@) == match old(self).graph {
                Some(g) => headers(g.specs@),
                None => Seq::empty(),
            },
            *final(self) == (AppState {
                tree_items: final(self).tree_items,
                selected_tree: 0,
                tree_scroll: 0,
                ..*old(self)
            }),
    {
        self.selected_tree = 0;
        self.tree_scroll = 0;
        match &self.graph {
            Some(g) => {
                tree::build_tree(&mut self.tree_items, g);
            },
            None => {
                self.tree_items.clear();
                assert(rows_view(self.tree_items@) =~= Seq::empty());
            },
        }
    }

    /// Expands or collapses the selected row, keeping the selection and the scroll offset
    /// within the tree.
    pub fn toggle_expand(&mut self)
        ensures
            match old(self).graph {
                None => *final(self) == *old(self),
                Some(g) => {
                    &&& rows_view(final(self).tree_items@) == toggle_rows(
                        rows_view(old(self).tree_items@),
                        old(self).selected_tree as int,
                        g.specs@,
                        g.acceptance_criteria@,
                    )
                    &&& final(self).selected_tree == if old(self).selected_tree < final(self).tree_items@.len() {
                        old(self).selected_tree as int
                    } else if final(self).tree_items@.len() > 0 {
                        final(self).tree_items@.len() - 1
                    } else {
                        0
                    }
                    &&& final(self).tree_scroll == if old(self).tree_scroll
                        <= final(self).selected_tree {
                        old(self).tree_scroll
                    } else {
                        final(self).selected_tree
                    }
                    &&& *final(self) == (AppState {
                        tree_items: final(self).tree_items,
                        selected_tree: final(self).selected_tree,
                        tree_scroll: final(self).tree_scroll,
                        ..*old(self)
                    })
                },
            },
    {
        match &self.graph {
            None => {
                return;
            },
            Some(g) => {
                tree::toggle_expand(&mut self.tree_items, self.selected_tree, g);
            },
        }
        let n = self.tree_items.len();
        let last = if n > 0 {
            n - 1
        } else {
            0
        };
        if self.selected_tree > last {
            self.selected_tree = last;
        }
        if self.tree_scroll > self.selected_tree {
            self.tree_scroll = self.selected_tree;
        }
    }

    /// Scrolls the tree so that the selected row lies within a viewport of
    /// `viewport_height` rows (scroll 0 when there is no viewport or no row).
    pub fn ensure_tree_selection_visible(&mut self, viewport_height: usize)
        requires
            viewport_height > 0 && old(self).tree_items@.len() > 0 && old(self).selected_tree
                >= old(self).tree_scroll ==> old(self).tree_scroll + viewport_height <= usize::MAX,
        ensures
            final(self).tree_scroll == if viewport_height == 0 || old(self).tree_items@.len() == 0 {
                0
            } else if old(self).selected_tree < old(self).tree_scroll {
                old(self).selected_tree as int
            } else if old(self).selected_tree >= old(self).tree_scroll + viewport_height {
                old(self).selected_tree + 1 - viewport_height
            } else {
                old(self).tree_scroll as int
            },
            viewport_height > 0 && old(self).tree_items@.len() > 0 ==> final(self).tree_scroll
                <= final(self).selected_tree < final(self).tree_scroll + viewport_height,
            *final(self) == (AppState { tree_scroll: final(self).tree_scroll, ..*old(self) }),
    {
        if viewport_height == 0 || self.tree_items.len() == 0 {
            self.tree_scroll = 0;
            return;
        }
        if self.selected_tree < self.tree_scroll {
            self.tree_scroll = self.selected_tree;
            return;
        }
        let bottom = self.tree_scroll + viewport_height;
        if self.selected_tree >= bottom {
            self.tree_scroll = self.selected_tree - viewport_height + 1;
        }
    }
}

} // verus!
