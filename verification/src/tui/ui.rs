//! Text the browser shows: title bar, tree rows and titles, verification markers, and the
//! detail pane. Drawing it on the terminal is done by the caller.
use vstd::prelude::*;

use crate::ac_verify::AcVerifyOverallStatus;
use crate::text::{append_decimal, append_str, decimal, join_messages, joined, owned, str_eq, string_from_chars};
use crate::tui::app::{AppState, Screen, lookup_status, status_of};
use crate::tui::edit::Draft;
use crate::models::{AcceptanceCriterion, ConcernKind, Spec, SpecGraph};
use crate::tui::effects::{find_ac, find_spec, first_ac_index, first_spec_index};
use crate::tui::tree::{RowView, TreeItem};

verus! {

/// Key help of the title bar.
pub open spec fn hint_text(screen: Screen, edit_mode: bool, focus_tree: bool) -> Seq<char> {
    match screen {
        Screen::ProjectPicker => " [↑↓] nav  [Enter] select  [q] quit"@,
        Screen::EnvPicker => " [↑↓] nav  [Enter] select  [Esc] back  [q] quit"@,
        Screen::Specs => if edit_mode {
            " [s] status  [l] level  [r] review  [k] risk  [e] editor  [Enter] save  [Esc] cancel"@
        } else if focus_tree {
            " [↑↓] nav  [Enter] expand/open  [v] verify  [V] all  [p] project  [d] DB  [e] edit  [q] quit"@
        } else {
            " [↑↓] scroll  [Enter/Esc] back to tree  [v] verify  [V] all  [e] edit  [q] quit"@
        },
    }
}

/// Key help of the title bar for the current screen and mode.
pub fn title_hint(app: &AppState) -> (r: &'static str)
    ensures
        r@ == hint_text(app.screen, app.edit_mode, app.focus_tree),
{
    match app.screen {
        Screen::ProjectPicker => " [↑↓] nav  [Enter] select  [q] quit",
        Screen::EnvPicker => " [↑↓] nav  [Enter] select  [Esc] back  [q] quit",
        Screen::Specs => {
            if app.edit_mode {
                " [s] status  [l] level  [r] review  [k] risk  [e] editor  [Enter] save  [Esc] cancel"
            } else if app.focus_tree {
                " [↑↓] nav  [Enter] expand/open  [v] verify  [V] all  [p] project  [d] DB  [e] edit  [q] quit"
            } else {
                " [↑↓] scroll  [Enter/Esc] back to tree  [v] verify  [V] all  [e] edit  [q] quit"
            }
        },
    }
}

/// Name of the current screen in the title bar.
pub open spec fn label_text(screen: Screen, focus_tree: bool) -> Seq<char> {
    match screen {
        Screen::ProjectPicker => " Coherence Spec Browser  "@,
        Screen::EnvPicker => " Environment  "@,
        Screen::Specs => if focus_tree {
            " Specs  "@
        } else {
            " Detail  "@
        },
    }
}

/// Name of the current screen in the title bar.
pub fn title_label(app: &AppState) -> (r: &'static str)
    ensures
        r@ == label_text(app.screen, app.focus_tree),
{
    match app.screen {
        Screen::ProjectPicker => " Coherence Spec Browser  ",
        Screen::EnvPicker => " Environment  ",
        Screen::Specs => {
            if app.focus_tree {
                " Specs  "
            } else {
                " Detail  "
            }
        },
    }
}

/// The title bar: screen name, then key help.
pub fn title_text(app: &AppState) -> (r: String)
    ensures
        r@ == label_text(app.screen, app.focus_tree) + hint_text(app.screen, app.edit_mode, app.focus_tree),
{
    let mut v: Vec<char> = Vec::new();
    append_str(&mut v, title_label(app));
    append_str(&mut v, title_hint(app));
    string_from_chars(v.as_slice())
}

/// Title of the tree pane: with the position `<row>/<rows>` when the rows do not fit.
pub fn tree_title(title: &str, app: &AppState, viewport_height: usize) -> (r: String)
    ensures
        r@ == if app.tree_items@.len() > viewport_height && viewport_height > 0 {
            title@ + " "@ + decimal(
                (if app.selected_tree < usize::MAX {
                    app.selected_tree + 1
                } else {
                    app.selected_tree as int
                }) as nat,
            ) + "/"@ + decimal(app.tree_items@.len()) + " "@
        } else {
            title@
        },
{
    if app.tree_items.len() > viewport_height && viewport_height > 0 {
        let pos = if app.selected_tree < usize::MAX {
            app.selected_tree + 1
        } else {
            app.selected_tree
        };
        let mut v: Vec<char> = Vec::new();
        append_str(&mut v, title);
        append_str(&mut v, " ");
        append_decimal(&mut v, pos);
        append_str(&mut v, "/");
        append_decimal(&mut v, app.tree_items.len());
        append_str(&mut v, " ");
        string_from_chars(v.as_slice())
    } else {
        owned(title)
    }
}

/// The marker of a criterion row for its latest verification status.
pub open spec fn marker_text(status: Option<AcVerifyOverallStatus>) -> Seq<char> {
    match status {
        Some(AcVerifyOverallStatus::Passed) => "[+]"@,
        Some(AcVerifyOverallStatus::Failed) => "[!]"@,
        Some(AcVerifyOverallStatus::Skipped) => "[?]"@,
        Some(AcVerifyOverallStatus::NoVerification) => "[-]"@,
        None => "[ ]"@,
    }
}

/// `[+]` passed, `[!]` failed, `[?]` skipped, `[-]` no verification, `[ ]` never run.
pub fn verification_marker(status: Option<AcVerifyOverallStatus>) -> (r: &'static str)
    ensures
        r@ == marker_text(status),
{
    match status {
        Some(AcVerifyOverallStatus::Passed) => "[+]",
        Some(AcVerifyOverallStatus::Failed) => "[!]",
        Some(AcVerifyOverallStatus::Skipped) => "[?]",
        Some(AcVerifyOverallStatus::NoVerification) => "[-]",
        None => "[ ]",
    }
}

/// The verification line of the criterion detail.
pub open spec fn description_text(status: Option<AcVerifyOverallStatus>) -> Seq<char> {
    match status {
        Some(AcVerifyOverallStatus::Passed) => "[+] passed"@,
        Some(AcVerifyOverallStatus::Failed) => "[!] failed"@,
        Some(AcVerifyOverallStatus::Skipped) => "[?] linked test missing/skipped or not materialized"@,
        Some(AcVerifyOverallStatus::NoVerification) => "[-] no verified_by link"@,
        None => "[ ] never run"@,
    }
}

/// The marker with a word on what it means.
pub fn verification_description(status: Option<AcVerifyOverallStatus>) -> (r: String)
    ensures
        r@ == description_text(status),
{
    match status {
        Some(AcVerifyOverallStatus::Passed) => owned("[+] passed"),
        Some(AcVerifyOverallStatus::Failed) => owned("[!] failed"),
        Some(AcVerifyOverallStatus::Skipped) => owned("[?] linked test missing/skipped or not materialized"),
        Some(AcVerifyOverallStatus::NoVerification) => owned("[-] no verified_by link"),
        None => owned("[ ] never run"),
    }
}

/// `n` copies of two spaces.
pub open spec fn indent_text(n: nat) -> Seq<char>
    decreases n,
{
    if n == 0 {
        Seq::empty()
    } else {
        indent_text((n - 1) as nat) + "  "@
    }
}

/// Text of a tree row: indentation, the criterion's status marker, the expand arrow, the
/// label.
pub open spec fn row_text(r: RowView, status: Option<AcVerifyOverallStatus>) -> Seq<char> {
    indent_text(r.indent as nat) + (if r.parent_spec_id is Some {
        marker_text(status) + " "@
    } else {
        Seq::empty()
    }) + (if r.has_children {
        if r.expanded {
            "▼ "@
        } else {
            "▶ "@
        }
    } else {
        "  "@
    }) + r.label
}

/// Text of a tree row, with the recorded status of its criterion.
pub fn tree_row_text(app: &AppState, item: &TreeItem) -> (r: String)
    requires
        app.wf(),
    ensures
        r@ == row_text(item@, status_of(app.verification_statuses@, item.id@)),
{
    let mut v: Vec<char> = Vec::new();
    let mut k: usize = 0;
    while k < item.indent
        invariant
            k <= item.indent,
            v@ == indent_text(k as nat),
        decreases item.indent - k,
    {
        append_str(&mut v, "  ");
        k = k + 1;
    }
    if item.parent_spec_id.is_some() {
        append_str(&mut v, verification_marker(lookup_status(&app.verification_statuses, item.id.as_str())));
        append_str(&mut v, " ");
    }
    let prefix = if item.has_children {
        if item.expanded {
            "▼ "
        } else {
            "▶ "
        }
    } else {
        "  "
    };
    append_str(&mut v, prefix);
    append_str(&mut v, item.label.as_str());
    proof {
        reveal_strlit("");
    }
    assert(v@ =~= row_text(item@, status_of(app.verification_statuses@, item.id@)));
    string_from_chars(v.as_slice())
}

/// Id of the entity a draft edits.
pub open spec fn draft_id(d: Draft) -> Seq<char> {
    match d {
        Draft::Spec { spec_id, .. } => spec_id@,
        Draft::Ac { ac_id, .. } => ac_id@,
    }
}

/// The open draft, when it edits the entity `id`.
pub fn find_draft<'a>(app: &'a AppState, id: &str) -> (r: Option<&'a Draft>)
    ensures
        match app.draft {
            Some(d) => if draft_id(d) == id@ {
                r == Some(&d)
            } else {
                r is None
            },
            None => r is None,
        },
{
    match &app.draft {
        Some(d) => {
            let matches_id = match d {
                Draft::Spec { spec_id, .. } => str_eq(spec_id.as_str(), id),
                Draft::Ac { ac_id, .. } => str_eq(ac_id.as_str(), id),
            };
            if matches_id {
                Some(d)
            } else {
                None
            }
        },
        None => None,
    }
}


/// `s` split into lines as `str::lines` does, from position `i`: at `\n`, with a `\r`
/// right before it dropped; a final line ending adds no empty line.
pub open spec fn lines_from(s: Seq<char>, i: int) -> Seq<Seq<char>>
    decreases s.len() - i,
{
    if i < 0 || i >= s.len() {
        Seq::empty()
    } else {
        let j = next_newline(s, i);
        proof {
            lemma_next_newline_bounds(s, i);
        }
        if j >= s.len() {
            seq![s.subrange(i, s.len() as int)]
        } else {
            let raw = s.subrange(i, j);
            let line = if raw.len() > 0 && raw.last() == '\r' {
                raw.drop_last()
            } else {
                raw
            };
            seq![line] + lines_from(s, j + 1)
        }
    }
}

/// First position from `i` on that holds `\n`, or the length.
pub open spec fn next_newline(s: Seq<char>, i: int) -> int
    decreases s.len() - i,
{
    if i < 0 || i >= s.len() {
        s.len() as int
    } else if s[i] == '\n' {
        i
    } else {
        next_newline(s, i + 1)
    }
}

/// The next line break at or after `i` lies between `i` and the end of the text.
pub proof fn lemma_next_newline_bounds(s: Seq<char>, i: int)
    requires
        0 <= i <= s.len(),
    ensures
        i <= next_newline(s, i) <= s.len(),
        next_newline(s, i) < s.len() ==> s[next_newline(s, i)] == '\n',
        forall|k: int| i <= k < next_newline(s, i) ==> s[k] != '\n',
    decreases s.len() - i,
{
    if i < s.len() && s[i] != '\n' {
        lemma_next_newline_bounds(s, i + 1);
    }
}

/// Each line of `text` after `prefix`, joined by `\n`.
pub open spec fn indented(text: Seq<char>, prefix: Seq<char>) -> Seq<char> {
    joined(lines_from(text, 0).map_values(|l: Seq<char>| prefix + l), "\n"@)
}

/// The lines of `text`, as `str::lines` gives them.
pub fn split_lines(text: &str) -> (r: Vec<String>)
    ensures
        r@.map_values(|x: String| x@) == lines_from(text@, 0),
{
    let chars = crate::text::chars_of(text);
    let ghost s = text@;
    let n = chars.len();
    let mut out: Vec<String> = Vec::new();
    let mut i: usize = 0;
    while i < n
        invariant
            chars@ == s,
            n == s.len(),
            i <= n,
            out@.map_values(|x: String| x@) + lines_from(s, i as int) == lines_from(s, 0),
        decreases n - i,
    {
        proof {
            lemma_next_newline_bounds(s, i as int);
        }
        let mut j: usize = i;
        while j < n && chars[j] != '\n'
            invariant
                chars@ == s,
                n == s.len(),
                i <= j <= n,
                next_newline(s, i as int) == next_newline(s, j as int),
            decreases n - j,
        {
            j = j + 1;
        }
        let mut end: usize = j;
        if j < n && end > i && chars[end - 1] == '\r' {
            end = end - 1;
        }
        let line = crate::text::string_of_range(chars.as_slice(), i, end);
        let ghost before = out@;
        out.push(line);
        proof {
            let ls = lines_from(s, i as int);
            if j >= n {
                assert(ls == seq![s.subrange(i as int, n as int)]);
                assert(lines_from(s, n as int) =~= Seq::<Seq<char>>::empty());
            } else {
                let raw = s.subrange(i as int, j as int);
                if raw.len() > 0 && raw.last() == '\r' {
                    assert(s.subrange(i as int, end as int) =~= raw.drop_last());
                }
            }
            assert(out@.map_values(|x: String| x@) =~= before.map_values(|x: String| x@).push(line@));
            assert(ls =~= seq![ls[0]] + lines_from(s, if j >= n { n as int } else { j + 1 }));
        }
        i = if j >= n {
            n
        } else {
            j + 1
        };
    }
    assert(lines_from(s, i as int) =~= Seq::<Seq<char>>::empty());
    assert(out@.map_values(|x: String| x@) =~= lines_from(s, 0));
    out
}

/// Every line of `text` with `prefix` in front, joined by newlines.
pub fn textwrap_indent(text: &str, prefix: &str) -> (r: String)
    ensures
        r@ == indented(text@, prefix@),
{
    let lines = split_lines(text);
    let ghost ls = lines@.map_values(|x: String| x@);
    let mut out: Vec<String> = Vec::new();
    let mut i: usize = 0;
    while i < lines.len()
        invariant
            ls == lines@.map_values(|x: String| x@),
            i <= lines@.len(),
            out@.map_values(|x: String| x@) == ls.subrange(0, i as int).map_values(|l: Seq<char>| prefix@ + l),
        decreases lines@.len() - i,
    {
        let p = crate::text::concat2(prefix, lines[i].as_str());
        let ghost before = out@;
        out.push(p);
        assert(out@.map_values(|x: String| x@) =~= before.map_values(|x: String| x@).push(p@));
        assert(ls.subrange(0, i + 1).map_values(|l: Seq<char>| prefix@ + l) =~= ls.subrange(0, i as int).map_values(
            |l: Seq<char>| prefix@ + l,
        ).push(prefix@ + ls[i as int]));
        i = i + 1;
    }
    assert(ls.subrange(0, i as int) =~= ls);
    join_messages(out.as_slice(), "\n")
}

/// Top border of the spec detail, titled.
pub open spec fn spec_header() -> Seq<char> {
    "┌ ━━━━━━━━━━━━━━━━━━━━━━━━━━━━━━━━━━━━ Spec ━━━━━━━━━━━━━━━━━━━━━━━━━━━━━━━━━━━━┐\n"@
}

/// Top border of the criterion detail, titled.
pub open spec fn ac_header() -> Seq<char> {
    "┌ ━━━━━━━━━━━━━━━━━━━━━━━━━━━━ Acceptance Criterion ━━━━━━━━━━━━━━━━━━━━━━━━━━━━┐\n"@
}

/// Middle rule of the detail pane.
pub open spec fn middle_rule() -> Seq<char> {
    "┣━━━━━━━━━━━━━━━━━━━━━━━━━━━━━━━━━━━━━━━━━━━━━━━━━━━━━━━━━━━━━━━━━━━━━━━━━━━━━━━━┨\n"@
}

/// Bottom border of the detail pane.
pub open spec fn bottom_rule() -> Seq<char> {
    "┗━━━━━━━━━━━━━━━━━━━━━━━━━━━━━━━━━━━━━━━━━━━━━━━━━━━━━━━━━━━━━━━━━━━━━━━━━━━━━━━━┛"@
}

/// The line of a criterion under its spec in the spec detail.
pub open spec fn ac_summary_line(a: AcceptanceCriterion) -> Seq<char> {
    "      ├ "@ + a.slug@ + " — "@ + a.title@ + " (risk="@ + a.risk_level.db_label() + " review="@
        + a.review_mode.db_label() + ")"@
}

/// Summary lines of the criteria of spec `id`, in graph order.
pub open spec fn ac_summary_lines(acs: Seq<AcceptanceCriterion>, id: Seq<char>) -> Seq<Seq<char>>
    decreases acs.len(),
{
    if acs.len() == 0 {
        Seq::empty()
    } else {
        let rest = ac_summary_lines(acs.drop_last(), id);
        if acs.last().spec_id@ == id {
            rest.push(ac_summary_line(acs.last()))
        } else {
            rest
        }
    }
}

/// The level, status and description the spec detail shows: the draft's pending ones when
/// a spec draft is given.
pub open spec fn spec_shown(s: Spec, draft: Option<Draft>) -> (Seq<char>, Seq<char>, Seq<char>) {
    match draft {
        Some(Draft::Spec { pending_level, pending_status, pending_description, .. }) => (
            pending_level.db_label(),
            pending_status.db_label(),
            match pending_description {
                Some(d) => d@,
                None => s.description@,
            },
        ),
        _ => (s.level.db_label(), s.status.db_label(), s.description@),
    }
}

/// The spec detail text.
pub open spec fn spec_detail_text(s: Spec, draft: Option<Draft>, acs: Seq<AcceptanceCriterion>, changes: Seq<char>) -> Seq<char> {
    let (level, status, desc) = spec_shown(s, draft);
    let lines = ac_summary_lines(acs, s.id@);
    spec_header() + "┃  ID       │ "@ + s.id@ + "    \n┃  Slug     │ "@ + s.slug@ + "    \n┃  Title    │ "@
        + s.title@ + "    \n┃  Level    │ "@ + level + "    \n┃  Status   │ "@ + status + "    \n"@
        + middle_rule() + "┃  Description:"@ + changes + "    \n"@ + indented(desc, "┃  "@) + "\n"@ + (
    if lines.len() == 0 {
        Seq::empty()
    } else {
        "┃\n┃  Acceptance Criteria:\n"@ + joined(lines, "\n"@) + "\n"@
    }) + "\n"@ + bottom_rule()
}

fn ac_summary_line_text(a: &AcceptanceCriterion) -> (r: String)
    ensures
        r@ == ac_summary_line(*a),
{
    let mut v: Vec<char> = Vec::new();
    append_str(&mut v, "      ├ ");
    append_str(&mut v, a.slug.as_str());
    append_str(&mut v, " — ");
    append_str(&mut v, a.title.as_str());
    append_str(&mut v, " (risk=");
    append_str(&mut v, a.risk_level.as_db_str());
    append_str(&mut v, " review=");
    append_str(&mut v, a.review_mode.as_db_str());
    append_str(&mut v, ")");
    string_from_chars(v.as_slice())
}

/// The detail text of a spec, with a draft of it if one is open and the criteria of the
/// graph.
pub fn detail_spec_content(s: &Spec, draft: Option<&Draft>, graph: &SpecGraph, changes: &str) -> (r: String)
    ensures
        r@ == spec_detail_text(*s, match draft { Some(d) => Some(*d), None => None }, graph.acceptance_criteria@, changes@),
{
    let ghost dopt = match draft { Some(d) => Some(*d), None => None::<Draft> };
    let (level, status, desc): (&str, &str, &str) = match draft {
        Some(Draft::Spec { pending_level, pending_status, pending_description, .. }) => (
            pending_level.as_db_str(),
            pending_status.as_db_str(),
            match pending_description {
                Some(d) => d.as_str(),
                None => s.description.as_str(),
            },
        ),
        _ => (s.level.as_db_str(), s.status.as_db_str(), s.description.as_str()),
    };
    assert((level@, status@, desc@) == spec_shown(*s, dopt));
    let ghost acs = graph.acceptance_criteria@;
    let mut lines: Vec<String> = Vec::new();
    let mut i: usize = 0;
    while i < graph.acceptance_criteria.len()
        invariant
            acs == graph.acceptance_criteria@,
            i <= acs.len(),
            lines@.map_values(|x: String| x@) == ac_summary_lines(acs.subrange(0, i as int), s.id@),
        decreases acs.len() - i,
    {
        let a = &graph.acceptance_criteria[i];
        let ghost before = lines@;
        assert(acs.subrange(0, i + 1).drop_last() =~= acs.subrange(0, i as int));
        if str_eq(a.spec_id.as_str(), s.id.as_str()) {
            lines.push(ac_summary_line_text(a));
            assert(lines@.map_values(|x: String| x@) =~= before.map_values(|x: String| x@).push(ac_summary_line(*a)));
        }
        i = i + 1;
    }
    assert(acs.subrange(0, acs.len() as int) =~= acs);
    let mut v: Vec<char> = Vec::new();
    append_str(&mut v, "┌ ━━━━━━━━━━━━━━━━━━━━━━━━━━━━━━━━━━━━ Spec ━━━━━━━━━━━━━━━━━━━━━━━━━━━━━━━━━━━━┐\n");
    append_str(&mut v, "┃  ID       │ ");
    append_str(&mut v, s.id.as_str());
    append_str(&mut v, "    \n┃  Slug     │ ");
    append_str(&mut v, s.slug.as_str());
    append_str(&mut v, "    \n┃  Title    │ ");
    append_str(&mut v, s.title.as_str());
    append_str(&mut v, "    \n┃  Level    │ ");
    append_str(&mut v, level);
    append_str(&mut v, "    \n┃  Status   │ ");
    append_str(&mut v, status);
    append_str(&mut v, "    \n");
    append_str(&mut v, "┣━━━━━━━━━━━━━━━━━━━━━━━━━━━━━━━━━━━━━━━━━━━━━━━━━━━━━━━━━━━━━━━━━━━━━━━━━━━━━━━━┨\n");
    append_str(&mut v, "┃  Description:");
    append_str(&mut v, changes);
    append_str(&mut v, "    \n");
    append_str(&mut v, textwrap_indent(desc, "┃  ").as_str());
    append_str(&mut v, "\n");
    if lines.len() > 0 {
        append_str(&mut v, "┃\n┃  Acceptance Criteria:\n");
        append_str(&mut v, join_messages(lines.as_slice(), "\n").as_str());
        append_str(&mut v, "\n");
    }
    append_str(&mut v, "\n");
    append_str(&mut v, "┗━━━━━━━━━━━━━━━━━━━━━━━━━━━━━━━━━━━━━━━━━━━━━━━━━━━━━━━━━━━━━━━━━━━━━━━━━━━━━━━━┛");
    proof {
        reveal_strlit("");
    }
    assert(v@ =~= spec_detail_text(*s, dopt, acs, changes@));
    string_from_chars(v.as_slice())
}

/// What the criterion detail shows for review, risk, the intent marker and the intent:
/// the draft's pending ones when a criterion draft is given.
pub open spec fn ac_shown(a: AcceptanceCriterion, draft: Option<Draft>) -> (Seq<char>, Seq<char>, Seq<char>, Seq<char>) {
    match draft {
        Some(Draft::Ac { pending_review_mode, pending_risk_level, pending_intent, .. }) => (
            pending_review_mode.db_label(),
            pending_risk_level.db_label(),
            if pending_intent is Some {
                "  [modified]"@
            } else {
                Seq::empty()
            },
            match pending_intent {
                Some(i) => i@,
                None => a.intent@,
            },
        ),
        _ => (a.review_mode.db_label(), a.risk_level.db_label(), Seq::empty(), a.intent@),
    }
}

/// The criterion detail text.
pub open spec fn ac_detail_text(a: AcceptanceCriterion, draft: Option<Draft>, status: Option<AcVerifyOverallStatus>) -> Seq<char> {
    let (review, risk, changes, intent) = ac_shown(a, draft);
    ac_header() + "┃  ID         │ "@ + a.id@ + "    \n┃  Spec ID    │ "@ + a.spec_id@
        + "    \n┃  Slug       │ "@ + a.slug@ + "    \n┃  Title      │ "@ + a.title@
        + "    \n┃  Review     │ "@ + review + "    \n┃  Risk       │ "@ + risk
        + "    \n┃  Concerns   │ "@ + joined(a.concerns@.map_values(|k: ConcernKind| k.db_label()), ", "@)
        + "    \n┃  Verify     │ "@ + description_text(status) + "    \n"@ + middle_rule()
        + "┃  Intent:"@ + changes + "    \n"@ + indented(intent, "┃  "@) + "\n"@ + bottom_rule()
}

/// The detail text of a criterion, with a draft of it if one is open and its recorded
/// verification status.
pub fn detail_ac_content(a: &AcceptanceCriterion, draft: Option<&Draft>, app: &AppState) -> (r: String)
    requires
        app.wf(),
    ensures
        r@ == ac_detail_text(*a, match draft { Some(d) => Some(*d), None => None }, status_of(app.verification_statuses@, a.id@)),
{
    let ghost dopt = match draft { Some(d) => Some(*d), None => None::<Draft> };
    proof {
        reveal_strlit("");
    }
    let (review, risk, changes, intent): (&str, &str, &str, &str) = match draft {
        Some(Draft::Ac { pending_review_mode, pending_risk_level, pending_intent, .. }) => (
            pending_review_mode.as_db_str(),
            pending_risk_level.as_db_str(),
            if pending_intent.is_some() {
                "  [modified]"
            } else {
                ""
            },
            match pending_intent {
                Some(i) => i.as_str(),
                None => a.intent.as_str(),
            },
        ),
        _ => (a.review_mode.as_db_str(), a.risk_level.as_db_str(), "", a.intent.as_str()),
    };
    assert((review@, risk@, changes@, intent@) == ac_shown(*a, dopt));
    let mut labels: Vec<String> = Vec::new();
    let mut i: usize = 0;
    while i < a.concerns.len()
        invariant
            i <= a.concerns@.len(),
            labels@.map_values(|x: String| x@) == a.concerns@.subrange(0, i as int).map_values(|k: ConcernKind| k.db_label()),
        decreases a.concerns@.len() - i,
    {
        let ghost before = labels@;
        labels.push(owned(a.concerns[i].as_db_str()));
        assert(labels@.map_values(|x: String| x@) =~= before.map_values(|x: String| x@).push(a.concerns@[i as int].db_label()));
        assert(a.concerns@.subrange(0, i + 1).map_values(|k: ConcernKind| k.db_label()) =~= a.concerns@.subrange(0, i as int).map_values(|k: ConcernKind| k.db_label()).push(a.concerns@[i as int].db_label()));
        i = i + 1;
    }
    assert(a.concerns@.subrange(0, a.concerns@.len() as int) =~= a.concerns@);
    let verification = verification_description(lookup_status(&app.verification_statuses, a.id.as_str()));
    let mut v: Vec<char> = Vec::new();
    append_str(&mut v, "┌ ━━━━━━━━━━━━━━━━━━━━━━━━━━━━ Acceptance Criterion ━━━━━━━━━━━━━━━━━━━━━━━━━━━━┐\n");
    append_str(&mut v, "┃  ID         │ ");
    append_str(&mut v, a.id.as_str());
    append_str(&mut v, "    \n┃  Spec ID    │ ");
    append_str(&mut v, a.spec_id.as_str());
    append_str(&mut v, "    \n┃  Slug       │ ");
    append_str(&mut v, a.slug.as_str());
    append_str(&mut v, "    \n┃  Title      │ ");
    append_str(&mut v, a.title.as_str());
    append_str(&mut v, "    \n┃  Review     │ ");
    append_str(&mut v, review);
    append_str(&mut v, "    \n┃  Risk       │ ");
    append_str(&mut v, risk);
    append_str(&mut v, "    \n┃  Concerns   │ ");
    append_str(&mut v, join_messages(labels.as_slice(), ", ").as_str());
    append_str(&mut v, "    \n┃  Verify     │ ");
    append_str(&mut v, verification.as_str());
    append_str(&mut v, "    \n");
    append_str(&mut v, "┣━━━━━━━━━━━━━━━━━━━━━━━━━━━━━━━━━━━━━━━━━━━━━━━━━━━━━━━━━━━━━━━━━━━━━━━━━━━━━━━━┨\n");
    append_str(&mut v, "┃  Intent:");
    append_str(&mut v, changes);
    append_str(&mut v, "    \n");
    append_str(&mut v, textwrap_indent(intent, "┃  ").as_str());
    append_str(&mut v, "\n");
    append_str(&mut v, "┗━━━━━━━━━━━━━━━━━━━━━━━━━━━━━━━━━━━━━━━━━━━━━━━━━━━━━━━━━━━━━━━━━━━━━━━━━━━━━━━━┛");
    assert(v@ =~= ac_detail_text(*a, dopt, status_of(app.verification_statuses@, a.id@)));
    string_from_chars(v.as_slice())
}

/// The detail of spec `spec_id`, or a note that the graph has no such spec.
pub fn detail_spec_or_not_found(app: &AppState, graph: &SpecGraph, spec_id: &str, changes: &str) -> (r: String)
    ensures
        r@ == match first_spec_index(graph.specs@, spec_id@) {
            Some(i) => spec_detail_text(
                graph.specs@[i],
                match app.draft {
                    Some(d) => if draft_id(d) == spec_id@ { Some(d) } else { None },
                    None => None,
                },
                graph.acceptance_criteria@,
                changes@,
            ),
            None => "Spec not found"@,
        },
{
    match find_spec(&graph.specs, spec_id) {
        Some(i) => detail_spec_content(&graph.specs[i], find_draft(app, spec_id), graph, changes),
        None => owned("Spec not found"),
    }
}

/// The detail of criterion `ac_id`, or a note that the graph has no such criterion.
pub fn detail_ac_or_not_found(app: &AppState, graph: &SpecGraph, ac_id: &str) -> (r: String)
    requires
        app.wf(),
    ensures
        r@ == match first_ac_index(graph.acceptance_criteria@, ac_id@) {
            Some(i) => ac_detail_text(
                graph.acceptance_criteria@[i],
                match app.draft {
                    Some(d) => if draft_id(d) == ac_id@ { Some(d) } else { None },
                    None => None,
                },
                status_of(app.verification_statuses@, graph.acceptance_criteria@[i].id@),
            ),
            None => "AC not found"@,
        },
{
    match find_ac(&graph.acceptance_criteria, ac_id) {
        Some(i) => detail_ac_content(&graph.acceptance_criteria[i], find_draft(app, ac_id), app),
        None => owned("AC not found"),
    }
}

/// The detail pane: the spec or criterion the tree selection shows, marked when an open
/// draft has changes; a prompt when nothing is selected.
pub fn detail_content(app: &AppState, graph: &SpecGraph) -> (r: String)
    requires
        app.wf(),
    ensures
        r@ == match crate::tui::tree::opt_view(app.detail_spec_id) {
            Some(sid) => match first_spec_index(graph.specs@, sid) {
                Some(i) => spec_detail_text(
                    graph.specs@[i],
                    match app.draft {
                        Some(d) => if draft_id(d) == sid { Some(d) } else { None },
                        None => None,
                    },
                    graph.acceptance_criteria@,
                    if (match app.draft { Some(d) => d.dirty(), None => false }) {
                        "  [modified]"@
                    } else {
                        Seq::empty()
                    },
                ),
                None => "Spec not found"@,
            },
            None => match crate::tui::tree::opt_view(app.detail_ac_id) {
                Some(aid) => match first_ac_index(graph.acceptance_criteria@, aid) {
                    Some(i) => ac_detail_text(
                        graph.acceptance_criteria@[i],
                        match app.draft {
                            Some(d) => if draft_id(d) == aid { Some(d) } else { None },
                            None => None,
                        },
                        status_of(app.verification_statuses@, graph.acceptance_criteria@[i].id@),
                    ),
                    None => "AC not found"@,
                },
                None => "Select a spec or AC from the tree"@,
            },
        },
{
    let dirty = match &app.draft {
        Some(d) => d.is_dirty(),
        None => false,
    };
    proof {
        reveal_strlit("");
    }
    let changes = if dirty {
        "  [modified]"
    } else {
        ""
    };
    match &app.detail_spec_id {
        Some(sid) => detail_spec_or_not_found(app, graph, sid.as_str(), changes),
        None => match &app.detail_ac_id {
            Some(aid) => detail_ac_or_not_found(app, graph, aid.as_str()),
            None => owned("Select a spec or AC from the tree"),
        },
    }
}
} // verus!
