//! Navigation tree over the spec graph: level headers, specs under a level, and
//! acceptance criteria under a spec.
use vstd::prelude::*;

use crate::models::{AcceptanceCriterion, Spec, SpecGraph, SpecLevel};
use crate::text::{append_decimal, append_str, decimal, owned, str_eq, string_from_chars};

verus! {

/// One row of the navigation tree.
pub struct TreeItem {
    pub indent: usize,
    pub label: String,
    pub id: String,
    pub is_spec: bool,
    pub expanded: bool,
    pub has_children: bool,
    pub parent_spec_id: Option<String>,
}

/// A tree row as plain values.
pub struct RowView {
    pub indent: usize,
    pub label: Seq<char>,
    pub id: Seq<char>,
    pub is_spec: bool,
    pub expanded: bool,
    pub has_children: bool,
    pub parent_spec_id: Option<Seq<char>>,
}

/// View of an optional string.
pub open spec fn opt_view(o: Option<String>) -> Option<Seq<char>> {
    match o {
        Some(s) => Some(s@),
        None => None,
    }
}

impl View for TreeItem {
    type V = RowView;

    open spec fn view(&self) -> RowView {
        RowView {
            indent: self.indent,
            label: self.label@,
            id: self.id@,
            is_spec: self.is_spec,
            expanded: self.expanded,
            has_children: self.has_children,
            parent_spec_id: opt_view(self.parent_spec_id),
        }
    }
}

/// Views of a list of rows.
pub open spec fn rows_view(s: Seq<TreeItem>) -> Seq<RowView> {
    s.map_values(|t: TreeItem| t@)
}

fn clone_opt(o: &Option<String>) -> (r: Option<String>)
    ensures
        opt_view(r) == opt_view(*o),
{
    match o {
        Some(s) => Some(s.clone()),
        None => None,
    }
}

impl Clone for TreeItem {
    fn clone(&self) -> (r: Self)
        ensures
            r@ == self@,
    {
        TreeItem {
            indent: self.indent,
            label: self.label.clone(),
            id: self.id.clone(),
            is_spec: self.is_spec,
            expanded: self.expanded,
            has_children: self.has_children,
            parent_spec_id: clone_opt(&self.parent_spec_id),
        }
    }
}

/// Header text of a level row.
pub open spec fn level_title(l: SpecLevel) -> Seq<char> {
    match l {
        SpecLevel::Product => "Product"@,
        SpecLevel::System => "System"@,
        SpecLevel::Module => "Module"@,
        SpecLevel::Component => "Component"@,
        SpecLevel::Foundation => "Foundation"@,
    }
}

/// The level whose header text is `s`, if any.
pub open spec fn level_of_title(s: Seq<char>) -> Option<SpecLevel> {
    if s == "Product"@ {
        Some(SpecLevel::Product)
    } else if s == "System"@ {
        Some(SpecLevel::System)
    } else if s == "Module"@ {
        Some(SpecLevel::Module)
    } else if s == "Component"@ {
        Some(SpecLevel::Component)
    } else if s == "Foundation"@ {
        Some(SpecLevel::Foundation)
    } else {
        None
    }
}

fn level_title_str(l: SpecLevel) -> (r: &'static str)
    ensures
        r@ == level_title(l),
{
    match l {
        SpecLevel::Product => "Product",
        SpecLevel::System => "System",
        SpecLevel::Module => "Module",
        SpecLevel::Component => "Component",
        SpecLevel::Foundation => "Foundation",
    }
}

/// The level named by a header label.
pub fn level_from_label(label: &str) -> (r: Option<SpecLevel>)
    ensures
        r == level_of_title(label@),
{
    if str_eq(label, "Product") {
        Some(SpecLevel::Product)
    } else if str_eq(label, "System") {
        Some(SpecLevel::System)
    } else if str_eq(label, "Module") {
        Some(SpecLevel::Module)
    } else if str_eq(label, "Component") {
        Some(SpecLevel::Component)
    } else if str_eq(label, "Foundation") {
        Some(SpecLevel::Foundation)
    } else {
        None
    }
}

/// The collapsed header row of a level.
pub open spec fn header_row(l: SpecLevel) -> RowView {
    RowView {
        indent: 0,
        label: level_title(l),
        id: Seq::empty(),
        is_spec: false,
        expanded: false,
        has_children: true,
        parent_spec_id: None,
    }
}

/// Some spec sits at level `l`.
pub open spec fn has_level(specs: Seq<Spec>, l: SpecLevel) -> bool {
    exists|i: int| 0 <= i < specs.len() && (#[trigger] specs[i]).level == l
}

/// The header of `l` when some spec sits at that level.
pub open spec fn header_if(specs: Seq<Spec>, l: SpecLevel) -> Seq<RowView> {
    if has_level(specs, l) {
        seq![header_row(l)]
    } else {
        Seq::empty()
    }
}

/// The initial tree: one collapsed header per level that has specs, from product down.
pub open spec fn headers(specs: Seq<Spec>) -> Seq<RowView> {
    header_if(specs, SpecLevel::Product) + header_if(specs, SpecLevel::System) + header_if(
        specs,
        SpecLevel::Module,
    ) + header_if(specs, SpecLevel::Component) + header_if(specs, SpecLevel::Foundation)
}

fn header_item(l: SpecLevel) -> (r: TreeItem)
    ensures
        r@ == header_row(l),
{
    TreeItem {
        indent: 0,
        label: owned(level_title_str(l)),
        id: String::new(),
        is_spec: false,
        expanded: false,
        has_children: true,
        parent_spec_id: None,
    }
}

fn push_header_if(items: &mut Vec<TreeItem>, l: SpecLevel, present: bool)
    ensures
        rows_view(final(items)@) == rows_view(old(items)@) + (if present {
            seq![header_row(l)]
        } else {
            Seq::empty()
        }),
{
    if present {
        items.push(header_item(l));
        assert(rows_view(items@) =~= rows_view(old(items)@) + seq![header_row(l)]);
    } else {
        assert(rows_view(items@) =~= rows_view(old(items)@) + Seq::<RowView>::empty());
    }
}

/// Replaces `items` with the collapsed level headers of `graph`.
pub fn build_tree(items: &mut Vec<TreeItem>, graph: &SpecGraph)
    ensures
        rows_view(final(items)@) == headers(graph.specs@),
{
    items.clear();
    let ghost specs = graph.specs@;
    let mut has_product = false;
    let mut has_system = false;
    let mut has_module = false;
    let mut has_component = false;
    let mut has_foundation = false;
    let mut i: usize = 0;
    while i < graph.specs.len()
        invariant
            specs == graph.specs@,
            i <= specs.len(),
            has_product == has_level(specs.subrange(0, i as int), SpecLevel::Product),
            has_system == has_level(specs.subrange(0, i as int), SpecLevel::System),
            has_module == has_level(specs.subrange(0, i as int), SpecLevel::Module),
            has_component == has_level(specs.subrange(0, i as int), SpecLevel::Component),
            has_foundation == has_level(specs.subrange(0, i as int), SpecLevel::Foundation),
        decreases specs.len() - i,
    {
        let ghost prev = specs.subrange(0, i as int);
        let ghost next = specs.subrange(0, i + 1);
        proof {
            assert forall|l: SpecLevel| has_level(next, l) == (has_level(prev, l) || specs[i as int].level == l) by {
                if has_level(next, l) {
                    let k = choose|k: int| 0 <= k < next.len() && (#[trigger] next[k]).level == l;
                    if k < i {
                        assert(prev[k] == next[k]);
                    }
                }
                if has_level(prev, l) {
                    let k = choose|k: int| 0 <= k < prev.len() && (#[trigger] prev[k]).level == l;
                    assert(next[k] == prev[k]);
                }
                if specs[i as int].level == l {
                    assert(next[i as int] == specs[i as int]);
                }
            }
        }
        match graph.specs[i].level {
            SpecLevel::Product => has_product = true,
            SpecLevel::System => has_system = true,
            SpecLevel::Module => has_module = true,
            SpecLevel::Component => has_component = true,
            SpecLevel::Foundation => has_foundation = true,
        }
        i = i + 1;
    }
    assert(specs.subrange(0, specs.len() as int) =~= specs);
    assert(rows_view(items@) =~= Seq::<RowView>::empty());
    push_header_if(items, SpecLevel::Product, has_product);
    push_header_if(items, SpecLevel::System, has_system);
    push_header_if(items, SpecLevel::Module, has_module);
    push_header_if(items, SpecLevel::Component, has_component);
    push_header_if(items, SpecLevel::Foundation, has_foundation);
}


/// Number of acceptance criteria of spec `spec_id`.
pub open spec fn ac_count(acs: Seq<AcceptanceCriterion>, spec_id: Seq<char>) -> nat
    decreases acs.len(),
{
    if acs.len() == 0 {
        0
    } else {
        ac_count(acs.drop_last(), spec_id) + (if acs.last().spec_id@ == spec_id {
            1nat
        } else {
            0nat
        })
    }
}

/// Suffix of a spec row: the number of its criteria in brackets, or nothing.
pub open spec fn count_suffix(n: nat) -> Seq<char> {
    if n > 0 {
        "("@ + decimal(n) + ")"@
    } else {
        Seq::empty()
    }
}

/// The collapsed row of a spec under its level header.
pub open spec fn spec_row(s: Spec, acs: Seq<AcceptanceCriterion>) -> RowView {
    RowView {
        indent: 1,
        label: s.slug@ + "  "@ + count_suffix(ac_count(acs, s.id@)),
        id: s.id@,
        is_spec: true,
        expanded: false,
        has_children: ac_count(acs, s.id@) > 0,
        parent_spec_id: None,
    }
}

/// Rows of the specs at level `l`, in graph order.
pub open spec fn spec_rows(specs: Seq<Spec>, acs: Seq<AcceptanceCriterion>, l: SpecLevel) -> Seq<RowView>
    decreases specs.len(),
{
    if specs.len() == 0 {
        Seq::empty()
    } else {
        let rest = spec_rows(specs.drop_last(), acs, l);
        if specs.last().level == l {
            rest.push(spec_row(specs.last(), acs))
        } else {
            rest
        }
    }
}

/// The row of an acceptance criterion under its spec.
pub open spec fn ac_row(a: AcceptanceCriterion) -> RowView {
    RowView {
        indent: 2,
        label: "  "@ + a.slug@,
        id: a.id@,
        is_spec: false,
        expanded: false,
        has_children: false,
        parent_spec_id: Some(a.spec_id@),
    }
}

/// Rows of the criteria of spec `spec_id`, in graph order.
pub open spec fn ac_rows(acs: Seq<AcceptanceCriterion>, spec_id: Seq<char>) -> Seq<RowView>
    decreases acs.len(),
{
    if acs.len() == 0 {
        Seq::empty()
    } else {
        let rest = ac_rows(acs.drop_last(), spec_id);
        if acs.last().spec_id@ == spec_id {
            rest.push(ac_row(acs.last()))
        } else {
            rest
        }
    }
}

/// First position from `j` on whose row is not deeper than `base` (or the end).
pub open spec fn subtree_end(rows: Seq<RowView>, base: usize, j: int) -> int
    decreases rows.len() - j,
{
    if j < rows.len() && rows[j].indent > base {
        subtree_end(rows, base, j + 1)
    } else {
        j
    }
}

/// The row with its expanded flag set to `e`.
pub open spec fn with_expanded(r: RowView, e: bool) -> RowView {
    RowView { expanded: e, ..r }
}

/// Collapsing row `idx`: its descendants go, and it is marked collapsed.
pub open spec fn collapse_rows(rows: Seq<RowView>, idx: int) -> Seq<RowView> {
    let end = subtree_end(rows, rows[idx].indent, idx + 1);
    rows.subrange(0, idx) + seq![with_expanded(rows[idx], false)] + rows.subrange(end, rows.len() as int)
}

/// Children that expanding row `r` inserts below it; `None` for a header of no known level.
pub open spec fn children_of(r: RowView, specs: Seq<Spec>, acs: Seq<AcceptanceCriterion>) -> Option<Seq<RowView>> {
    if r.indent == 0 {
        match level_of_title(r.label) {
            Some(l) => Some(spec_rows(specs, acs, l)),
            None => None,
        }
    } else if r.indent == 1 {
        Some(ac_rows(acs, r.id))
    } else {
        Some(Seq::empty())
    }
}

/// Expanding row `idx`: its children follow it, and it is marked expanded.
pub open spec fn expand_rows(
    rows: Seq<RowView>,
    idx: int,
    specs: Seq<Spec>,
    acs: Seq<AcceptanceCriterion>,
) -> Seq<RowView> {
    match children_of(rows[idx], specs, acs) {
        Some(ch) => rows.subrange(0, idx) + seq![with_expanded(rows[idx], true)] + ch + rows.subrange(
            idx + 1,
            rows.len() as int,
        ),
        None => rows,
    }
}

/// Toggling row `idx`: rows without children, and positions past the end, change nothing.
pub open spec fn toggle_rows(
    rows: Seq<RowView>,
    idx: int,
    specs: Seq<Spec>,
    acs: Seq<AcceptanceCriterion>,
) -> Seq<RowView> {
    if !(0 <= idx < rows.len()) || !rows[idx].has_children {
        rows
    } else if rows[idx].expanded {
        collapse_rows(rows, idx)
    } else {
        expand_rows(rows, idx, specs, acs)
    }
}

fn count_acs(acs: &Vec<AcceptanceCriterion>, spec_id: &str) -> (r: usize)
    ensures
        r == ac_count(acs@, spec_id@),
{
    let mut n: usize = 0;
    let mut i: usize = 0;
    while i < acs.len()
        invariant
            i <= acs@.len(),
            n <= i,
            n == ac_count(acs@.subrange(0, i as int), spec_id@),
        decreases acs@.len() - i,
    {
        assert(acs@.subrange(0, i + 1).drop_last() =~= acs@.subrange(0, i as int));
        if str_eq(acs[i].spec_id.as_str(), spec_id) {
            n = n + 1;
        }
        i = i + 1;
    }
    assert(acs@.subrange(0, acs@.len() as int) =~= acs@);
    n
}

fn spec_item(s: &Spec, acs: &Vec<AcceptanceCriterion>) -> (r: TreeItem)
    ensures
        r@ == spec_row(*s, acs@),
{
    let n = count_acs(acs, s.id.as_str());
    let mut label: Vec<char> = Vec::new();
    append_str(&mut label, s.slug.as_str());
    append_str(&mut label, "  ");
    if n > 0 {
        append_str(&mut label, "(");
        append_decimal(&mut label, n);
        append_str(&mut label, ")");
    }
    assert(label@ =~= s.slug@ + "  "@ + count_suffix(n as nat));
    TreeItem {
        indent: 1,
        label: string_from_chars(label.as_slice()),
        id: s.id.clone(),
        is_spec: true,
        expanded: false,
        has_children: n > 0,
        parent_spec_id: None,
    }
}

fn spec_items(specs: &Vec<Spec>, acs: &Vec<AcceptanceCriterion>, l: SpecLevel) -> (r: Vec<TreeItem>)
    ensures
        rows_view(r@) == spec_rows(specs@, acs@, l),
{
    let mut out: Vec<TreeItem> = Vec::new();
    let mut i: usize = 0;
    assert(rows_view(out@) =~= spec_rows(specs@.subrange(0, 0), acs@, l));
    while i < specs.len()
        invariant
            i <= specs@.len(),
            rows_view(out@) == spec_rows(specs@.subrange(0, i as int), acs@, l),
        decreases specs@.len() - i,
    {
        let ghost before = out@;
        assert(specs@.subrange(0, i + 1).drop_last() =~= specs@.subrange(0, i as int));
        if specs[i].level == l {
            out.push(spec_item(&specs[i], acs));
            assert(rows_view(out@) =~= rows_view(before).push(spec_row(specs@[i as int], acs@)));
        }
        i = i + 1;
    }
    assert(specs@.subrange(0, specs@.len() as int) =~= specs@);
    out
}

fn ac_item(a: &AcceptanceCriterion) -> (r: TreeItem)
    ensures
        r@ == ac_row(*a),
{
    let mut label: Vec<char> = Vec::new();
    append_str(&mut label, "  ");
    append_str(&mut label, a.slug.as_str());
    TreeItem {
        indent: 2,
        label: string_from_chars(label.as_slice()),
        id: a.id.clone(),
        is_spec: false,
        expanded: false,
        has_children: false,
        parent_spec_id: Some(a.spec_id.clone()),
    }
}

fn ac_items(acs: &Vec<AcceptanceCriterion>, spec_id: &str) -> (r: Vec<TreeItem>)
    ensures
        rows_view(r@) == ac_rows(acs@, spec_id@),
{
    let mut out: Vec<TreeItem> = Vec::new();
    let mut i: usize = 0;
    assert(rows_view(out@) =~= ac_rows(acs@.subrange(0, 0), spec_id@));
    while i < acs.len()
        invariant
            i <= acs@.len(),
            rows_view(out@) == ac_rows(acs@.subrange(0, i as int), spec_id@),
        decreases acs@.len() - i,
    {
        let ghost before = out@;
        assert(acs@.subrange(0, i + 1).drop_last() =~= acs@.subrange(0, i as int));
        if str_eq(acs[i].spec_id.as_str(), spec_id) {
            out.push(ac_item(&acs[i]));
            assert(rows_view(out@) =~= rows_view(before).push(ac_row(acs@[i as int])));
        }
        i = i + 1;
    }
    assert(acs@.subrange(0, acs@.len() as int) =~= acs@);
    out
}

fn subtree_end_index(items: &Vec<TreeItem>, idx: usize) -> (r: usize)
    requires
        idx < items@.len(),
    ensures
        r as int == subtree_end(rows_view(items@), items@[idx as int].indent, idx + 1),
        idx < r <= items@.len(),
{
    let ghost rows = rows_view(items@);
    let n = items.len();
    let base = items[idx].indent;
    let mut j: usize = idx + 1;
    while j < items.len() && items[j].indent > base
        invariant
            rows == rows_view(items@),
            base == items@[idx as int].indent,
            idx < j <= items@.len(),
            subtree_end(rows, base, j as int) == subtree_end(rows, base, idx + 1),
        decreases items@.len() - j,
    {
        assert(rows[j as int].indent == items@[j as int].indent);
        j = j + 1;
    }
    if j < items.len() {
        assert(rows[j as int].indent == items@[j as int].indent);
    }
    j
}

proof fn lemma_rows_view_add(a: Seq<TreeItem>, b: Seq<TreeItem>)
    ensures
        rows_view(a + b) == rows_view(a) + rows_view(b),
{
    assert(rows_view(a + b) =~= rows_view(a) + rows_view(b));
}

proof fn lemma_rows_view_subrange(s: Seq<TreeItem>, i: int, j: int)
    requires
        0 <= i <= j <= s.len(),
    ensures
        rows_view(s.subrange(i, j)) == rows_view(s).subrange(i, j),
{
    assert(rows_view(s.subrange(i, j)) =~= rows_view(s).subrange(i, j));
}

fn set_expanded(items: &mut Vec<TreeItem>, idx: usize, e: bool)
    requires
        idx < old(items)@.len(),
    ensures
        rows_view(final(items)@) == rows_view(old(items)@).update(
            idx as int,
            with_expanded(old(items)@[idx as int]@, e),
        ),
{
    let mut it = items.remove(idx);
    it.expanded = e;
    items.insert(idx, it);
    assert(rows_view(items@) =~= rows_view(old(items)@).update(
        idx as int,
        with_expanded(old(items)@[idx as int]@, e),
    ));
}

/// Expands or collapses row `idx`: a collapsed level header shows its specs, a collapsed
/// spec shows its acceptance criteria, an expanded row hides everything nested under it.
pub fn toggle_expand(items: &mut Vec<TreeItem>, idx: usize, graph: &SpecGraph)
    ensures
        rows_view(final(items)@) == toggle_rows(
            rows_view(old(items)@),
            idx as int,
            graph.specs@,
            graph.acceptance_criteria@,
        ),
{
    let ghost rows = rows_view(items@);
    if idx >= items.len() {
        return;
    }
    assert(rows[idx as int] == items@[idx as int]@);
    if !items[idx].has_children {
        return;
    }
    let is_expanded = items[idx].expanded;
    let indent = items[idx].indent;
    if is_expanded {
        let ghost old_items = items@;
        let end = subtree_end_index(items, idx);
        let mut tail = items.split_off(end);
        assert(tail@ == old_items.subrange(end as int, old_items.len() as int));
        items.truncate(idx + 1);
        assert(items@ =~= old_items.subrange(0, idx + 1));
        let ghost head = items@;
        set_expanded(items, idx, false);
        let ghost head2 = items@;
        items.append(&mut tail);
        proof {
            lemma_rows_view_subrange(old_items, 0, idx + 1);
            lemma_rows_view_subrange(old_items, end as int, old_items.len() as int);
            lemma_rows_view_add(head2, old_items.subrange(end as int, old_items.len() as int));
            assert(items@ == head2 + old_items.subrange(end as int, old_items.len() as int));
            assert(rows_view(head2) =~= rows.subrange(0, idx as int) + seq![
                with_expanded(rows[idx as int], false),
            ]);
        }
        assert(rows_view(items@) =~= collapse_rows(rows, idx as int));
    } else {
        let mut children: Vec<TreeItem> = if indent == 0 {
            match level_from_label(items[idx].label.as_str()) {
                None => {
                    return;
                },
                Some(l) => spec_items(&graph.specs, &graph.acceptance_criteria, l),
            }
        } else if indent == 1 {
            ac_items(&graph.acceptance_criteria, items[idx].id.as_str())
        } else {
            Vec::new()
        };
        let ghost ch = rows_view(children@);
        assert(children_of(rows[idx as int], graph.specs@, graph.acceptance_criteria@) == Some(ch));
        let ghost old_items = items@;
        let mut tail = items.split_off(idx + 1);
        assert(tail@ == old_items.subrange(idx + 1, old_items.len() as int));
        set_expanded(items, idx, true);
        let ghost head2 = items@;
        let ghost kids = children@;
        items.append(&mut children);
        let ghost mid = items@;
        items.append(&mut tail);
        proof {
            lemma_rows_view_subrange(old_items, 0, idx + 1);
            lemma_rows_view_subrange(old_items, idx + 1, old_items.len() as int);
            lemma_rows_view_add(head2, kids);
            lemma_rows_view_add(mid, old_items.subrange(idx + 1, old_items.len() as int));
            assert(rows_view(head2) =~= rows.subrange(0, idx as int) + seq![
                with_expanded(rows[idx as int], true),
            ]);
        }
        assert(rows_view(items@) =~= expand_rows(
            rows,
            idx as int,
            graph.specs@,
            graph.acceptance_criteria@,
        ));
    }
}


/// The detail pane for row `idx`: `(spec id, criterion id)`.
pub open spec fn preview_of(rows: Seq<RowView>, idx: int) -> (Option<Seq<char>>, Option<Seq<char>>) {
    if !(0 <= idx < rows.len()) {
        (None, None)
    } else if rows[idx].is_spec {
        (Some(rows[idx].id), None)
    } else if rows[idx].parent_spec_id is Some {
        (None, Some(rows[idx].id))
    } else {
        (None, None)
    }
}

/// Which spec or criterion row `idx` shows in the detail pane.
pub fn update_preview(items: &[TreeItem], idx: usize) -> (r: (Option<String>, Option<String>))
    ensures
        (opt_view(r.0), opt_view(r.1)) == preview_of(rows_view(items@), idx as int),
{
    if idx >= items.len() {
        return (None, None);
    }
    let item = &items[idx];
    assert(rows_view(items@)[idx as int] == item@);
    if item.is_spec {
        (Some(item.id.clone()), None)
    } else if item.parent_spec_id.is_some() {
        (None, Some(item.id.clone()))
    } else {
        (None, None)
    }
}

proof fn lemma_spec_rows_indent(specs: Seq<Spec>, acs: Seq<AcceptanceCriterion>, l: SpecLevel)
    ensures
        forall|k: int| 0 <= k < spec_rows(specs, acs, l).len() ==> (#[trigger] spec_rows(specs, acs, l)[k]).indent == 1,
    decreases specs.len(),
{
    if specs.len() > 0 {
        lemma_spec_rows_indent(specs.drop_last(), acs, l);
    }
}

proof fn lemma_ac_rows_indent(acs: Seq<AcceptanceCriterion>, spec_id: Seq<char>)
    ensures
        forall|k: int| 0 <= k < ac_rows(acs, spec_id).len() ==> (#[trigger] ac_rows(acs, spec_id)[k]).indent == 2,
    decreases acs.len(),
{
    if acs.len() > 0 {
        lemma_ac_rows_indent(acs.drop_last(), spec_id);
    }
}

proof fn lemma_subtree_end_skips(rows: Seq<RowView>, base: usize, j: int, stop: int)
    requires
        0 <= j <= stop <= rows.len(),
        forall|k: int| j <= k < stop ==> (#[trigger] rows[k]).indent > base,
        stop == rows.len() || rows[stop].indent <= base,
    ensures
        subtree_end(rows, base, j) == stop,
    decreases stop - j,
{
    if j < stop {
        lemma_subtree_end_skips(rows, base, j + 1, stop);
    }
}

/// Expanding a collapsed row and then collapsing it again gives back the tree it started
/// from, provided the row is followed by no deeper row (as in any tree these functions
/// build) and, for a level header, its label names a level.
pub proof fn lemma_expand_then_collapse(
    rows: Seq<RowView>,
    idx: int,
    specs: Seq<Spec>,
    acs: Seq<AcceptanceCriterion>,
)
    requires
        0 <= idx < rows.len(),
        rows[idx].has_children,
        !rows[idx].expanded,
        idx + 1 == rows.len() || rows[idx + 1].indent <= rows[idx].indent,
        rows[idx].indent == 0 ==> level_of_title(rows[idx].label) is Some,
    ensures
        toggle_rows(toggle_rows(rows, idx, specs, acs), idx, specs, acs) == rows,
{
    let it = rows[idx];
    let ch = children_of(it, specs, acs)->Some_0;
    let pre = rows.subrange(0, idx);
    let post = rows.subrange(idx + 1, rows.len() as int);
    let opened = with_expanded(it, true);
    let r1 = pre + seq![opened] + ch + post;
    assert(toggle_rows(rows, idx, specs, acs) == r1);
    assert(r1[idx] == opened);
    let stop = idx + 1 + ch.len();
    assert forall|k: int| idx + 1 <= k < stop implies (#[trigger] r1[k]).indent > it.indent by {
        assert(r1[k] == ch[k - idx - 1]);
        if it.indent == 0 {
            let l = level_of_title(it.label)->Some_0;
            lemma_spec_rows_indent(specs, acs, l);
        } else if it.indent == 1 {
            lemma_ac_rows_indent(acs, it.id);
        }
    }
    if stop < r1.len() {
        assert(r1[stop] == rows[idx + 1]);
    }
    lemma_subtree_end_skips(r1, it.indent, idx + 1, stop);
    assert(with_expanded(opened, false) == it);
    assert(r1.subrange(0, idx) =~= pre);
    assert(r1.subrange(stop, r1.len() as int) =~= post);
    assert(collapse_rows(r1, idx) =~= rows);
}

} // verus!
