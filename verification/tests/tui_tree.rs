use coherence_core_db::models::{AcceptanceCriterion, Spec, SpecGraph, SpecLevel};
use coherence_core_db::tui::tree::{build_tree, toggle_expand, update_preview, TreeItem};

fn make_graph(specs: Vec<Spec>, acs: Vec<AcceptanceCriterion>) -> SpecGraph {
    SpecGraph::new(specs, acs, vec![])
}

#[test]
fn build_tree_empty_graph_yields_empty_items() {
    let graph = make_graph(vec![], vec![]);
    let mut items = Vec::new();
    build_tree(&mut items, &graph);
    assert!(items.is_empty());
}

#[test]
fn build_tree_creates_level_headers() {
    let s1 = Spec::new("S1", "spec one");
    let graph = make_graph(vec![s1], vec![]);
    let mut items = Vec::new();
    build_tree(&mut items, &graph);
    assert_eq!(items.len(), 1);
    assert_eq!(items[0].label, "Module");
    assert!(items[0].has_children);
    assert!(!items[0].expanded);
}

#[test]
fn toggle_expand_expands_specs_under_level() {
    let s1 = Spec::new("S1", "spec one");
    let graph = make_graph(vec![s1.clone()], vec![]);
    let mut items = Vec::new();
    build_tree(&mut items, &graph);
    toggle_expand(&mut items, 0, &graph);
    assert!(items[0].expanded);
    assert_eq!(items.len(), 2);
    assert_eq!(items[1].label, "s1  ");
    assert!(items[1].is_spec);
}

#[test]
fn toggle_expand_expands_component_and_foundation_specs() {
    let mut component = Spec::new("S1", "component spec");
    component.level = SpecLevel::Component;
    let mut foundation = Spec::new("S2", "foundation spec");
    foundation.level = SpecLevel::Foundation;
    let graph = make_graph(vec![component, foundation], vec![]);
    let mut items = Vec::new();
    build_tree(&mut items, &graph);

    assert_eq!(items[0].label, "Component");
    assert_eq!(items[1].label, "Foundation");

    toggle_expand(&mut items, 0, &graph);
    assert_eq!(items[1].label, "s1  ");

    toggle_expand(&mut items, 2, &graph);
    assert_eq!(items[3].label, "s2  ");
}

#[test]
fn toggle_expand_collapses_specs() {
    let s1 = Spec::new("S1", "spec one");
    let graph = make_graph(vec![s1.clone()], vec![]);
    let mut items = Vec::new();
    build_tree(&mut items, &graph);
    toggle_expand(&mut items, 0, &graph);
    assert_eq!(items.len(), 2);
    toggle_expand(&mut items, 0, &graph);
    assert_eq!(items.len(), 1);
    assert!(!items[0].expanded);
}

#[test]
fn toggle_expand_expands_acs_under_spec() {
    let s1 = Spec::new("S1", "spec one");
    let ac1 = AcceptanceCriterion::new("AC1", "S1", "ac one");
    let graph = make_graph(vec![s1], vec![ac1]);
    let mut items = Vec::new();
    build_tree(&mut items, &graph);
    toggle_expand(&mut items, 0, &graph);
    assert_eq!(items.len(), 2);
    toggle_expand(&mut items, 1, &graph);
    assert_eq!(items.len(), 3);
}

fn row(indent: usize, label: &str, id: &str, is_spec: bool, has_children: bool, parent: Option<&str>) -> TreeItem {
    TreeItem {
        indent,
        label: label.into(),
        id: id.into(),
        is_spec,
        expanded: false,
        has_children,
        parent_spec_id: parent.map(|p| p.to_string()),
    }
}

#[test]
fn update_preview_returns_spec_id_for_spec() {
    let items = vec![
        row(0, "Module", "", false, true, None),
        row(1, "S1", "S1", true, false, None),
    ];
    let (sid, aid) = update_preview(&items, 1);
    assert_eq!(sid, Some("S1".into()));
    assert_eq!(aid, None);
}

#[test]
fn update_preview_returns_ac_id_for_ac() {
    let items = vec![
        row(0, "Module", "", false, true, None),
        row(1, "S1", "S1", true, false, None),
        row(2, "ac1", "AC1", false, false, Some("S1")),
    ];
    let (sid, aid) = update_preview(&items, 2);
    assert_eq!(sid, None);
    assert_eq!(aid, Some("AC1".into()));
}

#[test]
fn expand_then_collapse_restores_rows_with_counts() {
    let s1 = Spec::new("S1", "one");
    let mut s2 = Spec::new("S2", "two");
    s2.level = SpecLevel::Product;
    let acs: Vec<AcceptanceCriterion> = (0..12)
        .map(|i| AcceptanceCriterion::new(&format!("AC{i}"), "S1", "t"))
        .collect();
    let graph = make_graph(vec![s1, s2], acs);
    let mut items = Vec::new();
    build_tree(&mut items, &graph);
    let labels = |v: &Vec<TreeItem>| v.iter().map(|t| t.label.clone()).collect::<Vec<_>>();
    assert_eq!(labels(&items), vec!["Product", "Module"]);
    let before = labels(&items);
    toggle_expand(&mut items, 1, &graph);
    assert_eq!(items[2].label, "s1  (12)");
    assert!(items[2].has_children);
    toggle_expand(&mut items, 2, &graph);
    assert_eq!(items.len(), 15);
    assert_eq!(items[3].label, "  ac0");
    assert_eq!(items[3].parent_spec_id.as_deref(), Some("S1"));
    toggle_expand(&mut items, 1, &graph);
    assert_eq!(labels(&items), before);
    assert!(!items[1].expanded);
}

#[test]
fn toggle_expand_out_of_range_or_leaf_changes_nothing() {
    let graph = make_graph(vec![Spec::new("S1", "x")], vec![]);
    let mut items = vec![row(1, "leaf", "L", true, false, None)];
    toggle_expand(&mut items, 0, &graph);
    toggle_expand(&mut items, 5, &graph);
    assert_eq!(items.len(), 1);
    assert!(!items[0].expanded);
    let mut odd = vec![row(0, "Elsewhere", "", false, true, None)];
    toggle_expand(&mut odd, 0, &graph);
    assert!(!odd[0].expanded);
}
