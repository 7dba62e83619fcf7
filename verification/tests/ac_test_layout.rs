use coherence_core_db::ac_test_layout::{
    depends_on_parent_map, expected_rust_ac_test_files, skeleton_rust_content, slug_to_rust_ident, spec_slug_path,
};
use coherence_core_db::models::{AcceptanceCriterion, Spec, SpecGraph, SpecRelation};

#[test]
fn slug_to_rust_ident_hyphen_example() {
    assert_eq!(
        slug_to_rust_ident("rejects-malformed-url"),
        "validates_rejects_malformed_url"
    );
}

#[test]
fn slug_to_rust_ident_no_double_validates_prefix() {
    assert_eq!(slug_to_rust_ident("validates-already"), "validates_already");
}

#[test]
fn slug_to_rust_ident_sanitizes_weird_chars() {
    assert_eq!(slug_to_rust_ident("weird!!slug--1"), "validates_weird_slug_1");
}

#[test]
fn file_path_uses_ac_slug_not_title() {
    let mut ac = AcceptanceCriterion::new("AC-1", "SPEC-ROOT", "Human Readable Title");
    ac.slug = "machine-slug".to_string();

    let g = SpecGraph::new(vec![Spec::new("SPEC-ROOT", "Root")], vec![ac], vec![]);

    let files = expected_rust_ac_test_files(&g);
    assert_eq!(files.len(), 1);
    assert!(
        files[0].file_path.ends_with("tests/ac_machine-slug.rs"),
        "got {}",
        files[0].file_path
    );
    assert!(!files[0].file_path.contains("human"));
}

#[test]
fn multi_segment_path_walks_depends_on_chain() {
    let mut root = Spec::new("SPEC-COREDB", "Coherence core DB");
    root.slug = "coredb".into();
    let mut child = Spec::new("SPEC-CODE-LINKS", "Code links");
    child.slug = "code-links".into();

    let rel = SpecRelation::new("REL-1", "SPEC-CODE-LINKS", "SPEC-COREDB", "depends_on", "");

    let mut ac = AcceptanceCriterion::new("AC-1", "SPEC-CODE-LINKS", "t");
    ac.slug = "rejects-malformed-url".into();

    let g = SpecGraph::new(vec![root, child], vec![ac], vec![rel]);

    let files = expected_rust_ac_test_files(&g);
    assert_eq!(files.len(), 1);
    assert_eq!(files[0].file_path, "tests/ac_rejects-malformed-url.rs");
    assert_eq!(
        files[0].test_command,
        "cargo test -p coherence-core-db-bootstrap validates_rejects_malformed_url"
    );
    assert!(files[0]
        .content
        .contains("fn validates_rejects_malformed_url()"));
}

#[test]
fn ignores_non_depends_on_relations_for_path() {
    let a = Spec::new("SPEC-A", "A");
    let b = Spec::new("SPEC-B", "B");
    let rel = SpecRelation::new("REL-1", "SPEC-B", "SPEC-A", "see_also", "");
    let ac = AcceptanceCriterion::new("AC-1", "SPEC-B", "t");
    let g = SpecGraph::new(vec![a, b], vec![ac], vec![rel]);
    let files = expected_rust_ac_test_files(&g);
    assert_eq!(files[0].file_path, "tests/ac_ac-1.rs");
}

#[test]
fn expected_files_sorted_by_id_and_skip_unknown_specs() {
    let s = Spec::new("S", "s");
    let a3 = AcceptanceCriterion::new("AC-3", "S", "t");
    let a1 = AcceptanceCriterion::new("AC-1", "S", "t");
    let orphan = AcceptanceCriterion::new("AC-0", "NOPE", "t");
    let a2 = AcceptanceCriterion::new("AC-2", "S", "t");
    let g = SpecGraph::new(vec![s], vec![a3, a1, orphan, a2], vec![]);
    let ids: Vec<String> = expected_rust_ac_test_files(&g).into_iter().map(|f| f.ac_id).collect();
    assert_eq!(ids, vec!["AC-1", "AC-2", "AC-3"]);
}

#[test]
fn slug_to_rust_ident_empty_and_trailing_separators() {
    assert_eq!(slug_to_rust_ident(""), "validates_ac_test");
    assert_eq!(slug_to_rust_ident("!!--"), "validates_ac_test");
    assert_eq!(slug_to_rust_ident("Abc--"), "validates_abc");
    assert_eq!(slug_to_rust_ident("validates_"), "validates_validates");
}

#[test]
fn skeleton_rust_content_exact_text() {
    assert_eq!(
        skeleton_rust_content("AC-9", "validates_x"),
        "//! AC: AC-9\n//! Generated by coherence-core-db MVP AC test layout.\n\n#[test]\nfn validates_x() {\n    todo!(\"Implement AC-9\");\n}\n"
    );
}

fn spec_with_slug(id: &str, slug: &str) -> Spec {
    let mut s = Spec::new(id, id);
    s.slug = slug.to_string();
    s
}

fn pair(a: &str, b: &str) -> (String, String) {
    (a.to_string(), b.to_string())
}

#[test]
fn parent_map_keeps_least_depends_on_target() {
    let rels = vec![
        SpecRelation::new("R1", "C", "B", "depends_on", ""),
        SpecRelation::new("R2", "C", "A", "depends_on", ""),
        SpecRelation::new("R3", "B", "A", "depends_on", ""),
        SpecRelation::new("R4", "B", "0", "see_also", ""),
        SpecRelation::new("R5", "C", "Z", "depends_on", ""),
    ];
    assert_eq!(depends_on_parent_map(&rels), vec![pair("C", "A"), pair("B", "A")]);
}

#[test]
fn slug_path_walks_parents_root_first() {
    let specs = vec![spec_with_slug("A", "a"), spec_with_slug("B", "b"), spec_with_slug("C", "c")];
    let rels = vec![
        SpecRelation::new("R1", "C", "B", "depends_on", ""),
        SpecRelation::new("R2", "B", "A", "depends_on", ""),
    ];
    let parents = depends_on_parent_map(&rels);
    assert_eq!(spec_slug_path("C", &specs, &parents), vec!["a", "b", "c"]);
    assert_eq!(spec_slug_path("A", &specs, &parents), vec!["a"]);
}

#[test]
fn slug_path_stops_at_cycles_and_unknown_parents() {
    let specs = vec![spec_with_slug("A", "a"), spec_with_slug("B", "b"), spec_with_slug("C", "c")];
    let cyclic = vec![pair("A", "B"), pair("B", "A")];
    assert_eq!(spec_slug_path("A", &specs, &cyclic), vec!["b", "a"]);
    let dangling = vec![pair("C", "X")];
    assert_eq!(spec_slug_path("C", &specs, &dangling), vec!["c"]);
    assert!(spec_slug_path("Q", &specs, &dangling).is_empty());
}

#[test]
fn slug_path_uses_last_spec_with_an_id() {
    let specs = vec![spec_with_slug("A", "first"), spec_with_slug("A", "second")];
    assert_eq!(spec_slug_path("A", &specs, &[]), vec!["second"]);
}
