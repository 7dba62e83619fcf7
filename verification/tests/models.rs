use coherence_core_db::models::{
    slug_from_id, AcceptanceCriterion, ConcernKind, ReviewMode, RiskLevel, Spec, SpecGraph,
    SpecLevel, SpecRelation, SpecStatus,
};

#[test]
fn spec_constructor_sets_fields() {
    let spec = Spec::new("SPEC-1", "Spec title");
    assert_eq!(spec.id, "SPEC-1");
    assert_eq!(spec.slug, "spec-1");
    assert_eq!(spec.title, "Spec title");
    assert_eq!(spec.description, "");
    assert_eq!(spec.level, SpecLevel::Module);
    assert_eq!(spec.status, SpecStatus::Draft);
    assert_eq!(spec.created_at, "");
    assert_eq!(spec.updated_at, "");
}

#[test]
fn acceptance_criterion_constructor_sets_fields() {
    let ac = AcceptanceCriterion::new("AC-1", "SPEC-1", "AC title");
    assert_eq!(ac.id, "AC-1");
    assert_eq!(ac.spec_id, "SPEC-1");
    assert_eq!(ac.slug, "ac-1");
    assert_eq!(ac.title, "AC title");
    assert_eq!(ac.intent, "");
    assert_eq!(ac.review_mode, ReviewMode::Manual);
    assert_eq!(ac.risk_level, RiskLevel::Medium);
    assert_eq!(ac.concerns, Vec::<ConcernKind>::new());
    assert_eq!(ac.created_at, "");
    assert_eq!(ac.updated_at, "");
}

#[test]
fn acceptance_criterion_slug_from_id_normalizes_underscores() {
    let ac = AcceptanceCriterion::new("AC_SMOKE_CASE", "SPEC-1", "t");
    assert_eq!(ac.slug, "ac-smoke-case");
}

#[test]
fn acceptance_criterion_explicit_slug_uses_slug_from_id_rules() {
    let mut ac = AcceptanceCriterion::new("AC-1", "SPEC-1", "t");
    ac.slug = slug_from_id("MY_CUSTOM_Slug");
    assert_eq!(ac.slug, "my-custom-slug");
}

#[test]
fn spec_relation_constructor_sets_fields() {
    let relation = SpecRelation::new(
        "REL-1",
        "SPEC-1",
        "SPEC-2",
        "depends_on",
        "spec 1 depends on spec 2",
    );
    assert_eq!(relation.id, "REL-1");
    assert_eq!(relation.source_spec_id, "SPEC-1");
    assert_eq!(relation.target_spec_id, "SPEC-2");
    assert_eq!(relation.relation_kind, "depends_on");
    assert_eq!(relation.note, "spec 1 depends on spec 2");
}

#[test]
fn spec_graph_new_holds_vectors() {
    let specs = vec![Spec::new("SPEC-A", "a"), Spec::new("SPEC-B", "b")];
    let acs = vec![
        AcceptanceCriterion::new("AC-1", "SPEC-A", "ac"),
        AcceptanceCriterion::new("AC-2", "SPEC-B", "ac2"),
    ];
    let rels = vec![SpecRelation::new("REL-1", "SPEC-A", "SPEC-B", "depends_on", "")];
    let g = SpecGraph::new(specs.clone(), acs.clone(), rels.clone());
    assert_eq!(g.specs, specs);
    assert_eq!(g.acceptance_criteria, acs);
    assert_eq!(g.spec_relations, rels);
}

#[test]
fn db_labels_round_trip_for_every_level_and_status() {
    for l in [
        SpecLevel::Product,
        SpecLevel::System,
        SpecLevel::Module,
        SpecLevel::Component,
        SpecLevel::Foundation,
    ] {
        assert_eq!(SpecLevel::from_db_str(l.as_db_str()), Some(l));
    }
    for s in [
        SpecStatus::Draft,
        SpecStatus::Active,
        SpecStatus::Deprecated,
        SpecStatus::Archived,
    ] {
        assert_eq!(SpecStatus::from_db_str(s.as_db_str()), Some(s));
    }
    assert_eq!(SpecLevel::from_db_str("Module"), None);
    assert_eq!(ReviewMode::from_db_str("hybrid"), Some(ReviewMode::Hybrid));
    assert_eq!(RiskLevel::from_db_str("critical"), Some(RiskLevel::Critical));
}
