use coherence_core_db::models::{AcceptanceCriterion, ConcernKind, ReviewMode, RiskLevel, SpecLevel, SpecStatus};
use coherence_core_db::spec_store::{
    acceptance_criterion_from_row, concerns_from_labels, reject_duplicate_slug_in_spec, reject_empty_slug,
    spec_from_row,
};

fn s(x: &str) -> String {
    x.to_string()
}

#[test]
fn spec_row_decodes_level_and_status() {
    let spec = spec_from_row((s("S1"), s("one"), s("One"), s("d"), s("module"), s("active"), s("c"), s("u")))
        .expect("known labels");
    assert_eq!(spec.id, "S1");
    assert_eq!(spec.slug, "one");
    assert_eq!(spec.level, SpecLevel::Module);
    assert_eq!(spec.status, SpecStatus::Active);
    assert_eq!(spec.updated_at, "u");
}

#[test]
fn spec_row_with_unknown_labels_is_refused() {
    let bad_level = spec_from_row((s("S1"), s("one"), s("One"), s(""), s("galaxy"), s("nope"), s(""), s("")));
    assert_eq!(bad_level.unwrap_err(), "unknown spec level: galaxy");
    let bad_status = spec_from_row((s("S1"), s("one"), s("One"), s(""), s("system"), s("nope"), s(""), s("")));
    assert_eq!(bad_status.unwrap_err(), "unknown spec status: nope");
}

#[test]
fn ac_row_decodes_review_mode_and_risk() {
    let ac = acceptance_criterion_from_row((
        s("AC1"),
        s("S1"),
        s("slug"),
        s("T"),
        s("I"),
        s("hybrid"),
        s("critical"),
        s("c"),
        s("u"),
    ))
    .expect("known labels");
    assert_eq!(ac.spec_id, "S1");
    assert_eq!(ac.review_mode, ReviewMode::Hybrid);
    assert_eq!(ac.risk_level, RiskLevel::Critical);
    assert!(ac.concerns.is_empty());
    let bad_mode =
        acceptance_criterion_from_row((s("A"), s("S"), s("x"), s("T"), s("I"), s("?"), s("?"), s(""), s("")));
    assert_eq!(bad_mode.unwrap_err(), "unknown review mode: ?");
    let bad_risk =
        acceptance_criterion_from_row((s("A"), s("S"), s("x"), s("T"), s("I"), s("manual"), s("huge"), s(""), s("")));
    assert_eq!(bad_risk.unwrap_err(), "unknown risk level: huge");
}

#[test]
fn empty_slug_is_refused() {
    let mut ac = AcceptanceCriterion::new("AC-9", "S1", "t");
    assert!(reject_empty_slug(&ac).is_ok());
    ac.slug = String::new();
    assert_eq!(reject_empty_slug(&ac).unwrap_err(), "acceptance criterion AC-9: slug must not be empty");
}

#[test]
fn duplicate_slug_in_spec_names_the_other_criterion() {
    let mut ac = AcceptanceCriterion::new("AC-2", "SPEC-D", "t");
    ac.slug = "shared".into();
    assert!(reject_duplicate_slug_in_spec(&ac, None).is_ok());
    assert_eq!(
        reject_duplicate_slug_in_spec(&ac, Some("AC-1")).unwrap_err(),
        "acceptance criterion slug \"shared\" is already used in spec SPEC-D by AC-1"
    );
}

#[test]
fn concern_labels_decode_in_order_or_name_the_unknown_one() {
    assert_eq!(
        concerns_from_labels(&[s("security"), s("correctness")]).unwrap(),
        vec![ConcernKind::Security, ConcernKind::Correctness]
    );
    assert_eq!(
        concerns_from_labels(&[s("security"), s("vibes"), s("nope")]).unwrap_err(),
        "unknown concern_kind value in db: vibes"
    );
    assert!(concerns_from_labels(&[]).unwrap().is_empty());
}
