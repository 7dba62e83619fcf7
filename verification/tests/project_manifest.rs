use coherence_core_db::project_manifest::{
    dolt_db_name_for_bind, effective_dolt_catalog_name, parse_coherence_env,
    sanitize_dolt_db_segment, short_hash_frozen_git_path, validate_manifest, CoherenceEnv,
    ProjectManifest, DOLT_DB_NAME_MAX_LEN,
};

#[test]
fn sanitize_dolt_db_segment_cases() {
    assert_eq!(sanitize_dolt_db_segment("MyCatalog_01"), "mycatalog_01");
    assert_eq!(sanitize_dolt_db_segment("a--b__c"), "a_b_c");
    assert_eq!(sanitize_dolt_db_segment("___leading"), "leading");
    assert_eq!(sanitize_dolt_db_segment("trailing___"), "trailing");
    assert_eq!(sanitize_dolt_db_segment("@@@"), "");
    assert_eq!(sanitize_dolt_db_segment(""), "");
    let long = "a".repeat(DOLT_DB_NAME_MAX_LEN + 20);
    let s = sanitize_dolt_db_segment(&long);
    assert_eq!(s.len(), DOLT_DB_NAME_MAX_LEN);
    assert!(s.chars().all(|c| matches!(c, 'a'..='z' | '0'..='9' | '_')));
}

#[test]
fn short_hash_strips_whitespace_consistently() {
    let a = short_hash_frozen_git_path("/tmp/repo");
    let b = short_hash_frozen_git_path("  /tmp/repo  ");
    assert_eq!(a, b);
}

#[test]
fn dolt_db_name_for_bind_formula_matches_slug_and_path_hash() {
    let n = dolt_db_name_for_bind("My-Project", "/workspace/foo").unwrap();
    let h = short_hash_frozen_git_path("/workspace/foo");
    assert_eq!(n, format!("my_project_{h}"));
    assert!(n.len() <= DOLT_DB_NAME_MAX_LEN);
}

#[test]
fn parse_coherence_env_defaults_and_cases() {
    assert_eq!(parse_coherence_env(None).unwrap(), CoherenceEnv::Dev);
    assert_eq!(parse_coherence_env(Some("")).unwrap(), CoherenceEnv::Dev);
    assert_eq!(parse_coherence_env(Some("   ")).unwrap(), CoherenceEnv::Dev);
    assert_eq!(parse_coherence_env(Some("dev")).unwrap(), CoherenceEnv::Dev);
    assert_eq!(parse_coherence_env(Some("DEV")).unwrap(), CoherenceEnv::Dev);
    assert_eq!(parse_coherence_env(Some("test")).unwrap(), CoherenceEnv::Test);
    assert_eq!(parse_coherence_env(Some("Prod")).unwrap(), CoherenceEnv::Prod);
    assert!(parse_coherence_env(Some("staging")).is_err());
}

#[test]
fn effective_dolt_catalog_name_three_segments() {
    let n = effective_dolt_catalog_name("My-App", Some("cafe"), CoherenceEnv::Dev).unwrap();
    assert_eq!(n, "my_app_cafe_dev");
    assert!(n.len() <= DOLT_DB_NAME_MAX_LEN);
}

#[test]
fn effective_dolt_catalog_name_skips_empty_hash() {
    let n = effective_dolt_catalog_name("svc", Some("   "), CoherenceEnv::Test).unwrap();
    assert_eq!(n, "svc_test");
}

#[test]
fn effective_dolt_catalog_name_env_segments() {
    assert_eq!(
        effective_dolt_catalog_name("p", None, CoherenceEnv::Test).unwrap(),
        "p_test"
    );
    assert_eq!(
        effective_dolt_catalog_name("p", None, CoherenceEnv::Prod).unwrap(),
        "p_prod"
    );
}

#[test]
fn effective_dolt_catalog_name_truncates_for_max_len() {
    let slug = "s".repeat(DOLT_DB_NAME_MAX_LEN);
    let n = effective_dolt_catalog_name(&slug, Some("hh"), CoherenceEnv::Prod).unwrap();
    assert_eq!(n.len(), DOLT_DB_NAME_MAX_LEN);
    assert!(n.ends_with("_hh_prod"), "got {n:?}");
}

#[test]
fn effective_dolt_catalog_name_errors_empty_slug() {
    assert!(effective_dolt_catalog_name("@@@", Some("x"), CoherenceEnv::Dev).is_err());
}

#[test]
fn short_hash_is_four_lowercase_hex_digits() {
    let h = short_hash_frozen_git_path("/workspace/foo");
    assert_eq!(h.len(), 4);
    assert!(h.chars().all(|c| c.is_ascii_hexdigit() && !c.is_ascii_uppercase()));
}

#[test]
fn validate_manifest_rejects_blank_slug_and_hash_on_v1() {
    let mut m = ProjectManifest {
        version: 1,
        project_slug: "   ".to_string(),
        dolt_db_name: None,
        frozen_git_toplevel: None,
        project_hash: None,
        dolt_mode: None,
    };
    assert!(validate_manifest(&m).is_err());
    m.project_slug = "ok".to_string();
    assert!(validate_manifest(&m).is_ok());
    m.project_hash = Some("abcd".to_string());
    assert!(validate_manifest(&m).is_err());
    m.version = 2;
    assert!(validate_manifest(&m).is_ok());
}

#[test]
fn invalid_tier_is_named_trimmed_lowercased_and_quoted() {
    assert_eq!(
        parse_coherence_env(Some("  Staging ")).unwrap_err(),
        "COHERENCE_ENV: invalid value \"staging\" (expected dev, test, or prod)"
    );
    assert_eq!(
        parse_coherence_env(Some("Q\"A")).unwrap_err(),
        "COHERENCE_ENV: invalid value \"q\\\"a\" (expected dev, test, or prod)"
    );
    assert_eq!(parse_coherence_env(Some("  PROD")), Ok(CoherenceEnv::Prod));
    assert_eq!(parse_coherence_env(Some("   ")), Ok(CoherenceEnv::Dev));
}
