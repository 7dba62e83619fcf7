use coherence_core_db::project_manifest::ProjectManifest;
use coherence_core_db::test_world_guard::{
    require_isolated_test_world_for_writes, GuardEnv, PROJECT_SLUG_ENV_VAR,
    TEST_WORLD_EXPECTED_DB_ENV_VAR,
};

fn env(profile: Option<&str>) -> GuardEnv {
    GuardEnv {
        profile: profile.map(str::to_string),
        project_slug: None,
        allowlist: None,
        expected_db: None,
        test_db_prefix: None,
    }
}

fn manifest(slug: &str, hash: Option<&str>, mode: &str) -> Option<ProjectManifest> {
    Some(ProjectManifest {
        version: 2,
        project_slug: slug.to_string(),
        dolt_db_name: None,
        frozen_git_toplevel: None,
        project_hash: hash.map(str::to_string),
        dolt_mode: Some(mode.to_string()),
    })
}

fn refuses(e: &GuardEnv, m: &Option<ProjectManifest>, db: &str, expected: &[&str]) {
    let msg = require_isolated_test_world_for_writes("test_ctx", db, e, m).unwrap_err();
    for s in expected {
        assert!(msg.contains(s), "expected `{s}` in: {msg}");
    }
}

#[test]
fn refusal_includes_stable_next_targets_when_unset() {
    refuses(
        &env(None),
        &None,
        "irrelevant",
        &["ADR-0004", "make test-isolated", "make smoke", "test-world-reset"],
    );
}

#[test]
fn ok_when_profile_test_and_disposable_db() {
    require_isolated_test_world_for_writes(
        "test_ctx",
        "coherence_test_550e8400-e29b-41d4-a716-446655440000",
        &env(Some("test")),
        &manifest("fixture_project", None, "user-scoped"),
    )
    .unwrap();
}

#[test]
fn ok_repo_local_catalog_name_when_user_scoped_dolt_disabled() {
    require_isolated_test_world_for_writes(
        "test_ctx",
        "coherence-core-db",
        &env(Some("test")),
        &manifest("coherence-core-db", None, "repo-local"),
    )
    .unwrap();
}

#[test]
fn refusal_when_profile_non_test() {
    refuses(&env(Some("canonical")), &None, "coherence_test_x", &["non-test profile"]);
}

#[test]
fn refuse_when_slug_set_and_database_equals_canonical_even_if_profile_test() {
    let mut e = env(Some("test"));
    e.project_slug = Some("Coherence-Core-Db".into());
    refuses(
        &e,
        &manifest("coherence-core-db", None, "user-scoped"),
        "coherence-core-db",
        &[PROJECT_SLUG_ENV_VAR, "matches canonical"],
    );
}

#[test]
fn allow_when_slug_set_but_database_differs_even_without_prefix() {
    let mut e = env(Some("test"));
    e.project_slug = Some("coherence-core-db".into());
    require_isolated_test_world_for_writes(
        "test_ctx",
        "my_private_throwaway_db",
        &e,
        &manifest("coherence-core-db", None, "user-scoped"),
    )
    .unwrap();
}

#[test]
fn refuse_when_slug_unset_and_db_not_disposable() {
    refuses(
        &env(Some("test")),
        &manifest("fixture_project", None, "user-scoped"),
        "some_random_db_name",
        &["not disposable"],
    );
}

#[test]
fn allow_via_allowlist_when_slug_unset() {
    let mut e = env(Some("test"));
    e.allowlist = Some("staging_clone,fixture_db".into());
    require_isolated_test_world_for_writes(
        "test_ctx",
        "Fixture_Db",
        &e,
        &manifest("fixture_project", None, "user-scoped"),
    )
    .unwrap();
}

#[test]
fn coherence_test_world_mismatch_errors() {
    let mut e = env(Some("test"));
    e.expected_db = Some("coherence_test_expected".into());
    refuses(&e, &None, "coherence_test_other", &[TEST_WORLD_EXPECTED_DB_ENV_VAR]);
}

#[test]
fn refuse_when_resolved_db_matches_manifest_dev_catalog_even_if_coherence_env_test() {
    refuses(
        &env(Some("test")),
        &manifest("svc", Some("cafe"), "user-scoped"),
        "svc_cafe_dev",
        &["dev", "ADR-0004", "COHERENCE_ENV"],
    );
}

#[test]
fn ok_when_resolved_db_matches_manifest_test_catalog() {
    require_isolated_test_world_for_writes(
        "test_ctx",
        "svc_cafe_test",
        &env(Some("test")),
        &manifest("svc", Some("cafe"), "repo-local"),
    )
    .unwrap();
}

#[test]
fn manifest_dev_catalog_allowed_when_explicitly_allowlisted() {
    let mut e = env(Some("test"));
    e.allowlist = Some("svc_cafe_dev".into());
    require_isolated_test_world_for_writes(
        "test_ctx",
        "svc_cafe_dev",
        &e,
        &manifest("svc", Some("cafe"), "user-scoped"),
    )
    .unwrap();
}

#[test]
fn allowlist_entries_are_trimmed_and_blank_ones_ignored() {
    let mut e = env(Some(" TEST "));
    e.allowlist = Some(" , a ,, b_db ,".into());
    let m = manifest("x", None, "user-scoped");
    require_isolated_test_world_for_writes("c", "B_DB", &e, &m).unwrap();
    assert!(require_isolated_test_world_for_writes("c", "", &e, &m).is_err());
    e.test_db_prefix = Some("tmp_".into());
    require_isolated_test_world_for_writes("c", "tmp_1", &e, &m).unwrap();
}
