use coherence_core_db::cli::{cli_command, doctor_lines, unknown_command_message, CliCommand, HELP_TEXT, VERSION_TEXT};
use coherence_core_db::commands::db_export_jsonl::{export_line, export_tables, parse_export_args, ExportTable};
use coherence_core_db::commands::db_truncate::{
    delete_statement, env_is_valid, parse_truncate_args, truncate_tables, use_statement,
};
use coherence_core_db::commands::drop_isolated_test_db::{drop_refusal, drop_statement};
use coherence_core_db::commands::evidence_sample_cmd::{default_run_id, sample_report};
use coherence_core_db::commands::m1_spec_smoke::{
    check_listed_ac, check_listed_relation, check_loaded_spec, count_distinct_ids, smoke_fixture_ac,
    smoke_fixture_relation, smoke_fixture_spec,
};
use coherence_core_db::commands::project_cmd::{
    check_reset_slug, db_command, project_command, project_usage_lines, unknown_db_message, unknown_project_message,
    DbCommand, ProjectCommand,
};
use coherence_core_db::db::{list_databases_config, ConnEnv};
use coherence_core_db::digest::sha256_hex;
use coherence_core_db::evidence_store::CanonicalEvidencePointer;

fn strings(v: &[&str]) -> Vec<String> {
    v.iter().map(|s| s.to_string()).collect()
}

#[test]
fn cli_names_commands() {
    assert!(matches!(cli_command(&strings(&["bin"])), CliCommand::Help));
    assert!(matches!(cli_command(&strings(&["bin", "-h"])), CliCommand::Help));
    assert!(matches!(cli_command(&strings(&["bin", "verify-ac", "AC-1"])), CliCommand::VerifyAc));
    assert!(matches!(cli_command(&strings(&["bin", "-V"])), CliCommand::Version));
    match cli_command(&strings(&["bin", "frobnicate"])) {
        CliCommand::Unknown(n) => assert_eq!(n, "frobnicate"),
        other => panic!("unexpected {other:?}"),
    }
    assert_eq!(unknown_command_message("x"), "unknown command: x\nrun: coherence-core-db help");
    assert_eq!(VERSION_TEXT, "coherence-core-db 0.1.0");
    assert!(HELP_TEXT.contains("Repository workflow:\n  make tool help"));
    assert_eq!(doctor_lines()[1], "status: ok");
}

#[test]
fn project_and_db_subcommands() {
    assert!(matches!(project_command(&[]), ProjectCommand::Usage));
    assert!(matches!(project_command(&strings(&["init", "--force-rebind"])), ProjectCommand::Init));
    assert!(matches!(project_command(&strings(&["reset"])), ProjectCommand::Reset));
    assert!(matches!(project_command(&strings(&["reset", "x"])), ProjectCommand::ResetWithArguments));
    assert_eq!(project_usage_lines().len(), 5);
    assert_eq!(
        unknown_project_message("zap"),
        "unknown project subcommand: zap (expected: catalog-preflight | init | reset)\nsee AGENTS.md (Project identity and manifest lifecycle) for manifest setup.\nrun: coherence-core-db help"
    );
    assert!(matches!(db_command(&strings(&["export-jsonl", "--env", "dev"])), DbCommand::ExportJsonl));
    assert!(matches!(db_command(&strings(&["list-databases"])), DbCommand::ListDatabases));
    assert_eq!(
        unknown_db_message("nope"),
        "db: unknown subcommand: nope (expected truncate, export-jsonl, import-jsonl, list-databases)"
    );
    assert!(check_reset_slug("  ").is_err());
    assert_eq!(check_reset_slug("demo"), Ok(()));
}

#[test]
fn truncate_flags() {
    assert!(env_is_valid("prod"));
    assert!(!env_is_valid("staging"));
    assert_eq!(parse_truncate_args(&strings(&["--env", "dev", "--confirm"])), Ok("dev".to_string()));
    assert_eq!(parse_truncate_args(&strings(&["--confirm", "--env", "test", "--env", "prod"])), Ok("prod".to_string()));
    assert_eq!(
        parse_truncate_args(&strings(&["--env", "staging"])),
        Err("truncate: --env must be one of dev|test|prod (got \"staging\")".to_string())
    );
    assert_eq!(
        parse_truncate_args(&strings(&["--env"])),
        Err("truncate: --env must be one of dev|test|prod (got \"\")".to_string())
    );
    assert_eq!(parse_truncate_args(&strings(&["--force"])), Err("truncate: unknown flag: --force".to_string()));
    assert_eq!(parse_truncate_args(&[]), Err("truncate: --env dev|test|prod is required".to_string()));
    assert_eq!(
        parse_truncate_args(&strings(&["--env", "dev"])),
        Err("truncate --env dev: --confirm is required to proceed\nThis will DELETE all rows from specs, acceptance_criteria, codeintel_ac_links,\ncodeintel_code_locations, spec_relations, acceptance_criterion_concerns.".to_string())
    );
    assert_eq!(truncate_tables().first(), Some(&"acceptance_criterion_concerns"));
    assert_eq!(truncate_tables().last(), Some(&"specs"));
    assert_eq!(delete_statement("specs"), "DELETE FROM specs");
    assert_eq!(use_statement("a`b"), "USE `a``b`");
}

#[test]
fn export_flags_and_lines() {
    let a = parse_export_args(&strings(&["--env", "dev"])).expect("args");
    assert_eq!(a.env, "dev");
    assert_eq!(a.out_path, ".coherence/exports/bootstrap-specs.jsonl");
    let b = parse_export_args(&strings(&["--out", "x.jsonl", "--env", "prod"])).expect("args");
    assert_eq!(b.out_path, "x.jsonl");
    assert_eq!(
        parse_export_args(&strings(&["--env", "qa"])).unwrap_err(),
        "export-jsonl: --env must be dev|test|prod (got qa)"
    );
    assert_eq!(parse_export_args(&[]).unwrap_err(), "export-jsonl: --env dev|test|prod is required");
    assert_eq!(parse_export_args(&strings(&["-x"])).unwrap_err(), "export-jsonl: unknown flag: -x");

    assert_eq!(export_tables().len(), 6);
    assert_eq!(ExportTable::Concerns.type_tag(), "acceptance_criterion_concern");
    assert_eq!(ExportTable::Concerns.columns(), vec!["ac_id", "concern_kind"]);
    assert_eq!(
        export_line("acceptance_criterion_concern", &["ac_id", "concern_kind"], &strings(&["AC-1", "security"])),
        "{\"ac_id\":\"AC-1\",\"concern_kind\":\"security\",\"type\":\"acceptance_criterion_concern\"}"
    );
    assert_eq!(
        export_line("spec", &["id", "title"], &strings(&["S\"1", "a\nb"])),
        "{\"id\":\"S\\\"1\",\"title\":\"a\\nb\",\"type\":\"spec\"}"
    );
}

#[test]
fn export_line_escapes_control_characters() {
    assert_eq!(
        export_line("spec", &["id"], &strings(&["a\u{1}\tb\\\u{1f}\u{8}\u{c}\r/é"])),
        "{\"id\":\"a\\u0001\\tb\\\\\\u001f\\b\\f\\r/é\",\"type\":\"spec\"}"
    );
}

#[test]
fn list_databases_settings() {
    let env = ConnEnv {
        coherence_use_user_scoped_dolt: None,
        coherence_dolt_runtime_dir: Some("/run/c".into()),
        xdg_runtime_dir: None,
        home: None,
        dolt_socket: None,
        dolt_host: None,
        dolt_port: Some("not-a-port".into()),
        coherence_dolt_tcp_port: None,
        dolt_user: Some("me".into()),
        dolt_password: None,
        dolt_db: Some("ignored".into()),
        cwd_name: None,
    };
    let c = list_databases_config(&env);
    assert_eq!(c.host, "127.0.0.1");
    assert_eq!(c.port, 3306);
    assert_eq!(c.user, "me");
    assert_eq!(c.database, "");
    assert!(c.socket_path.ends_with("dolt.sock"));
}

#[test]
fn drop_requires_disposable_prefix() {
    assert_eq!(drop_refusal("coherence_test_x", "coherence_test_"), None);
    assert_eq!(
        drop_refusal("coherence_dev", "coherence_test_"),
        Some("drop-isolated-test-db: refused — database name must start with prefix \"coherence_test_\" (got \"coherence_dev\")".to_string())
    );
    assert_eq!(drop_statement("coherence_test_x"), "DROP DATABASE IF EXISTS `coherence_test_x`");
}

#[test]
fn m1_fixtures_and_checks() {
    let spec = smoke_fixture_spec();
    assert_eq!(spec.id, "M1-SMOKE-SPEC-1");
    assert_eq!(spec.description, "m1-spec-smoke persistence check");
    let ac = smoke_fixture_ac();
    assert_eq!(ac.spec_id, "M1-SMOKE-SPEC-1");
    let rel = smoke_fixture_relation();
    assert_eq!(rel.source_spec_id, rel.target_spec_id);
    assert_eq!(check_loaded_spec(Some(&spec), &spec), Ok(()));
    assert_eq!(check_loaded_spec(None, &spec), Err("expected spec M1-SMOKE-SPEC-1 after put".to_string()));
    let mut other = smoke_fixture_spec();
    other.title = "x".into();
    assert_eq!(
        check_loaded_spec(Some(&other), &spec),
        Err("spec title mismatch: got \"x\", want \"M1 spec store smoke fixture\"".to_string())
    );
    assert_eq!(check_listed_ac(&["M1-SMOKE-AC-1"]), Ok(()));
    assert!(check_listed_ac(&["other"]).is_err());
    assert!(check_listed_relation(&[]).is_err());
    assert_eq!(count_distinct_ids(&strings(&["R1", "R2", "R1"])), 2);
}

#[test]
fn evidence_sample_report_lines() {
    assert_eq!(default_run_id("1234"), "run-1234");
    let artifact = vec![1u8, 2, 3];
    let pointer = CanonicalEvidencePointer {
        run_id: "run-1".into(),
        evidence_root_relpath: ".coherence/runs/run-1".into(),
        observation_id: "obs-sample-001".into(),
        artifact_relpath_from_run_root: "artifacts/blobs/heavy-payload.bin".into(),
        payload_sha256_hex: sha256_hex(&artifact),
        payload_summary: "s".into(),
    };
    let lines = sample_report("/ws", "run-1", &pointer, &artifact);
    assert_eq!(lines.len(), 14);
    assert_eq!(lines[3], "run_root: /ws/.coherence/runs/run-1");
    assert_eq!(lines[4], "manifest: /ws/.coherence/runs/run-1/metadata/run.json");
    assert_eq!(lines[9], "  resolved_artifact_path: /ws/.coherence/runs/run-1/artifacts/blobs/heavy-payload.bin");
    assert_eq!(lines[10], "  artifact_bytes: 3");
    assert_eq!(lines[11], "  sha256_hex (matches pointer): true");
    assert_eq!(sample_report("/ws", "run-1", &pointer, &[9u8])[11], "  sha256_hex (matches pointer): false");
}
