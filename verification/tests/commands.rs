use coherence_core_db::commands::ac_tests_cmd::{
    materialized_link, materialized_location, parse_ac_tests_subcommand,
    sorted_expected_rust_ac_test_files, validate_tests_ac_rel_path, AcTestsCommand,
};
use coherence_core_db::commands::db_import_jsonl::{
    escape, import_line, import_statement, normalize_review_mode, normalize_risk_level, parse_import_args,
    ImportKind,
};
use coherence_core_db::commands::project_init_cmd::{
    apply_bind, initial_manifest, parse_init_argv, plan_init, summary_lines,
    toplevel_from_git_stdout, InitStep,
};
use coherence_core_db::ac_test_layout::expected_rust_ac_test_files;
use coherence_core_db::models::{AcCodeRelationKind, AcceptanceCriterion, Spec, SpecGraph};
use coherence_core_db::project_manifest::{short_hash_frozen_git_path, ProjectManifest};

fn strings(v: &[&str]) -> Vec<String> {
    v.iter().map(|s| s.to_string()).collect()
}

#[test]
fn validate_tests_ac_rel_path_rejects_traversal() {
    assert!(validate_tests_ac_rel_path("tests/ac/../etc/passwd").is_err());
}

#[test]
fn validate_tests_ac_rel_path_messages() {
    assert_eq!(
        validate_tests_ac_rel_path("tests/ac_x.rs").unwrap_err(),
        "internal layout error: expected path under tests/ac/, got \"tests/ac_x.rs\""
    );
    assert_eq!(
        validate_tests_ac_rel_path("tests/ac/a..b.rs").unwrap_err(),
        "unsafe relative path: \"tests/ac/a..b.rs\""
    );
    assert!(validate_tests_ac_rel_path("tests/ac/ok/x.rs").is_ok());
}

#[test]
fn ac_tests_subcommands() {
    assert_eq!(parse_ac_tests_subcommand(&strings(&["check-rust"])).unwrap(), AcTestsCommand::CheckRust);
    assert_eq!(
        parse_ac_tests_subcommand(&strings(&["materialize-rust", "--workspace", "x"])).unwrap(),
        AcTestsCommand::MaterializeRust
    );
    assert!(parse_ac_tests_subcommand(&[]).unwrap_err().starts_with("usage: "));
    assert!(parse_ac_tests_subcommand(&strings(&["nope"]))
        .unwrap_err()
        .starts_with("unknown ac-tests subcommand: nope (expected"));
}

#[test]
fn sorted_expected_files_follow_path_order() {
    let s = Spec::new("S", "s");
    let mut a = AcceptanceCriterion::new("AC-1", "S", "t");
    a.slug = "zeta".into();
    let mut b = AcceptanceCriterion::new("AC-2", "S", "t");
    b.slug = "alpha".into();
    let g = SpecGraph::new(vec![s], vec![a, b], vec![]);
    let by_id: Vec<String> = expected_rust_ac_test_files(&g).into_iter().map(|f| f.file_path).collect();
    assert_eq!(by_id, vec!["tests/ac_zeta.rs", "tests/ac_alpha.rs"]);
    let by_path: Vec<String> = sorted_expected_rust_ac_test_files(&g).into_iter().map(|f| f.file_path).collect();
    assert_eq!(by_path, vec!["tests/ac_alpha.rs", "tests/ac_zeta.rs"]);
}

#[test]
fn materialized_rows_link_file_to_criterion() {
    let s = Spec::new("S", "s");
    let a = AcceptanceCriterion::new("AC-GOLD", "S", "t");
    let g = SpecGraph::new(vec![s], vec![a], vec![]);
    let f = &expected_rust_ac_test_files(&g)[0];
    let loc = materialized_location(f);
    assert!(loc.id.starts_with("cl-"));
    assert_eq!(loc.repo_path, ".");
    assert_eq!(loc.test_command.as_deref(), Some(f.test_command.as_str()));
    let link = materialized_link(f, &loc.id);
    assert!(link.id.starts_with("acl-"));
    assert_eq!(link.code_location_id, loc.id);
    assert_eq!(link.relation_kind, AcCodeRelationKind::VerifiedBy);
}

#[test]
fn import_normalizes_legacy_default_ac_classification() {
    assert_eq!(normalize_review_mode("default"), "manual");
    assert_eq!(normalize_review_mode(""), "manual");
    assert_eq!(normalize_review_mode("hybrid"), "hybrid");
    assert_eq!(normalize_risk_level("default"), "medium");
    assert_eq!(normalize_risk_level(""), "medium");
    assert_eq!(normalize_risk_level("high"), "high");
}

#[test]
fn import_escape_and_statements() {
    assert_eq!(escape(r"it's a\b"), r"it''s a\\b");
    let rec = vec![
        ("id".to_string(), "AC-1".to_string()),
        ("spec_id".to_string(), "S".to_string()),
        ("review_mode".to_string(), "default".to_string()),
    ];
    let st = import_statement("acceptance_criterion", &rec).unwrap();
    assert_eq!(st.kind, ImportKind::Ac);
    assert_eq!(
        st.sql,
        "INSERT INTO acceptance_criteria (id, spec_id, slug, title, intent, review_mode, risk_level, created_at, updated_at) VALUES ('AC-1', 'S', '', '', '', 'manual', 'medium', '', '')"
    );
    assert_eq!(st.context, "INSERT ac AC-1");
    let c = import_statement(
        "acceptance_criterion_concern",
        &vec![("ac_id".to_string(), "A".to_string()), ("concern_kind".to_string(), "security".to_string())],
    )
    .unwrap();
    assert_eq!(c.context, "INSERT concern A/security");
    assert_eq!(
        import_statement("bogus", &vec![]).unwrap_err(),
        "import-jsonl: unknown record type: bogus"
    );
}

#[test]
fn import_line_reads_one_jsonl_record() {
    assert!(import_line("   ").unwrap().is_none());
    assert!(import_line("").unwrap().is_none());
    let err = import_line("not json").unwrap_err();
    assert!(err.starts_with("import-jsonl: parse error: "), "got {err}");
    assert!(err.len() > "import-jsonl: parse error: ".len());
    let st = import_line(
        r#"{"type":"spec_relation","id":"R'1","source_spec_id":"A","target_spec_id":"B","relation_kind":"depends_on","created_at":7}"#,
    )
    .unwrap()
    .unwrap();
    assert_eq!(st.kind, ImportKind::Relation);
    assert_eq!(
        st.sql,
        "INSERT INTO spec_relations (id, source_spec_id, target_spec_id, relation_kind, created_at, updated_at) VALUES ('R''1', 'A', 'B', 'depends_on', '', '')"
    );
    assert_eq!(st.context, "INSERT rel R'1");
    assert_eq!(import_line("[1, 2]").unwrap_err(), "import-jsonl: unknown record type: ");
    assert_eq!(import_line(r#"{"type":3}"#).unwrap_err(), "import-jsonl: unknown record type: ");
    assert_eq!(import_line(r#"{"type":"widget"}"#).unwrap_err(), "import-jsonl: unknown record type: widget");
}

#[test]
fn import_args_checks() {
    assert_eq!(
        parse_import_args(&strings(&["--env", "prod", "--in", "f.jsonl", "--confirm"])).unwrap(),
        ("prod".to_string(), "f.jsonl".to_string())
    );
    assert_eq!(
        parse_import_args(&strings(&["--env", "stage", "--in", "f", "--confirm"])).unwrap_err(),
        "import-jsonl: --env must be dev|test|prod (got stage)"
    );
    assert_eq!(
        parse_import_args(&strings(&["--env", "dev", "--in", "f"])).unwrap_err(),
        "import-jsonl --env dev --in f: --confirm is required"
    );
    assert_eq!(
        parse_import_args(&strings(&["--x"])).unwrap_err(),
        "import-jsonl: unknown flag: --x"
    );
    assert_eq!(
        parse_import_args(&strings(&["--confirm", "--env", "dev"])).unwrap_err(),
        "import-jsonl: --in <file> is required"
    );
}

#[test]
fn parse_init_argv_force_and_workspace() {
    let a = match parse_init_argv(&["--workspace".into(), "/tmp".into(), "--force-rebind".into()]) {
        Ok(v) => v,
        Err(e) => panic!("parse_init_argv: {e}"),
    };
    assert!(a.force_rebind);
    assert_eq!(a.workspace, Some("/tmp".to_string()));
}

#[test]
fn parse_init_argv_errors() {
    assert_eq!(
        parse_init_argv(&strings(&["--slug"])).unwrap_err(),
        "--slug requires a value"
    );
    assert_eq!(
        parse_init_argv(&strings(&["--workspace", "-x"])).unwrap_err(),
        "--workspace requires a path (next token looks like a flag)"
    );
    assert!(parse_init_argv(&strings(&["--workspace", "-"])).is_ok());
    assert_eq!(
        parse_init_argv(&strings(&["bogus"])).unwrap_err(),
        "unexpected argument \"bogus\" (try --workspace, --slug, --force-rebind)"
    );
}

fn manifest(slug: &str) -> ProjectManifest {
    ProjectManifest {
        version: 1,
        project_slug: slug.to_string(),
        dolt_db_name: None,
        frozen_git_toplevel: None,
        project_hash: None,
        dolt_mode: None,
    }
}

#[test]
fn init_plan_and_bind() {
    assert!(initial_manifest(None, None).is_err());
    let m = initial_manifest(None, Some("My-Project".to_string())).unwrap();
    assert_eq!(m.version, 1);
    assert_eq!(plan_init(&m, false).unwrap(), InitStep::BindGitToplevel);
    assert_eq!(plan_init(&m, true).unwrap(), InitStep::BindGitToplevel);
    assert!(plan_init(&manifest("  "), false).is_err());

    let mut m2 = manifest("My-Project");
    m2.frozen_git_toplevel = Some("  /workspace/foo ".to_string());
    assert_eq!(plan_init(&m2, false).unwrap(), InitStep::Bind("/workspace/foo".to_string()));

    let mut m3 = manifest("x");
    m3.dolt_db_name = Some("old".to_string());
    assert!(plan_init(&m3, false).unwrap_err().starts_with("manifest has dolt_db_name"));

    let mut b = manifest("My-Project");
    apply_bind(&mut b, " /workspace/foo ").unwrap();
    let h = short_hash_frozen_git_path("/workspace/foo");
    assert_eq!(b.version, 2);
    assert_eq!(b.project_hash.as_deref(), Some(h.as_str()));
    assert_eq!(b.frozen_git_toplevel.as_deref(), Some("/workspace/foo"));
    assert_eq!(b.dolt_db_name, Some(format!("my_project_{h}")));
    assert_eq!(plan_init(&b, false).unwrap(), InitStep::Report("/workspace/foo".to_string()));
    let lines = summary_lines(&b, "/workspace/foo");
    assert_eq!(lines[0], "project_slug: My-Project");
    assert_eq!(lines[3], "frozen_git_toplevel: /workspace/foo");

    let mut bad = manifest("@@@");
    assert!(apply_bind(&mut bad, "/x").is_err());
    assert_eq!(bad.version, 1);
    assert!(bad.project_hash.is_none());
    assert_eq!(toplevel_from_git_stdout(" /r \n").unwrap(), "/r");
    assert!(toplevel_from_git_stdout("  \n").is_err());
}
