use coherence_core_db::ac_verify::{
    AcVerifyAcRunResult, AcVerifyLinkRunRecord, AcVerifyLinkStatus, VerifySpecRunResult,
};
use coherence_core_db::commands::ac_cmd::{
    ac_add_build, ac_add_parse, ac_list_line, ac_list_spec_id, ac_show_lines,
};
use coherence_core_db::commands::spec_cmd::{
    check_spec_list_args, parse_crud_subcommand, resolve_show_id, spec_add_plan, spec_list_line,
    spec_show_lines, CrudSubcommand,
};
use coherence_core_db::commands::verify_ac_cmd::{
    ac_report_lines, escape_tab_field, evidence_plan, resolve_ac_id, safe_segment,
};
use coherence_core_db::commands::verify_spec_cmd::{resolve_spec_id, spec_report_lines};
use coherence_core_db::models::{ConcernKind, ReviewMode, RiskLevel, SpecLevel, SpecStatus};

fn s(v: &[&str]) -> Vec<String> {
    v.iter().map(|x| x.to_string()).collect()
}

fn link(status: AcVerifyLinkStatus, captured: &str) -> AcVerifyLinkRunRecord {
    AcVerifyLinkRunRecord {
        ac_id: "AC-1".into(),
        code_location_id: "cl/1".into(),
        command: "cargo\ttest".into(),
        status,
        output_summary: "ok\nfine".into(),
        captured_output: captured.into(),
    }
}

#[test]
fn resolve_ids_positional_and_flag() {
    assert_eq!(resolve_ac_id(&s(&["AC-1"])).unwrap(), "AC-1");
    assert_eq!(resolve_ac_id(&s(&["--ac-id", "AC-2"])).unwrap(), "AC-2");
    assert_eq!(
        resolve_ac_id(&s(&["--other", "x"])).unwrap_err(),
        "--ac-id is required when using flags"
    );
    assert_eq!(
        resolve_ac_id(&s(&["a", "b"])).unwrap_err(),
        "usage: coherence-core-db verify-ac <AC_ID>"
    );
    assert!(resolve_spec_id(&[]).unwrap_err().starts_with("usage: coherence-core-db verify-spec <SPEC_ID>\n"));
    assert_eq!(resolve_spec_id(&s(&["--spec-id", "S"])).unwrap(), "S");
}

#[test]
fn ac_report_lines_and_evidence_plan() {
    let r = AcVerifyAcRunResult {
        ac_id: "AC-1".into(),
        no_verification_links: false,
        links: vec![
            link(AcVerifyLinkStatus::Failed { exit_code: -3 }, "out"),
            link(AcVerifyLinkStatus::Skipped { reason: "no command".into() }, ""),
            link(AcVerifyLinkStatus::Passed, ""),
        ],
    };
    let lines = ac_report_lines(&r);
    assert_eq!(lines[0], "OVERALL\tac_id=AC-1\tstatus=failed");
    assert_eq!(
        lines[1],
        "LINK\tac_id=AC-1\tcode_location_id=cl/1\tcommand=cargo test\tstatus=failed exit_code=-3\tsummary=ok fine"
    );
    assert_eq!(lines.len(), 4);
    let plan = evidence_plan(&r, 17);
    assert_eq!(plan.len(), 2);
    assert_eq!(plan[0].observation_id, "obs-vfy-cl_1-AC-1-17-0");
    assert_eq!(plan[0].exit_code, -3);
    assert_eq!(plan[0].status_label, "failed");
    assert_eq!(
        plan[0].stdout_rel_under_artifacts.as_deref(),
        Some("verify-ac/obs-vfy-cl_1-AC-1-17-0/stdout.txt")
    );
    assert_eq!(plan[1].link_index, 2);
    assert_eq!(plan[1].stdout_rel_under_artifacts, None);
    assert_eq!(plan[1].object_id, "verified_by:AC-1:cl/1");
    assert_eq!(safe_segment(""), "x");
    assert_eq!(escape_tab_field("a\tb\nc"), "a b c");
}

#[test]
fn spec_report_lines_list_each_criterion() {
    let ac = AcVerifyAcRunResult { ac_id: "AC-9".into(), no_verification_links: true, links: vec![] };
    let rep = VerifySpecRunResult {
        spec_id: "S".into(),
        acceptance_criteria: 1,
        passed: 0,
        failed: 0,
        skipped: 0,
        no_verification: 1,
        ac_results: vec![ac],
    };
    assert_eq!(
        spec_report_lines(&rep),
        vec![
            "SPEC\tspec_id=S\tspecs=1\tacceptance_criteria=1\tpassed=0\tfailed=0\tskipped=0\tno_verification=1",
            "AC\tspec_id=S\tac_id=AC-9\tstatus=no_verification",
            "SUMMARY\tac_id=AC-9\tno verified_by links for this AC",
        ]
    );
}

#[test]
fn spec_add_and_show_texts() {
    assert_eq!(parse_crud_subcommand(&s(&["list"]), "spec").unwrap(), CrudSubcommand::List);
    assert_eq!(
        parse_crud_subcommand(&s(&["zap"]), "ac").unwrap_err(),
        "unknown ac subcommand: zap (expected add, list, show)"
    );
    let spec = spec_add_plan(&s(&["--slug", "x", "--title", "T\tle", "--level", "product"]), "SPEC-GEN-1", "42").unwrap();
    assert_eq!(spec.id, "SPEC-GEN-1");
    assert_eq!(spec.level, SpecLevel::Product);
    assert_eq!(spec.status, SpecStatus::Draft);
    assert_eq!(spec.created_at, "42");
    assert_eq!(spec_list_line(&spec), "SPEC-GEN-1\tx\tT le\tproduct\tdraft");
    assert_eq!(spec_show_lines(&spec)[1], "slug: x");
    assert_eq!(spec_add_plan(&s(&["--title", "t"]), "i", "0").unwrap_err(), "--slug is required");
    assert_eq!(
        spec_add_plan(&s(&["--slug", "x", "--title", "t", "--level", "huge"]), "i", "0").unwrap_err(),
        "unknown --level \"huge\" (product|system|module)"
    );
    assert_eq!(
        check_spec_list_args(&s(&["a", "b"])).unwrap_err(),
        "unexpected arguments to spec list: \"a b\""
    );
    assert_eq!(resolve_show_id(&s(&["X", "--id", "X"]), "spec", "SPEC_ID").unwrap(), "X");
    assert_eq!(
        resolve_show_id(&s(&["X", "--id", "Y"]), "spec", "SPEC_ID").unwrap_err(),
        "spec show: --id and positional SPEC_ID disagree"
    );
    assert_eq!(
        resolve_show_id(&[], "ac", "AC_ID").unwrap_err(),
        "ac show requires <AC_ID> or --id <AC_ID>"
    );
}

#[test]
fn ac_add_list_show_texts() {
    let req = ac_add_parse(
        &s(&["--spec-id", "S", "--title", "t", "--concern", "security", "--concern", "performance", "--slug", " My_Slug "]),
        "AC-GEN-5",
    )
    .unwrap();
    assert_eq!(req.review_mode, ReviewMode::Manual);
    assert_eq!(req.risk_level, RiskLevel::Medium);
    assert_eq!(req.concerns, vec![ConcernKind::Security, ConcernKind::Performance]);
    let ac = ac_add_build(req, "9").unwrap();
    assert_eq!(ac.id, "AC-GEN-5");
    assert_eq!(ac.slug, "my-slug");
    assert_eq!(ac_list_line(&ac), "AC-GEN-5\tS\tmy-slug\tt\tmanual\tmedium\tsecurity,performance");
    assert_eq!(ac_show_lines(&ac)[7], "concerns: security,performance");
    assert_eq!(
        ac_add_parse(&s(&["--spec-id", "S", "--title", "t", "--concern", "speed"]), "i").unwrap_err(),
        "unknown --concern \"speed\" (correctness|security|performance|reliability|maintainability)"
    );
    let blank = ac_add_parse(&s(&["--spec-id", "S", "--title", "t", "--slug", "  "]), "i").unwrap();
    assert_eq!(ac_add_build(blank, "1").unwrap_err(), "--slug must not be empty when provided");
    assert_eq!(ac_list_spec_id(&s(&["--spec-id", "S"])).unwrap(), "S");
    assert_eq!(
        ac_list_spec_id(&s(&["--spec-id", "S", "p q"])).unwrap_err(),
        "unexpected positional arguments to ac list: \"p q\""
    );
}

#[test]
fn evidence_payload_and_hash_per_executed_link() {
    let r = AcVerifyAcRunResult {
        ac_id: "AC-1".into(),
        no_verification_links: false,
        links: vec![
            link(AcVerifyLinkStatus::Failed { exit_code: -3 }, "é\n"),
            link(AcVerifyLinkStatus::Passed, ""),
        ],
    };
    let plan = evidence_plan(&r, 5);
    assert_eq!(
        plan[0].payload_json,
        "{\"captured_byte_length\":3,\"command\":\"cargo\\ttest\",\"exit_code\":-3,\"output_summary\":\"ok\\nfine\",\"status\":\"failed\"}"
    );
    assert_eq!(plan[0].content_hash, coherence_core_db::digest::sha256_hex("é\n".as_bytes()));
    assert_eq!(
        plan[0].stdout_artifact_relpath.as_deref(),
        Some("artifacts/verify-ac/obs-vfy-cl_1-AC-1-5-0/stdout.txt")
    );
    assert_eq!(
        plan[1].payload_json,
        "{\"command\":\"cargo\\ttest\",\"exit_code\":0,\"output_summary\":\"ok\\nfine\",\"status\":\"passed\"}"
    );
    assert_eq!(plan[1].content_hash, coherence_core_db::digest::sha256_hex(plan[1].payload_json.as_bytes()));
    assert_eq!(plan[1].stdout_artifact_relpath, None);
}
