use coherence_core_db::codescene_xray::{
    analysis_url, bearer_header, code_smells, files_url, find_path_ending_with, local_analysis_lines, parse_xray_args,
    repo_relative_path, run_analysis_url, structural_issues, tech_debt_url, ApiConfig, ReviewEntryFields,
    ReviewFunctionFields, SmellFields,
};

fn func(title: Option<&str>, line: Option<i64>, details: Option<&str>) -> ReviewFunctionFields {
    ReviewFunctionFields {
        title: title.map(String::from),
        start_line: line,
        details: details.map(String::from),
    }
}

#[test]
fn review_without_entries_has_no_issues() {
    assert!(structural_issues(&[]).is_empty());
}

#[test]
fn review_bumpy_road_issue() {
    let entries = vec![ReviewEntryFields {
        category: Some("Bumpy Road Ahead".into()),
        functions: Some(vec![func(Some("manifest_bound_catalog_name"), Some(210), Some("bumps = 2"))]),
    }];
    let issues = structural_issues(&entries);
    assert_eq!(issues.len(), 1);
    assert_eq!(issues[0].category, "Bumpy Road Ahead");
    assert_eq!(issues[0].functions.len(), 1);
    assert_eq!(issues[0].functions[0].title, "manifest_bound_catalog_name");
    assert_eq!(issues[0].functions[0].line, 210);
    assert!(issues[0].functions[0].details.is_some());
}

#[test]
fn review_keeps_unknown_categories_and_drops_incomplete_functions() {
    let entries = vec![
        ReviewEntryFields {
            category: Some("Some New Smell".into()),
            functions: Some(vec![func(Some("foo"), Some(42), None)]),
        },
        ReviewEntryFields { category: None, functions: Some(vec![func(Some("bar"), Some(1), None), func(None, Some(2), None)]) },
        ReviewEntryFields { category: Some("Empty".into()), functions: Some(vec![func(Some("x"), None, None)]) },
        ReviewEntryFields { category: Some("NoArray".into()), functions: None },
    ];
    let issues = structural_issues(&entries);
    assert_eq!(issues.len(), 2);
    assert_eq!(issues[0].category, "Some New Smell");
    assert_eq!(issues[1].category, "Unknown");
    assert_eq!(issues[1].functions.len(), 1);
}

#[test]
fn smells_need_name_and_rule_set() {
    let items = vec![
        SmellFields { code_smell: Some("Complex Method".into()), rule_set: Some("Default".into()), count: Some(3) },
        SmellFields { code_smell: Some("Orphan".into()), rule_set: None, count: None },
    ];
    let smells = code_smells(&items);
    assert_eq!(smells.len(), 1);
    assert_eq!(smells[0].name, "Complex Method");
    assert_eq!(smells[0].count, Some(3));
}

#[test]
fn api_settings_and_urls() {
    assert!(ApiConfig::from_env(None, Some("7")).is_none());
    assert!(ApiConfig::from_env(Some(""), Some("7")).is_none());
    let c = ApiConfig::from_env(Some("tok"), Some("7")).expect("config");
    assert_eq!(c.url, "https://api.codescene.io/v2");
    assert_eq!(tech_debt_url(&c), "https://api.codescene.io/v2/projects/7/analyses/latest/technical-debt?page=1&page_size=500");
    assert!(files_url(&c).starts_with("https://api.codescene.io/v2/projects/7/analyses/latest/files?page=1"));
    assert_eq!(run_analysis_url(&c), "https://api.codescene.io/v2/projects/7/run-analysis");
    assert_eq!(analysis_url(&c, -5), "https://api.codescene.io/v2/projects/7/analyses/-5");
    assert_eq!(bearer_header("tok"), "Authorization: Bearer tok");
}

#[test]
fn file_entry_found_by_path_suffix() {
    let paths = vec![None, Some("src/a.rs".to_string()), Some("x/src/lib.rs".to_string())];
    assert_eq!(find_path_ending_with(&paths, "src/lib.rs"), Some(2));
    assert_eq!(find_path_ending_with(&paths, "main.rs"), None);
}

#[test]
fn repo_relative_paths() {
    assert_eq!(repo_relative_path("/r/src/a.rs", None, Some("/r\n")), Some("src/a.rs".to_string()));
    assert_eq!(repo_relative_path("src/a.rs", Some("/r"), Some("/r\n")), Some("src/a.rs".to_string()));
    assert_eq!(repo_relative_path("src/a.rs", None, Some("/r\n")), None);
    assert_eq!(repo_relative_path("/elsewhere/a.rs", None, Some("/r")), None);
    assert_eq!(repo_relative_path("/r/a.rs", None, Some("  \n")), None);
    assert_eq!(repo_relative_path("/r/a.rs", None, None), None);
}

#[test]
fn xray_arguments() {
    let s = |v: &[&str]| v.iter().map(|x| x.to_string()).collect::<Vec<_>>();
    assert_eq!(parse_xray_args(&[]).unwrap_err(), "usage: coherence-bootstrap codescene-xray [--trigger] <file-path>");
    assert_eq!(
        parse_xray_args(&s(&["--trigger"])).unwrap_err(),
        "usage: coherence-bootstrap codescene-xray --trigger <file-path>"
    );
    let a = parse_xray_args(&s(&["--trigger", "f.rs"])).expect("args");
    assert!(a.trigger);
    assert_eq!(a.file_path, "f.rs");
    let b = parse_xray_args(&s(&["g.rs"])).expect("args");
    assert!(!b.trigger);
}

#[test]
fn local_analysis_section() {
    let entries = vec![ReviewEntryFields {
        category: Some("Bumpy Road Ahead".into()),
        functions: Some(vec![func(Some("f"), Some(10), Some("bumps = 2")), func(Some("g"), Some(20), None)]),
    }];
    let issues = structural_issues(&entries);
    assert_eq!(
        local_analysis_lines(Some("7.78"), &issues),
        vec![
            "",
            "── Local Analysis ──────────────────────────────",
            "  Code Health:  7.78",
            "",
            "  Structural Issues:",
            "    [Bumpy Road Ahead] 2 function(s)",
            "      - f  (line 10)  bumps = 2",
            "      - g  (line 20)",
        ]
    );
    assert_eq!(local_analysis_lines(None, &[])[2], "  Code Health:  (unavailable)");
}
