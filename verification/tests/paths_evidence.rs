use coherence_core_db::evidence_store::{
    compute_evidence_root_relpath, created_at_label, ensure_run_initialized, resolve_artifact_path, sample_artifact_body,
    sample_pointer, CanonicalEvidencePointer, RunLayout, SAMPLE_ARTIFACT_LEN,
};
use coherence_core_db::paths::{ancestor_dirs, file_name, path_components};
use coherence_core_db::project_manifest::find_git_repo_root;
use coherence_core_db::tui::project_discovery::{
    current_project_root, discover_projects, project_dir_of_manifest, push_project,
};

#[test]
fn components_follow_std_path_reading() {
    assert_eq!(path_components("/a//b/./c/"), vec!["/", "a", "b", "c"]);
    assert_eq!(path_components("./x"), vec![".", "x"]);
    assert_eq!(path_components(""), Vec::<String>::new());
    assert_eq!(path_components("a/../b"), vec!["a", "..", "b"]);
    assert_eq!(path_components(".hidden/x"), vec![".hidden", "x"]);
}

#[test]
fn file_name_is_the_last_name() {
    assert_eq!(file_name("/a/b"), Some("b".to_string()));
    assert_eq!(file_name("/a/b/"), Some("b".to_string()));
    assert_eq!(file_name("/"), None);
    assert_eq!(file_name("a/.."), None);
    assert_eq!(file_name("a/."), Some("a".to_string()));
}

#[test]
fn ancestors_walk_up_to_the_root() {
    assert_eq!(ancestor_dirs("/a/b"), vec!["/a/b", "/a", "/"]);
    assert_eq!(ancestor_dirs("a"), vec!["a", ""]);
    assert_eq!(ancestor_dirs("/"), vec!["/"]);
}

#[test]
fn find_git_repo_root_nested_with_git_dir() {
    let start = "/tmp/root/a/b/c";
    let dirs = ancestor_dirs(start);
    let marks: Vec<bool> = dirs.iter().map(|d| d == "/tmp/root").collect();
    assert_eq!(find_git_repo_root(start, &marks), Some("/tmp/root".to_string()));
}

#[test]
fn find_git_repo_root_none_outside_repo() {
    let start = "/tmp/lone/no_git";
    let marks = vec![false; ancestor_dirs(start).len()];
    assert_eq!(find_git_repo_root(start, &marks), None);
}

#[test]
fn find_git_repo_root_prefers_the_nearest() {
    let start = "/r/inner/deep";
    let marks = vec![false, true, true, false];
    assert_eq!(ancestor_dirs(start).len(), 4);
    assert_eq!(find_git_repo_root(start, &marks), Some("/r/inner".to_string()));
}

#[test]
fn run_layout_paths() {
    let l = RunLayout::new("/ws", "run-1");
    assert_eq!(l.run_root(), "/ws/.coherence/runs/run-1");
    assert_eq!(l.artifacts_dir(), "/ws/.coherence/runs/run-1/artifacts");
    assert_eq!(l.metadata_dir(), "/ws/.coherence/runs/run-1/metadata");
    assert_eq!(l.observations_dir(), "/ws/.coherence/runs/run-1/metadata/observations");
    assert_eq!(l.run_manifest_path(), "/ws/.coherence/runs/run-1/metadata/run.json");
    assert_eq!(
        l.canonical_pointer_stub_path(),
        "/ws/.coherence/runs/run-1/metadata/canonical-pointer.json"
    );
}

#[test]
fn evidence_root_is_relative_to_workspace() {
    assert_eq!(
        compute_evidence_root_relpath(&RunLayout::new("/ws/", "run-1")),
        Ok(".coherence/runs/run-1".to_string())
    );
    assert_eq!(
        compute_evidence_root_relpath(&RunLayout::new("", "run-x")),
        Ok(".coherence/runs/run-x".to_string())
    );
    assert_eq!(
        compute_evidence_root_relpath(&RunLayout::new("/ws", "/elsewhere")),
        Err("run root must be under workspace_root".to_string())
    );
}

#[test]
fn artifact_path_joins_workspace_root_and_artifact() {
    let p = CanonicalEvidencePointer {
        run_id: "r".into(),
        evidence_root_relpath: ".coherence/runs/r".into(),
        observation_id: "o".into(),
        artifact_relpath_from_run_root: "artifacts/blobs/x.bin".into(),
        payload_sha256_hex: "h".into(),
        payload_summary: "s".into(),
    };
    assert_eq!(resolve_artifact_path("/ws", &p), "/ws/.coherence/runs/r/artifacts/blobs/x.bin");
}

#[test]
fn run_manifest_written_only_once() {
    let l = RunLayout::new("/ws", "run-9");
    assert!(ensure_run_initialized(&l, true, "t").is_none());
    let m = ensure_run_initialized(&l, false, &created_at_label(42)).expect("manifest");
    assert_eq!(m.schema_version, 1);
    assert_eq!(m.run_id, "run-9");
    assert_eq!(m.created_at, "unix_timestamp_seconds=42");
}

#[test]
fn sample_pointer_is_metadata_only() {
    let l = RunLayout::new("/tmp/w", "run-test-1");
    let p = sample_pointer(&l, "abc").expect("pointer");
    assert_eq!(p.run_id, "run-test-1");
    assert_eq!(p.evidence_root_relpath, ".coherence/runs/run-test-1");
    assert_eq!(p.observation_id, "obs-sample-001");
    assert_eq!(p.artifact_relpath_from_run_root, "artifacts/blobs/heavy-payload.bin");
    assert_eq!(p.payload_sha256_hex, "abc");
    assert_eq!(p.payload_summary, "Large JSON blob redacted/truncated; full body in artifact");
    let body = sample_artifact_body();
    assert_eq!(body.len(), SAMPLE_ARTIFACT_LEN);
    assert!(body.iter().all(|b| *b == 0xAB));
}

#[test]
fn push_project_keeps_each_directory_once() {
    let mut v: Vec<(String, String)> = Vec::new();
    push_project(&mut v, "/home/u/git/proj");
    push_project(&mut v, "/home/u/git/proj/");
    push_project(&mut v, "/home/u/git/other");
    assert_eq!(
        v,
        vec![
            ("/home/u/git/proj".to_string(), "proj".to_string()),
            ("/home/u/git/other".to_string(), "other".to_string())
        ]
    );
}

#[test]
fn manifest_path_names_its_project_dir() {
    assert_eq!(
        project_dir_of_manifest("/home/u/git/proj/.coherence/project.toml"),
        Some("/home/u/git/proj".to_string())
    );
    assert_eq!(project_dir_of_manifest("a/project.toml"), Some(String::new()));
    assert_eq!(project_dir_of_manifest("project.toml"), None);
    assert_eq!(project_dir_of_manifest("/"), None);
}

#[test]
fn discovered_projects_start_with_the_current_one() {
    let found = "/x/p/.coherence/project.toml\n/y/q/.coherence/project.toml\n";
    assert_eq!(
        discover_projects(Some("/x/p"), found),
        vec![("/x/p".to_string(), "p".to_string()), ("/y/q".to_string(), "q".to_string())]
    );
    assert_eq!(discover_projects(None, ""), Vec::<(String, String)>::new());
}

#[test]
fn current_project_root_is_nearest_with_manifest() {
    let cwd = "/home/u/git/proj/src";
    let dirs = ancestor_dirs(cwd);
    let marks: Vec<bool> = dirs.iter().map(|d| d == "/home/u/git/proj").collect();
    assert_eq!(current_project_root(cwd, &marks), Some("/home/u/git/proj".to_string()));
}

#[test]
fn sample_payload_is_compact_sorted_json_with_its_hash() {
    let p = coherence_core_db::evidence_store::sample_payload_json();
    assert_eq!(
        p,
        "{\"artifact_relpath_from_run_root\":\"artifacts/blobs/heavy-payload.bin\",\"plan_id\":\"plan-demo\",\"summary\":\"Large JSON blob redacted/truncated; full body in artifact\"}"
    );
    assert_eq!(
        coherence_core_db::evidence_store::snapshot_payload_content_hash(&p),
        coherence_core_db::digest::sha256_hex(p.as_bytes())
    );
}
