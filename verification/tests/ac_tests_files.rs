use coherence_core_db::ac_test_layout::ExpectedAcTestFile;
use coherence_core_db::commands::ac_tests_cmd::{
    materialize_rust_ac_tests, missing_rust_ac_test_files, sorted_expected_rust_ac_test_files, FileState,
};
use coherence_core_db::models::{AcceptanceCriterion, Spec, SpecGraph};

fn file(ac_id: &str, path: &str) -> ExpectedAcTestFile {
    ExpectedAcTestFile {
        ac_id: ac_id.into(),
        file_path: path.into(),
        test_command: String::new(),
        content: String::new(),
    }
}

#[test]
fn materialize_splits_files_to_write_from_present_ones() {
    let files = vec![file("AC-A", "tests/ac/root/a.rs"), file("AC-B", "tests/ac/root/b.rs")];
    let (c1, e1) =
        materialize_rust_ac_tests("/ws", &files, &[FileState::Absent, FileState::RegularFile]).expect("first");
    assert_eq!(c1, vec!["tests/ac/root/a.rs"]);
    assert_eq!(e1, vec!["tests/ac/root/b.rs"]);
    let (c2, e2) =
        materialize_rust_ac_tests("/ws", &files, &[FileState::RegularFile, FileState::RegularFile]).expect("second");
    assert!(c2.is_empty());
    assert_eq!(e2, vec!["tests/ac/root/a.rs", "tests/ac/root/b.rs"]);
}

#[test]
fn check_lists_absent_files_with_their_criteria() {
    let files = vec![file("AC-ONE", "tests/ac/r/one.rs"), file("AC-TWO", "tests/ac/r/two.rs")];
    let missing =
        missing_rust_ac_test_files("/ws", &files, &[FileState::RegularFile, FileState::Absent]).expect("scan");
    assert_eq!(missing, vec![("AC-TWO".to_string(), "tests/ac/r/two.rs".to_string())]);
    let none = missing_rust_ac_test_files("/ws", &files, &[FileState::RegularFile, FileState::RegularFile]).expect("scan");
    assert!(none.is_empty());
}

#[test]
fn refuses_a_path_that_is_not_a_regular_file() {
    let files = vec![file("AC-D", "tests/ac/r/d.rs")];
    assert_eq!(
        materialize_rust_ac_tests("/w", &files, &[FileState::Other]),
        Err("refusing to write: /w/tests/ac/r/d.rs exists and is not a regular file".to_string())
    );
    assert_eq!(
        missing_rust_ac_test_files("/w", &files, &[FileState::Other]),
        Err("expected AC test path exists but is not a regular file: /w/tests/ac/r/d.rs".to_string())
    );
}

#[test]
fn refuses_paths_that_climb_out() {
    let files = vec![file("AC-X", "tests/ac/../x.rs")];
    assert_eq!(
        missing_rust_ac_test_files("/w", &files, &[FileState::Absent]),
        Err("unsafe relative path: \"tests/ac/../x.rs\"".to_string())
    );
}

#[test]
fn flat_layout_paths_are_refused_by_the_tests_ac_check() {
    let mut ac = AcceptanceCriterion::new("AC-MAT-1", "SPEC-R", "Testing materialize");
    ac.slug = "sample-ac".into();
    let graph = SpecGraph::new(vec![Spec::new("SPEC-R", "Root")], vec![ac], vec![]);
    let files = sorted_expected_rust_ac_test_files(&graph);
    assert_eq!(
        materialize_rust_ac_tests("/tmp/ws", &files, &[FileState::Absent]),
        Err("internal layout error: expected path under tests/ac/, got \"tests/ac_sample-ac.rs\"".to_string())
    );
}
