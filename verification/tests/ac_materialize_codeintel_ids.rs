use coherence_core_db::ac_materialize_codeintel_ids::{
    ac_link_id_for_verified_by_file, code_location_id_for_materialized_ac_test,
    normalize_materialize_file_path,
};

#[test]
fn ids_stable_called_twice() {
    let a = code_location_id_for_materialized_ac_test("AC-1", ".", "tests/ac/x/y.rs");
    let b = code_location_id_for_materialized_ac_test("AC-1", ".", "tests/ac/x/y.rs");
    assert_eq!(a, b);
    let la = ac_link_id_for_verified_by_file("AC-1", &a);
    let lb = ac_link_id_for_verified_by_file("AC-1", &a);
    assert_eq!(la, lb);
}

#[test]
fn distinct_paths_distinct_location_ids() {
    let a = code_location_id_for_materialized_ac_test("AC-1", ".", "tests/ac/a.rs");
    let b = code_location_id_for_materialized_ac_test("AC-1", ".", "tests/ac/b.rs");
    assert_ne!(a, b);
}

#[test]
fn distinct_ac_ids_distinct_location_ids_same_path() {
    let a = code_location_id_for_materialized_ac_test("AC-1", ".", "tests/ac/s.rs");
    let b = code_location_id_for_materialized_ac_test("AC-2", ".", "tests/ac/s.rs");
    assert_ne!(a, b);
}

#[test]
fn backslash_normalizes_like_slash() {
    let unix = code_location_id_for_materialized_ac_test("AC-1", ".", "tests/ac/x/y.rs");
    let win = code_location_id_for_materialized_ac_test("AC-1", ".", r"tests\ac\x\y.rs");
    assert_eq!(unix, win);
    let mix_id = code_location_id_for_materialized_ac_test("AC-1", ".", r"tests\ac/x/y.rs");
    assert_eq!(mix_id, unix);
}

#[test]
fn golden_location_and_link_ids_two_ac_path_pairs() {
    let loc = code_location_id_for_materialized_ac_test("AC-GOLD", ".", "tests/ac/golden/path.rs");
    assert_eq!(
        loc,
        "cl-987fa92ffd675e4269402c78eab3543ed2ca983004b558dd475cd6c52930f229"
    );
    let link = ac_link_id_for_verified_by_file("AC-GOLD", &loc);
    assert_eq!(
        link,
        "acl-ea12800667a00040675e4e1505f68a3599e8d74d0274ccc121621589b9210ac3"
    );

    let loc2 = code_location_id_for_materialized_ac_test(
        "AC-SECOND",
        "repo/sub",
        "tests/ac/second/case.rs",
    );
    assert_eq!(
        loc2,
        "cl-08800b01bba85f9e4cb28c583c9f80b791a12b3f21d722ddaf121b59c40858f9"
    );
    let link2 = ac_link_id_for_verified_by_file("AC-SECOND", &loc2);
    assert_eq!(
        link2,
        "acl-f1b689e132a1fb0e990f0753c3ea31b5a6908e3ccf2b04f962facbe3dcfa25e4"
    );

    assert_ne!(loc, loc2);
    assert_ne!(link, link2);
}

#[test]
fn ids_fit_codeintel_varchar191_pk_without_truncation() {
    let long_path = format!("tests/ac/{}/tail.rs", "x".repeat(500));
    let loc = code_location_id_for_materialized_ac_test("AC-LONG", ".", &long_path);
    let link = ac_link_id_for_verified_by_file("AC-LONG", &loc);
    assert_eq!(loc.len(), 3 + 64);
    assert_eq!(link.len(), 4 + 64);
    assert!(loc.len() <= 191);
    assert!(link.len() <= 191);
}

#[test]
fn normalize_materialize_file_path_only_turns_backslashes() {
    assert_eq!(normalize_materialize_file_path(r"a\b/c\\d"), "a/b/c//d");
    assert_eq!(normalize_materialize_file_path("plain"), "plain");
}
