//! `ac-tests`: the expected Rust AC test files in path order, their path checks, and the
//! codeintel rows that link each present file to its criterion.
use vstd::prelude::*;

use crate::ac_materialize_codeintel_ids::{
    ac_link_id_for_verified_by_file, code_location_id_for_materialized_ac_test, link_id,
    location_id,
};
use crate::ac_test_layout::{ExpectedAcTestFile, expected_rust_ac_test_files, file_of, known_acs, sort_by_id};
use crate::models::{AcCodeLink, AcCodeRelationKind, CodeLocation, SpecGraph};
use crate::paths::{components, path_components, strip_components, strip_prefix_components};
use crate::text::{append_str, contains_double_dot, join_path, join_path_spec, contains_seq, debug_quote, debug_quoted, has_prefix,
    owned, starts_with_str, str_eq, string_from_chars};
use crate::text_sort::{lemma_insert_at, lemma_sort_by_key_sorted, sort_by_key, sorted_by_key, text_lt, text_lt_exec};

verus! {

/// The `ac-tests` subcommands.
#[derive(Debug, Clone, Copy, PartialEq, Eq, Structural)]
pub enum AcTestsCommand {
    MaterializeRust,
    CheckRust,
}

/// Usage line when no subcommand is given.
pub open spec fn ac_tests_usage() -> Seq<char> {
    "usage: coherence-core-db ac-tests <materialize-rust | check-rust> [--workspace <dir>] ..."@
}

/// Error for an unknown subcommand.
pub open spec fn unknown_ac_tests_message(other: Seq<char>) -> Seq<char> {
    "unknown ac-tests subcommand: "@ + other
        + " (expected materialize-rust or check-rust)\nmaterialize-rust: create missing tests/ac/**/*.rs from the DB graph (see ac-tests check-rust)\ncheck-rust: verify every expected file exists; exits 1 if any are missing"@
}

/// The subcommand named by the first argument.
pub fn parse_ac_tests_subcommand(args: &[String]) -> (r: Result<AcTestsCommand, String>)
    ensures
        args@.len() == 0 ==> (r matches Err(m) && m@ == ac_tests_usage()),
        args@.len() > 0 ==> (args@[0]@ == "materialize-rust"@ ==> r == Ok::<AcTestsCommand, String>(AcTestsCommand::MaterializeRust)),
        args@.len() > 0 ==> (args@[0]@ != "materialize-rust"@ && args@[0]@ == "check-rust"@ ==> r == Ok::<AcTestsCommand, String>(AcTestsCommand::CheckRust)),
        args@.len() > 0 ==> (args@[0]@ != "materialize-rust"@ && args@[0]@ != "check-rust"@ ==> (r matches Err(m) && m@ == unknown_ac_tests_message(args@[0]@))),
{
    if args.len() == 0 {
        return Err(owned("usage: coherence-core-db ac-tests <materialize-rust | check-rust> [--workspace <dir>] ..."));
    }
    let sub = args[0].as_str();
    if str_eq(sub, "materialize-rust") {
        Ok(AcTestsCommand::MaterializeRust)
    } else if str_eq(sub, "check-rust") {
        Ok(AcTestsCommand::CheckRust)
    } else {
        let mut msg: Vec<char> = Vec::new();
        append_str(&mut msg, "unknown ac-tests subcommand: ");
        append_str(&mut msg, sub);
        append_str(&mut msg, " (expected materialize-rust or check-rust)\nmaterialize-rust: create missing tests/ac/**/*.rs from the DB graph (see ac-tests check-rust)\ncheck-rust: verify every expected file exists; exits 1 if any are missing");
        Err(string_from_chars(msg.as_slice()))
    }
}

/// Error for a path outside `tests/ac/`.
pub open spec fn outside_layout_message(rel: Seq<char>) -> Seq<char> {
    "internal layout error: expected path under tests/ac/, got "@ + debug_quoted(rel)
}

/// Error for a path that climbs out with `..`.
pub open spec fn unsafe_path_message(rel: Seq<char>) -> Seq<char> {
    "unsafe relative path: "@ + debug_quoted(rel)
}

/// A relative test path must start with `tests/ac/` and hold no `..`.
pub fn validate_tests_ac_rel_path(rel: &str) -> (r: Result<(), String>)
    ensures
        !has_prefix(rel@, "tests/ac/"@) ==> (r matches Err(m) && m@ == outside_layout_message(rel@)),
        has_prefix(rel@, "tests/ac/"@) && contains_seq(rel@, ".."@) ==> (r matches Err(m) && m@
            == unsafe_path_message(rel@)),
        r is Ok <==> has_prefix(rel@, "tests/ac/"@) && !contains_seq(rel@, ".."@),
{
    if !starts_with_str(rel, "tests/ac/") {
        let mut msg: Vec<char> = Vec::new();
        append_str(&mut msg, "internal layout error: expected path under tests/ac/, got ");
        let q = debug_quote(rel);
        append_str(&mut msg, q.as_str());
        return Err(string_from_chars(msg.as_slice()));
    }
    if contains_double_dot(rel) {
        let mut msg: Vec<char> = Vec::new();
        append_str(&mut msg, "unsafe relative path: ");
        let q = debug_quote(rel);
        append_str(&mut msg, q.as_str());
        return Err(string_from_chars(msg.as_slice()));
    }
    Ok(())
}

/// The sort key of an expected file: its path.
pub open spec fn file_path_key() -> spec_fn(ExpectedAcTestFile) -> Seq<char> {
    |f: ExpectedAcTestFile| f.file_path@
}

/// The files stably sorted by path.
pub fn sort_files_by_path(v: Vec<ExpectedAcTestFile>) -> (r: Vec<ExpectedAcTestFile>)
    ensures
        r@ == sort_by_key(v@, file_path_key()),
        sorted_by_key(r@, file_path_key()),
{
    let ghost orig = v@;
    let n = v.len();
    let mut rest = v;
    let mut out: Vec<ExpectedAcTestFile> = Vec::new();
    let mut i: usize = 0;
    while rest.len() > 0
        invariant
            n == orig.len(),
            i <= orig.len(),
            rest@ == orig.subrange(i as int, orig.len() as int),
            out@ == sort_by_key(orig.subrange(0, i as int), file_path_key()),
        decreases rest@.len(),
    {
        let f = rest.remove(0);
        assert(f == orig[i as int]);
        assert(orig.subrange(0, i + 1).drop_last() =~= orig.subrange(0, i as int));
        let mut p: usize = out.len();
        while p > 0 && text_lt_exec(f.file_path.as_str(), out[p - 1].file_path.as_str())
            invariant
                p <= out@.len(),
                forall|k: int| p <= k < out@.len() ==> text_lt((file_path_key())(f), (file_path_key())(#[trigger] out@[k])),
            decreases p,
        {
            p = p - 1;
        }
        proof {
            lemma_insert_at(out@, f, file_path_key(), p as int);
        }
        out.insert(p, f);
        assert(out@ =~= sort_by_key(orig.subrange(0, i + 1), file_path_key()));
        assert(rest@ =~= orig.subrange(i + 1, orig.len() as int));
        i = i + 1;
    }
    assert(orig.subrange(0, orig.len() as int) =~= orig);
    proof {
        lemma_sort_by_key_sorted(orig, file_path_key());
    }
    out
}

/// `v` lists the expected test files of `graph`, in criterion id order.
pub open spec fn files_of_graph(v: Seq<ExpectedAcTestFile>, graph: SpecGraph) -> bool {
    let acs = sort_by_id(known_acs(graph.acceptance_criteria@, graph.specs@));
    &&& v.len() == acs.len()
    &&& forall|k: int| 0 <= k < v.len() ==> file_of(#[trigger] v[k], acs[k])
}

/// The expected test files of `graph`, stably sorted by path.
pub fn sorted_expected_rust_ac_test_files(graph: &SpecGraph) -> (r: Vec<ExpectedAcTestFile>)
    ensures
        exists|v: Seq<ExpectedAcTestFile>| files_of_graph(v, *graph) && r@ == sort_by_key(
            v,
            file_path_key(),
        ),
        sorted_by_key(r@, file_path_key()),
{
    let expected = expected_rust_ac_test_files(graph);
    let ghost e = expected@;
    assert(files_of_graph(e, *graph));
    sort_files_by_path(expected)
}

/// The code location row of a present test file: repo path `.`, its test command.
pub fn materialized_location(file: &ExpectedAcTestFile) -> (r: CodeLocation)
    ensures
        r.id@ == location_id(file.ac_id@, "."@, file.file_path@),
        r.repo_path@ == "."@,
        r.file_path@ == file.file_path@,
        r.kind == crate::models::CodeLocationKind::TestFile,
        r.symbol is None,
        r.test_command == Some(file.test_command),
        r.created_at@.len() == 0,
        r.updated_at@.len() == 0,
{
    let loc_id = code_location_id_for_materialized_ac_test(file.ac_id.as_str(), ".", file.file_path.as_str());
    let mut loc = CodeLocation::new(loc_id.as_str(), ".", file.file_path.as_str());
    loc.test_command = Some(file.test_command.clone());
    loc
}

/// The `verified_by` link row from a test file's criterion to its location.
pub fn materialized_link(file: &ExpectedAcTestFile, loc_id: &str) -> (r: AcCodeLink)
    ensures
        r.id@ == link_id(file.ac_id@, loc_id@),
        r.ac_id@ == file.ac_id@,
        r.code_location_id@ == loc_id@,
        r.relation_kind == AcCodeRelationKind::VerifiedBy,
        r.note@.len() == 0,
        r.created_at@.len() == 0,
        r.updated_at@.len() == 0,
{
    let link_id_text = ac_link_id_for_verified_by_file(file.ac_id.as_str(), loc_id);
    AcCodeLink::new(link_id_text.as_str(), file.ac_id.as_str(), loc_id, AcCodeRelationKind::VerifiedBy)
}


/// What the file system holds at a path.
#[derive(Debug, Clone, Copy, PartialEq, Eq, Structural)]
pub enum FileState {
    Absent,
    RegularFile,
    /// Something that is not a regular file (a directory, for one).
    Other,
}

/// The outcome of `validate_tests_ac_rel_path`.
pub open spec fn rel_path_check(rel: Seq<char>) -> Result<(), Seq<char>> {
    if !has_prefix(rel, "tests/ac/"@) {
        Err(outside_layout_message(rel))
    } else if contains_seq(rel, ".."@) {
        Err(unsafe_path_message(rel))
    } else {
        Ok(())
    }
}

/// `abs` lies under `root`, component by component.
pub open spec fn path_under(abs: Seq<char>, root: Seq<char>) -> bool {
    strip_components(components(abs), components(root)) is Some
}

/// Whether `abs` lies under `root`, component by component.
pub fn path_starts_with(abs: &str, root: &str) -> (r: bool)
    ensures
        r == path_under(abs@, root@),
{
    let a = path_components(abs);
    let b = path_components(root);
    strip_prefix_components(a.as_slice(), b.as_slice()).is_some()
}

/// `workspace/tests/ac`
pub open spec fn tests_ac_root(workspace: Seq<char>) -> Seq<char> {
    join_path_spec(workspace, "tests/ac"@)
}

/// Materializing one expected file at `rel` whose path holds `state`: `Ok(true)` when a regular
/// file is there already, `Ok(false)` when it is to be written, else the refusal.
pub open spec fn materialize_check(workspace: Seq<char>, rel: Seq<char>, state: FileState) -> Result<bool, Seq<char>> {
    let abs = join_path_spec(workspace, rel);
    if rel_path_check(rel) is Err {
        Err(rel_path_check(rel)->Err_0)
    } else if !path_under(abs, tests_ac_root(workspace)) {
        Err("refusing to write outside tests/ac: "@ + abs)
    } else {
        match state {
            FileState::RegularFile => Ok(true),
            FileState::Other => Err("refusing to write: "@ + abs + " exists and is not a regular file"@),
            FileState::Absent => Ok(false),
        }
    }
}

/// The paths to write and those present already, in order, or the first refusal.
pub open spec fn materialize_outcome(
    workspace: Seq<char>,
    files: Seq<ExpectedAcTestFile>,
    states: Seq<FileState>,
) -> Result<(Seq<Seq<char>>, Seq<Seq<char>>), Seq<char>>
    decreases files.len(),
{
    if files.len() == 0 || states.len() == 0 {
        Ok((Seq::empty(), Seq::empty()))
    } else {
        match materialize_check(workspace, files[0].file_path@, states[0]) {
            Err(e) => Err(e),
            Ok(present) => match materialize_outcome(workspace, files.drop_first(), states.drop_first()) {
                Err(e) => Err(e),
                Ok((c, e)) => if present {
                    Ok((c, seq![files[0].file_path@] + e))
                } else {
                    Ok((seq![files[0].file_path@] + c, e))
                },
            },
        }
    }
}

/// `r` after the paths `c` to write and `e` present already.
pub open spec fn after_paths(
    c: Seq<Seq<char>>,
    e: Seq<Seq<char>>,
    r: Result<(Seq<Seq<char>>, Seq<Seq<char>>), Seq<char>>,
) -> Result<(Seq<Seq<char>>, Seq<Seq<char>>), Seq<char>> {
    match r {
        Err(x) => Err(x),
        Ok((c2, e2)) => Ok((c + c2, e + e2)),
    }
}

/// Strings as their texts.
pub open spec fn string_texts(v: Seq<String>) -> Seq<Seq<char>> {
    v.map_values(|x: String| x@)
}

/// Builds `prefix` followed by `abs` and `suffix`.
fn message_with_path(prefix: &str, abs: &str, suffix: &str) -> (r: String)
    ensures
        r@ == prefix@ + abs@ + suffix@,
{
    let mut m: Vec<char> = Vec::new();
    append_str(&mut m, prefix);
    append_str(&mut m, abs);
    append_str(&mut m, suffix);
    string_from_chars(m.as_slice())
}

/// Builds `prefix` followed by `abs`.
fn message_ending_in_path(prefix: &str, abs: &str) -> (r: String)
    ensures
        r@ == prefix@ + abs@,
{
    let mut m: Vec<char> = Vec::new();
    append_str(&mut m, prefix);
    append_str(&mut m, abs);
    string_from_chars(m.as_slice())
}

/// Which of the expected `files` (in order) are to be written under `workspace` and which are
/// present already, `states[i]` being what the file system holds at the `i`-th file's path;
/// the caller writes the files to create. The first refused file makes it an error.
pub fn materialize_rust_ac_tests(workspace: &str, files: &[ExpectedAcTestFile], states: &[FileState]) -> (r: Result<
    (Vec<String>, Vec<String>),
    String,
>)
    requires
        files@.len() == states@.len(),
    ensures
        match r {
            Ok((c, e)) => materialize_outcome(workspace@, files@, states@) == Ok::<
                (Seq<Seq<char>>, Seq<Seq<char>>),
                Seq<char>,
            >((string_texts(c@), string_texts(e@))),
            Err(m) => materialize_outcome(workspace@, files@, states@) == Err::<
                (Seq<Seq<char>>, Seq<Seq<char>>),
                Seq<char>,
            >(m@),
        },
{
    let root = join_path(workspace, "tests/ac");
    let mut created: Vec<String> = Vec::new();
    let mut existing: Vec<String> = Vec::new();
    let mut i: usize = 0;
    assert(files@.subrange(0, files@.len() as int) =~= files@);
    assert(states@.subrange(0, states@.len() as int) =~= states@);
    assert(string_texts(created@) =~= Seq::<Seq<char>>::empty());
    assert(string_texts(existing@) =~= Seq::<Seq<char>>::empty());
    while i < files.len()
        invariant
            files@.len() == states@.len(),
            i <= files@.len(),
            root@ == tests_ac_root(workspace@),
            materialize_outcome(workspace@, files@, states@) == after_paths(
                string_texts(created@),
                string_texts(existing@),
                materialize_outcome(
                    workspace@,
                    files@.subrange(i as int, files@.len() as int),
                    states@.subrange(i as int, states@.len() as int),
                ),
            ),
        decreases files@.len() - i,
    {
        let ghost fs = files@.subrange(i as int, files@.len() as int);
        let ghost ss = states@.subrange(i as int, states@.len() as int);
        assert(fs.drop_first() =~= files@.subrange(i + 1, files@.len() as int));
        assert(ss.drop_first() =~= states@.subrange(i + 1, states@.len() as int));
        assert(fs[0] == files@[i as int]);
        assert(ss[0] == states@[i as int]);
        let rel = files[i].file_path.as_str();
        match validate_tests_ac_rel_path(rel) {
            Err(e) => {
                return Err(e);
            },
            Ok(()) => {},
        }
        let abs = join_path(workspace, rel);
        if !path_starts_with(abs.as_str(), root.as_str()) {
            return Err(message_ending_in_path("refusing to write outside tests/ac: ", abs.as_str()));
        }
        let ghost (c0, e0) = (string_texts(created@), string_texts(existing@));
        match states[i] {
            FileState::RegularFile => {
                existing.push(owned(rel));
                proof {
                    assert(string_texts(existing@) =~= e0.push(rel@));
                    let rest = materialize_outcome(workspace@, fs.drop_first(), ss.drop_first());
                    match rest {
                        Ok((c2, e2)) => {
                            assert(e0 + (seq![rel@] + e2) =~= e0.push(rel@) + e2);
                        },
                        Err(x) => {},
                    }
                }
            },
            FileState::Other => {
                return Err(message_with_path("refusing to write: ", abs.as_str(), " exists and is not a regular file"));
            },
            FileState::Absent => {
                created.push(owned(rel));
                proof {
                    assert(string_texts(created@) =~= c0.push(rel@));
                    let rest = materialize_outcome(workspace@, fs.drop_first(), ss.drop_first());
                    match rest {
                        Ok((c2, e2)) => {
                            assert(c0 + (seq![rel@] + c2) =~= c0.push(rel@) + c2);
                        },
                        Err(x) => {},
                    }
                }
            },
        }
        i = i + 1;
    }
    proof {
        let fs = files@.subrange(i as int, files@.len() as int);
        assert(fs.len() == 0);
        assert(string_texts(created@) + Seq::<Seq<char>>::empty() =~= string_texts(created@));
        assert(string_texts(existing@) + Seq::<Seq<char>>::empty() =~= string_texts(existing@));
    }
    Ok((created, existing))
}

/// Checking one expected file at `rel` whose path holds `state`: `Ok(true)` when it is missing.
pub open spec fn missing_check(workspace: Seq<char>, rel: Seq<char>, state: FileState) -> Result<bool, Seq<char>> {
    let abs = join_path_spec(workspace, rel);
    if rel_path_check(rel) is Err {
        Err(rel_path_check(rel)->Err_0)
    } else if !path_under(abs, tests_ac_root(workspace)) {
        Err("refusing to scan outside tests/ac: "@ + abs)
    } else {
        match state {
            FileState::RegularFile => Ok(false),
            FileState::Other => Err("expected AC test path exists but is not a regular file: "@ + abs),
            FileState::Absent => Ok(true),
        }
    }
}

/// `(criterion id, path)` of each missing file, in order, or the first refusal.
pub open spec fn missing_outcome(
    workspace: Seq<char>,
    files: Seq<ExpectedAcTestFile>,
    states: Seq<FileState>,
) -> Result<Seq<(Seq<char>, Seq<char>)>, Seq<char>>
    decreases files.len(),
{
    if files.len() == 0 || states.len() == 0 {
        Ok(Seq::empty())
    } else {
        match missing_check(workspace, files[0].file_path@, states[0]) {
            Err(e) => Err(e),
            Ok(missing) => match missing_outcome(workspace, files.drop_first(), states.drop_first()) {
                Err(e) => Err(e),
                Ok(m) => if missing {
                    Ok(seq![(files[0].ac_id@, files[0].file_path@)] + m)
                } else {
                    Ok(m)
                },
            },
        }
    }
}

/// Pairs as texts.
pub open spec fn pair_texts(v: Seq<(String, String)>) -> Seq<(Seq<char>, Seq<char>)> {
    v.map_values(|p: (String, String)| (p.0@, p.1@))
}

/// `(criterion id, path)` of each expected file (in order) that is absent under `workspace`,
/// `states[i]` being what the file system holds at the `i`-th file's path.
pub fn missing_rust_ac_test_files(workspace: &str, files: &[ExpectedAcTestFile], states: &[FileState]) -> (r: Result<
    Vec<(String, String)>,
    String,
>)
    requires
        files@.len() == states@.len(),
    ensures
        match r {
            Ok(m) => missing_outcome(workspace@, files@, states@) == Ok::<Seq<(Seq<char>, Seq<char>)>, Seq<char>>(
                pair_texts(m@),
            ),
            Err(e) => missing_outcome(workspace@, files@, states@) == Err::<Seq<(Seq<char>, Seq<char>)>, Seq<char>>(e@),
        },
{
    let root = join_path(workspace, "tests/ac");
    let mut missing: Vec<(String, String)> = Vec::new();
    let mut i: usize = 0;
    assert(files@.subrange(0, files@.len() as int) =~= files@);
    assert(states@.subrange(0, states@.len() as int) =~= states@);
    assert(pair_texts(missing@) + missing_outcome(workspace@, files@, states@)->Ok_0 =~= missing_outcome(
        workspace@,
        files@,
        states@,
    )->Ok_0);
    while i < files.len()
        invariant
            files@.len() == states@.len(),
            i <= files@.len(),
            root@ == tests_ac_root(workspace@),
            missing_outcome(workspace@, files@, states@) == match missing_outcome(
                workspace@,
                files@.subrange(i as int, files@.len() as int),
                states@.subrange(i as int, states@.len() as int),
            ) {
                Err(x) => Err(x),
                Ok(m) => Ok(pair_texts(missing@) + m),
            },
        decreases files@.len() - i,
    {
        let ghost fs = files@.subrange(i as int, files@.len() as int);
        let ghost ss = states@.subrange(i as int, states@.len() as int);
        assert(fs.drop_first() =~= files@.subrange(i + 1, files@.len() as int));
        assert(ss.drop_first() =~= states@.subrange(i + 1, states@.len() as int));
        assert(fs[0] == files@[i as int]);
        assert(ss[0] == states@[i as int]);
        let rel = files[i].file_path.as_str();
        match validate_tests_ac_rel_path(rel) {
            Err(e) => {
                return Err(e);
            },
            Ok(()) => {},
        }
        let abs = join_path(workspace, rel);
        if !path_starts_with(abs.as_str(), root.as_str()) {
            return Err(message_ending_in_path("refusing to scan outside tests/ac: ", abs.as_str()));
        }
        let ghost m0 = pair_texts(missing@);
        match states[i] {
            FileState::RegularFile => {},
            FileState::Other => {
                return Err(
                    message_ending_in_path("expected AC test path exists but is not a regular file: ", abs.as_str()),
                );
            },
            FileState::Absent => {
                missing.push((owned(files[i].ac_id.as_str()), owned(rel)));
                proof {
                    assert(pair_texts(missing@) =~= m0.push((files@[i as int].ac_id@, rel@)));
                    let rest = missing_outcome(workspace@, fs.drop_first(), ss.drop_first());
                    match rest {
                        Ok(m2) => {
                            assert(m0 + (seq![(files@[i as int].ac_id@, rel@)] + m2) =~= m0.push(
                                (files@[i as int].ac_id@, rel@),
                            ) + m2);
                        },
                        Err(x) => {},
                    }
                }
            },
        }
        i = i + 1;
    }
    proof {
        assert(pair_texts(missing@) + Seq::<(Seq<char>, Seq<char>)>::empty() =~= pair_texts(missing@));
    }
    Ok(missing)
}

/// The file states once every absent file has been written.
pub open spec fn after_writing(states: Seq<FileState>) -> Seq<FileState> {
    states.map_values(|st: FileState| if st == FileState::Absent { FileState::RegularFile } else { st })
}

/// The paths of `files`, in order.
pub open spec fn file_paths(files: Seq<ExpectedAcTestFile>) -> Seq<Seq<char>> {
    files.map_values(|f: ExpectedAcTestFile| f.file_path@)
}

/// Once a materialization has gone through and its files are written, a check finds nothing
/// missing, and materializing again writes nothing and finds every expected file present.
pub proof fn lemma_materialize_then_check(workspace: Seq<char>, files: Seq<ExpectedAcTestFile>, states: Seq<FileState>)
    requires
        files.len() == states.len(),
        materialize_outcome(workspace, files, states) is Ok,
    ensures
        missing_outcome(workspace, files, after_writing(states)) == Ok::<Seq<(Seq<char>, Seq<char>)>, Seq<char>>(
            Seq::empty(),
        ),
        materialize_outcome(workspace, files, after_writing(states)) == Ok::<
            (Seq<Seq<char>>, Seq<Seq<char>>),
            Seq<char>,
        >((Seq::empty(), file_paths(files))),
    decreases files.len(),
{
    let w = after_writing(states);
    if files.len() > 0 {
        assert(w.drop_first() =~= after_writing(states.drop_first()));
        assert(file_paths(files) =~= seq![files[0].file_path@] + file_paths(files.drop_first()));
        lemma_materialize_then_check(workspace, files.drop_first(), states.drop_first());
    } else {
        assert(file_paths(files) =~= Seq::<Seq<char>>::empty());
    }
}
} // verus!
