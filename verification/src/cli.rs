//! The command line of `coherence-core-db`: which command the first argument names, the help
//! and version texts, and the exit status of an unknown command.
use vstd::prelude::*;

use crate::text::{owned, str_eq};

verus! {

/// Help printed by `help`, `--help` and `-h`.
pub const HELP_TEXT: &'static str = "coherence-core-db\n\nCommands:\n  help       Show this help\n  doctor     Check runtime assumptions\n  migrate    Run migrations via migration library\n  db-ping    Verify MySQL-protocol readiness (socket first, then TCP)\n  drop-isolated-test-db  Drop a coherence_test_* DB on user-scoped server (ADR-0004)\n  m0-smoke       Run minimal Rust -> Dolt DB vertical slice\n  m1-spec-smoke  Run M1 spec store smoke (Spec / AC / SpecRelation)\n  spec           Manage spec records (add, list, show)\n  ac             Manage acceptance criteria (add, list, show); each AC has a per-spec slug (default from id)\n  ac-tests       AC test files: materialize-rust (create missing tests/ac/**/*.rs), check-rust (hard gate vs graph)\n  verify-ac      Run verified_by linked test commands for one AC\n  verify-spec    Aggregate verify-ac across all ACs for one spec\n  evidence-sample  Create a demo run under .coherence/runs/<run-id>/ (ADR-0005 skeleton)\n  project        Project manifest — run `project init` to freeze dolt_db_name in .coherence/project.toml once project_slug exists (formula in project init usage); operator flow in AGENTS.md (“Project identity and manifest lifecycle”).\n  version        Print version\n\nCanonical repository database — curated catalog vs disposable tests:\n  • Curated catalog — long-lived spec/AC/codeintel rows; never written by tests/smoke without isolation.\n  • Isolated test world — COHERENCE_DB_PROFILE=test and a disposable Dolt target (DOLT_DB naming on user-scoped Dolt).\n  • Per-run evidence — under .coherence/runs/<run-id>/ per ADR-0005; not heavy blobs in canonical tables.\n  • Optional user-scoped server — COHERENCE_USE_USER_SCOPED_DOLT=1: one dolt sql-server, pick catalog with DOLT_DB.\n  Key env: DOLT_SOCKET, DOLT_DB, COHERENCE_DB_PROFILE, COHERENCE_PROJECT_SLUG, COHERENCE_KEEP_TEST_WORLD.\n\nRepository workflow:\n  make tool help\n  make tool doctor\n  make tool context\n  make tool next\n  make tool plan\n  make tool run\n  make tool present-work\n  make tool feedback";

/// Printed by `version`, `--version` and `-V`.
pub const VERSION_TEXT: &'static str = "coherence-core-db 0.1.0";

/// Exit status of an unknown command.
pub const UNKNOWN_COMMAND_EXIT: i32 = 64;

/// The lines `doctor` prints.
pub open spec fn doctor_lines_spec() -> Seq<Seq<char>> {
    seq![
        "coherence-core-db doctor"@,
        "status: ok"@,
        "workflow_backend: local_stub"@,
        "orchestration_owner: external"@,
        "canonical_db_policy: curated catalog only for reasoning state — tests/smoke refuse writes unless COHERENCE_DB_PROFILE=test (see coherence-core-db help, AGENTS.md)"@,
    ]
}

/// The lines `doctor` prints.
pub fn doctor_lines() -> (r: Vec<&'static str>)
    ensures
        r@.map_values(|s: &str| s@) == doctor_lines_spec(),
{
    let v: Vec<&'static str> = vec![
        "coherence-core-db doctor",
        "status: ok",
        "workflow_backend: local_stub",
        "orchestration_owner: external",
        "canonical_db_policy: curated catalog only for reasoning state — tests/smoke refuse writes unless COHERENCE_DB_PROFILE=test (see coherence-core-db help, AGENTS.md)",
    ];
    assert(v@.map_values(|s: &str| s@) =~= doctor_lines_spec());
    v
}

/// The commands of `coherence-core-db`.
#[derive(Debug)]
pub enum CliCommand {
    Help,
    Doctor,
    Migrate,
    DbPing,
    DropIsolatedTestDb,
    M0Smoke,
    M1SpecSmoke,
    Spec,
    Ac,
    AcTests,
    VerifyAc,
    VerifySpec,
    EvidenceSample,
    Project,
    Version,
    /// A name that is none of the above.
    Unknown(String),
}

/// The command named `name`.
pub open spec fn command_named(name: Seq<char>) -> CliCommand {
    if name == "help"@ || name == "--help"@ || name == "-h"@ {
        CliCommand::Help
    } else if name == "doctor"@ {
        CliCommand::Doctor
    } else if name == "migrate"@ {
        CliCommand::Migrate
    } else if name == "db-ping"@ {
        CliCommand::DbPing
    } else if name == "drop-isolated-test-db"@ {
        CliCommand::DropIsolatedTestDb
    } else if name == "m0-smoke"@ {
        CliCommand::M0Smoke
    } else if name == "m1-spec-smoke"@ {
        CliCommand::M1SpecSmoke
    } else if name == "spec"@ {
        CliCommand::Spec
    } else if name == "ac"@ {
        CliCommand::Ac
    } else if name == "ac-tests"@ {
        CliCommand::AcTests
    } else if name == "verify-ac"@ {
        CliCommand::VerifyAc
    } else if name == "verify-spec"@ {
        CliCommand::VerifySpec
    } else if name == "evidence-sample"@ {
        CliCommand::EvidenceSample
    } else if name == "project"@ {
        CliCommand::Project
    } else if name == "version"@ || name == "--version"@ || name == "-V"@ {
        CliCommand::Version
    } else {
        CliCommand::Unknown(arbitrary())
    }
}

/// Same command, an unknown one carrying `name`.
pub open spec fn same_command(c: CliCommand, name: Seq<char>) -> bool {
    match (c, command_named(name)) {
        (CliCommand::Unknown(s), CliCommand::Unknown(_)) => s@ == name,
        (CliCommand::Help, CliCommand::Help) => true,
        (CliCommand::Doctor, CliCommand::Doctor) => true,
        (CliCommand::Migrate, CliCommand::Migrate) => true,
        (CliCommand::DbPing, CliCommand::DbPing) => true,
        (CliCommand::DropIsolatedTestDb, CliCommand::DropIsolatedTestDb) => true,
        (CliCommand::M0Smoke, CliCommand::M0Smoke) => true,
        (CliCommand::M1SpecSmoke, CliCommand::M1SpecSmoke) => true,
        (CliCommand::Spec, CliCommand::Spec) => true,
        (CliCommand::Ac, CliCommand::Ac) => true,
        (CliCommand::AcTests, CliCommand::AcTests) => true,
        (CliCommand::VerifyAc, CliCommand::VerifyAc) => true,
        (CliCommand::VerifySpec, CliCommand::VerifySpec) => true,
        (CliCommand::EvidenceSample, CliCommand::EvidenceSample) => true,
        (CliCommand::Project, CliCommand::Project) => true,
        (CliCommand::Version, CliCommand::Version) => true,
        _ => false,
    }
}

/// The command named by the program's first argument (`args[1]`), `help` when there is none.
pub fn cli_command(args: &[String]) -> (r: CliCommand)
    ensures
        same_command(r, if args@.len() > 1 { args@[1]@ } else { "help"@ }),
{
    proof {
        reveal_strlit("help");
    }
    let name: &str = if args.len() > 1 {
        args[1].as_str()
    } else {
        "help"
    };
    if str_eq(name, "help") || str_eq(name, "--help") || str_eq(name, "-h") {
        CliCommand::Help
    } else if str_eq(name, "doctor") {
        CliCommand::Doctor
    } else if str_eq(name, "migrate") {
        CliCommand::Migrate
    } else if str_eq(name, "db-ping") {
        CliCommand::DbPing
    } else if str_eq(name, "drop-isolated-test-db") {
        CliCommand::DropIsolatedTestDb
    } else if str_eq(name, "m0-smoke") {
        CliCommand::M0Smoke
    } else if str_eq(name, "m1-spec-smoke") {
        CliCommand::M1SpecSmoke
    } else if str_eq(name, "spec") {
        CliCommand::Spec
    } else if str_eq(name, "ac") {
        CliCommand::Ac
    } else if str_eq(name, "ac-tests") {
        CliCommand::AcTests
    } else if str_eq(name, "verify-ac") {
        CliCommand::VerifyAc
    } else if str_eq(name, "verify-spec") {
        CliCommand::VerifySpec
    } else if str_eq(name, "evidence-sample") {
        CliCommand::EvidenceSample
    } else if str_eq(name, "project") {
        CliCommand::Project
    } else if str_eq(name, "version") || str_eq(name, "--version") || str_eq(name, "-V") {
        CliCommand::Version
    } else {
        CliCommand::Unknown(owned(name))
    }
}

/// What an unknown command prints before exiting with `UNKNOWN_COMMAND_EXIT`.
pub open spec fn unknown_command_text(name: Seq<char>) -> Seq<char> {
    "unknown command: "@ + name + "\nrun: coherence-core-db help"@
}

/// What an unknown command prints.
pub fn unknown_command_message(name: &str) -> (r: String)
    ensures
        r@ == unknown_command_text(name@),
{
    crate::text::concat3("unknown command: ", name, "\nrun: coherence-core-db help")
}

} // verus!
