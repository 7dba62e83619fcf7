//! `project <subcommand>` and `db <subcommand>`: which subcommand the arguments name, and what
//! the command prints when they name none it knows.
use vstd::prelude::*;

use crate::text::{concat3, owned, str_eq, trim_chars, trim_seq};

verus! {

/// Exit status when the `project` arguments are wrong.
pub const PROJECT_USAGE_EXIT: i32 = 64;

/// The `project` subcommands.
#[derive(Debug)]
pub enum ProjectCommand {
    /// No subcommand: print the usage.
    Usage,
    CatalogPreflight,
    Init,
    Reset,
    /// `reset` with arguments, which it does not take.
    ResetWithArguments,
    Unknown(String),
}

/// The `project` subcommand named by the first argument.
pub open spec fn project_command_matches(r: ProjectCommand, args: Seq<Seq<char>>) -> bool {
    if args.len() == 0 {
        r is Usage
    } else if args[0] == "catalog-preflight"@ {
        r is CatalogPreflight
    } else if args[0] == "init"@ {
        r is Init
    } else if args[0] == "reset"@ {
        if args.len() > 1 {
            r is ResetWithArguments
        } else {
            r is Reset
        }
    } else {
        r matches ProjectCommand::Unknown(s) && s@ == args[0]
    }
}

/// The `project` subcommand that the arguments name.
pub fn project_command(args: &[String]) -> (r: ProjectCommand)
    ensures
        project_command_matches(r, args@.map_values(|s: String| s@)),
{
    if args.len() == 0 {
        return ProjectCommand::Usage;
    }
    let sub = args[0].as_str();
    assert(args@.map_values(|s: String| s@)[0] == sub@);
    if str_eq(sub, "catalog-preflight") {
        ProjectCommand::CatalogPreflight
    } else if str_eq(sub, "init") {
        ProjectCommand::Init
    } else if str_eq(sub, "reset") {
        if args.len() > 1 {
            ProjectCommand::ResetWithArguments
        } else {
            ProjectCommand::Reset
        }
    } else {
        ProjectCommand::Unknown(owned(sub))
    }
}

/// The usage printed when no subcommand is given.
pub open spec fn project_usage_spec() -> Seq<Seq<char>> {
    seq![
        "usage: coherence-core-db project <subcommand>"@,
        "project catalog-preflight  verify git root + `.coherence/project.toml` slug/hash binding before db-ping/dolt-start (shared with doctor)"@,
        "project init binds project_hash (and derived legacy dolt_db_name) in .coherence/project.toml after project_slug is set — see AGENTS.md (\"Project identity and manifest lifecycle\")."@,
        "project reset  idempotent repair: keeps project_slug, runs init bind-if-needed, then migrate (Dolt must be up)"@,
        "run: coherence-core-db help"@,
    ]
}

/// The usage printed when no subcommand is given.
pub fn project_usage_lines() -> (r: Vec<&'static str>)
    ensures
        r@.map_values(|s: &str| s@) == project_usage_spec(),
{
    let v: Vec<&'static str> = vec![
        "usage: coherence-core-db project <subcommand>",
        "project catalog-preflight  verify git root + `.coherence/project.toml` slug/hash binding before db-ping/dolt-start (shared with doctor)",
        "project init binds project_hash (and derived legacy dolt_db_name) in .coherence/project.toml after project_slug is set — see AGENTS.md (\"Project identity and manifest lifecycle\").",
        "project reset  idempotent repair: keeps project_slug, runs init bind-if-needed, then migrate (Dolt must be up)",
        "run: coherence-core-db help",
    ];
    assert(v@.map_values(|s: &str| s@) =~= project_usage_spec());
    v
}

/// What an unknown `project` subcommand prints.
pub open spec fn unknown_project_text(name: Seq<char>) -> Seq<char> {
    "unknown project subcommand: "@ + name
        + " (expected: catalog-preflight | init | reset)\nsee AGENTS.md (Project identity and manifest lifecycle) for manifest setup.\nrun: coherence-core-db help"@
}

/// What an unknown `project` subcommand prints.
pub fn unknown_project_message(name: &str) -> (r: String)
    ensures
        r@ == unknown_project_text(name@),
{
    concat3(
        "unknown project subcommand: ",
        name,
        " (expected: catalog-preflight | init | reset)\nsee AGENTS.md (Project identity and manifest lifecycle) for manifest setup.\nrun: coherence-core-db help",
    )
}

/// `project reset` refuses a manifest whose slug is blank.
pub fn check_reset_slug(project_slug: &str) -> (r: Result<(), String>)
    ensures
        r is Ok <==> trim_seq(project_slug@).len() > 0,
        r matches Err(m) ==> m@ == "project_slug is empty in `.coherence/project.toml`; set it before reset"@,
{
    let t = trim_chars(project_slug);
    if t.len() == 0 {
        Err(owned("project_slug is empty in `.coherence/project.toml`; set it before reset"))
    } else {
        Ok(())
    }
}

/// The `db` subcommands.
#[derive(Debug)]
pub enum DbCommand {
    Truncate,
    ExportJsonl,
    ImportJsonl,
    ListDatabases,
    Unknown(String),
}

/// The `db` subcommand named by the first argument.
pub open spec fn db_command_matches(r: DbCommand, first: Seq<char>) -> bool {
    if first == "truncate"@ {
        r is Truncate
    } else if first == "export-jsonl"@ {
        r is ExportJsonl
    } else if first == "import-jsonl"@ {
        r is ImportJsonl
    } else if first == "list-databases"@ {
        r is ListDatabases
    } else {
        r matches DbCommand::Unknown(s) && s@ == first
    }
}

/// The `db` subcommand that the first argument names. The subcommand's own arguments follow
/// it, so there is at least that one argument.
pub fn db_command(args: &[String]) -> (r: DbCommand)
    requires
        args@.len() > 0,
    ensures
        db_command_matches(r, args@[0]@),
{
    let sub = args[0].as_str();
    if str_eq(sub, "truncate") {
        DbCommand::Truncate
    } else if str_eq(sub, "export-jsonl") {
        DbCommand::ExportJsonl
    } else if str_eq(sub, "import-jsonl") {
        DbCommand::ImportJsonl
    } else if str_eq(sub, "list-databases") {
        DbCommand::ListDatabases
    } else {
        DbCommand::Unknown(owned(sub))
    }
}

/// What an unknown `db` subcommand prints.
pub open spec fn unknown_db_text(name: Seq<char>) -> Seq<char> {
    "db: unknown subcommand: "@ + name + " (expected truncate, export-jsonl, import-jsonl, list-databases)"@
}

/// What an unknown `db` subcommand prints.
pub fn unknown_db_message(name: &str) -> (r: String)
    ensures
        r@ == unknown_db_text(name@),
{
    concat3("db: unknown subcommand: ", name, " (expected truncate, export-jsonl, import-jsonl, list-databases)")
}

} // verus!
