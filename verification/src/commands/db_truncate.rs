//! `db truncate --env dev|test|prod --confirm`: reading the flags, and the statements that clear
//! the catalog tables, children before parents.
use vstd::prelude::*;

use crate::db::{escaped_body, mysql_quote_identifier};
use crate::text::{append_str, debug_quote, debug_quoted, owned, str_eq, string_from_chars};

verus! {

/// The tiers `--env` accepts.
pub open spec fn env_valid(e: Seq<char>) -> bool {
    e == "dev"@ || e == "test"@ || e == "prod"@
}

/// Whether `env` is one of `dev`, `test`, `prod`.
pub fn env_is_valid(env: &str) -> (r: bool)
    ensures
        r == env_valid(env@),
{
    str_eq(env, "dev") || str_eq(env, "test") || str_eq(env, "prod")
}

/// Error for an `--env` value outside the tiers.
pub open spec fn invalid_env_message(v: Seq<char>) -> Seq<char> {
    "truncate: --env must be one of dev|test|prod (got "@ + debug_quoted(v) + ")"@
}

/// Error for a flag the command does not know.
pub open spec fn unknown_flag_message(f: Seq<char>) -> Seq<char> {
    "truncate: unknown flag: "@ + f
}

/// Error when `--env` is missing.
pub open spec fn env_required_message() -> Seq<char> {
    "truncate: --env dev|test|prod is required"@
}

/// Error when `--confirm` is missing: the tier, then what would be deleted.
pub open spec fn confirm_required_message(env: Seq<char>) -> Seq<char> {
    "truncate --env "@ + env
        + ": --confirm is required to proceed\nThis will DELETE all rows from specs, acceptance_criteria, codeintel_ac_links,\ncodeintel_code_locations, spec_relations, acceptance_criterion_concerns."@
}

/// The value after the flag at `i`, empty when there is none.
pub open spec fn value_after(args: Seq<Seq<char>>, i: int) -> Seq<char> {
    if i + 1 < args.len() {
        args[i + 1]
    } else {
        Seq::empty()
    }
}

/// Reading the flags from `i` on, with the tier and confirmation seen so far.
pub open spec fn truncate_scan(args: Seq<Seq<char>>, i: int, env: Option<Seq<char>>, confirm: bool) -> Result<
    (Option<Seq<char>>, bool),
    Seq<char>,
>
    decreases args.len() - i,
{
    if i < 0 || i >= args.len() {
        Ok((env, confirm))
    } else if args[i] == "--env"@ {
        let v = value_after(args, i);
        if !env_valid(v) {
            Err(invalid_env_message(v))
        } else {
            truncate_scan(args, if i + 1 < args.len() { i + 2 } else { args.len() as int }, Some(v), confirm)
        }
    } else if args[i] == "--confirm"@ {
        truncate_scan(args, i + 1, env, true)
    } else {
        Err(unknown_flag_message(args[i]))
    }
}

/// The tier to clear, or the error the command stops with.
pub open spec fn truncate_args_spec(args: Seq<Seq<char>>) -> Result<Seq<char>, Seq<char>> {
    match truncate_scan(args, 0, None, false) {
        Err(m) => Err(m),
        Ok((None, _)) => Err(env_required_message()),
        Ok((Some(e), false)) => Err(confirm_required_message(e)),
        Ok((Some(e), true)) => Ok(e),
    }
}

/// Arguments as texts.
pub open spec fn arg_texts(v: Seq<String>) -> Seq<Seq<char>> {
    v.map_values(|s: String| s@)
}

/// The tier named by `--env`, once the flags are valid and `--confirm` is given.
pub fn parse_truncate_args(args: &[String]) -> (r: Result<String, String>)
    ensures
        match r {
            Ok(e) => truncate_args_spec(arg_texts(args@)) == Ok::<Seq<char>, Seq<char>>(e@),
            Err(m) => truncate_args_spec(arg_texts(args@)) == Err::<Seq<char>, Seq<char>>(m@),
        },
{
    let ghost a = arg_texts(args@);
    let mut env: Option<String> = None;
    let mut confirm = false;
    let mut i: usize = 0;
    while i < args.len()
        invariant
            a == arg_texts(args@),
            i <= args@.len(),
            truncate_scan(a, 0, None, false) == truncate_scan(
                a,
                i as int,
                match env {
                    Some(e) => Some(e@),
                    None => None,
                },
                confirm,
            ),
        decreases args@.len() - i,
    {
        let arg = args[i].as_str();
        assert(a[i as int] == arg@);
        if str_eq(arg, "--env") {
            let val: &str = if i + 1 < args.len() {
                args[i + 1].as_str()
            } else {
                ""
            };
            proof {
                reveal_strlit("");
                if i + 1 < args@.len() {
                    assert(a[i + 1] == val@);
                } else {
                    assert(val@ =~= Seq::<char>::empty());
                }
            }
            if !env_is_valid(val) {
                let mut m: Vec<char> = Vec::new();
                append_str(&mut m, "truncate: --env must be one of dev|test|prod (got ");
                let q = debug_quote(val);
                append_str(&mut m, q.as_str());
                append_str(&mut m, ")");
                return Err(string_from_chars(m.as_slice()));
            }
            env = Some(owned(val));
            i = if i + 1 < args.len() {
                i + 2
            } else {
                args.len()
            };
        } else if str_eq(arg, "--confirm") {
            confirm = true;
            i = i + 1;
        } else {
            let mut m: Vec<char> = Vec::new();
            append_str(&mut m, "truncate: unknown flag: ");
            append_str(&mut m, arg);
            return Err(string_from_chars(m.as_slice()));
        }
    }
    match env {
        None => Err(owned("truncate: --env dev|test|prod is required")),
        Some(e) => {
            if !confirm {
                let mut m: Vec<char> = Vec::new();
                append_str(&mut m, "truncate --env ");
                append_str(&mut m, e.as_str());
                append_str(
                    &mut m,
                    ": --confirm is required to proceed\nThis will DELETE all rows from specs, acceptance_criteria, codeintel_ac_links,\ncodeintel_code_locations, spec_relations, acceptance_criterion_concerns.",
                );
                Err(string_from_chars(m.as_slice()))
            } else {
                Ok(e)
            }
        },
    }
}

/// The tables cleared, children before parents.
pub open spec fn truncate_tables_spec() -> Seq<Seq<char>> {
    seq![
        "acceptance_criterion_concerns"@,
        "codeintel_ac_links"@,
        "codeintel_code_locations"@,
        "spec_relations"@,
        "acceptance_criteria"@,
        "specs"@,
    ]
}

/// The tables cleared, children before parents.
pub fn truncate_tables() -> (r: Vec<&'static str>)
    ensures
        r@.map_values(|s: &str| s@) == truncate_tables_spec(),
{
    let v: Vec<&'static str> = vec![
        "acceptance_criterion_concerns",
        "codeintel_ac_links",
        "codeintel_code_locations",
        "spec_relations",
        "acceptance_criteria",
        "specs",
    ];
    assert(v@.map_values(|s: &str| s@) =~= truncate_tables_spec());
    v
}

/// `DELETE FROM <table>`
pub fn delete_statement(table: &str) -> (r: String)
    ensures
        r@ == "DELETE FROM "@ + table@,
{
    let mut m: Vec<char> = Vec::new();
    append_str(&mut m, "DELETE FROM ");
    append_str(&mut m, table);
    string_from_chars(m.as_slice())
}

/// `USE <quoted database>`
pub fn use_statement(database: &str) -> (r: String)
    ensures
        r@ == "USE "@ + seq!['`'] + escaped_body(database@) + seq!['`'],
{
    let q = mysql_quote_identifier(database);
    let mut m: Vec<char> = Vec::new();
    append_str(&mut m, "USE ");
    append_str(&mut m, q.as_str());
    string_from_chars(m.as_slice())
}

} // verus!
