//! `spec add|list|show`: argument handling, the spec to store, and the printed lines. The
//! clock and the database are the caller's.
use vstd::prelude::*;

use crate::commands::cli_parse::{FlagsView, ParsedArgs, flag_values, flags_view, parse_args, parse_spec,
    strings_view};
use crate::commands::verify_ac_cmd::{escape_tab_field, lines_view, tab_safe};
use crate::models::{Spec, SpecLevel, SpecStatus};
use crate::text::{append_str, debug_quote, debug_quoted, join_messages, joined, owned, str_eq,
    string_from_chars};

verus! {

/// The subcommands of `spec` and `ac`.
#[derive(Debug, Clone, Copy, PartialEq, Eq, Structural)]
pub enum CrudSubcommand {
    Add,
    List,
    Show,
}

/// The subcommand of `<noun> <add|list|show> ...`.
pub open spec fn crud_subcommand_spec(args: Seq<Seq<char>>, noun: Seq<char>) -> Result<CrudSubcommand, Seq<char>> {
    if args.len() == 0 {
        Err("usage: coherence-core-db "@ + noun + " <add|list|show> ..."@)
    } else if args[0] == "add"@ {
        Ok(CrudSubcommand::Add)
    } else if args[0] == "list"@ {
        Ok(CrudSubcommand::List)
    } else if args[0] == "show"@ {
        Ok(CrudSubcommand::Show)
    } else {
        Err("unknown "@ + noun + " subcommand: "@ + args[0] + " (expected add, list, show)"@)
    }
}

fn text3(a: &str, b: &str, c: &str) -> (r: String)
    ensures
        r@ == a@ + b@ + c@,
{
    let mut v: Vec<char> = Vec::new();
    append_str(&mut v, a);
    append_str(&mut v, b);
    append_str(&mut v, c);
    string_from_chars(v.as_slice())
}

/// The subcommand named by the first argument.
pub fn parse_crud_subcommand(args: &[String], noun: &str) -> (r: Result<CrudSubcommand, String>)
    ensures
        match crud_subcommand_spec(strings_view(args@), noun@) {
            Ok(c) => r == Ok::<CrudSubcommand, String>(c),
            Err(m) => r matches Err(e) && e@ == m,
        },
{
    if args.len() == 0 {
        return Err(text3("usage: coherence-core-db ", noun, " <add|list|show> ..."));
    }
    let sub = args[0].as_str();
    assert(strings_view(args@)[0] == sub@);
    if str_eq(sub, "add") {
        Ok(CrudSubcommand::Add)
    } else if str_eq(sub, "list") {
        Ok(CrudSubcommand::List)
    } else if str_eq(sub, "show") {
        Ok(CrudSubcommand::Show)
    } else {
        let mut v: Vec<char> = Vec::new();
        append_str(&mut v, "unknown ");
        append_str(&mut v, noun);
        append_str(&mut v, " subcommand: ");
        append_str(&mut v, sub);
        append_str(&mut v, " (expected add, list, show)");
        Err(string_from_chars(v.as_slice()))
    }
}

/// `--name` at most once: its value, if given.
pub open spec fn single_of(f: FlagsView, name: Seq<char>) -> Result<Option<Seq<char>>, Seq<char>> {
    let v = flag_values(f, name);
    if v.len() == 0 {
        Ok(None)
    } else if v.len() == 1 {
        Ok(Some(v[0]))
    } else {
        Err("--"@ + name + " must appear at most once"@)
    }
}

/// The value, or `d` when absent.
pub open spec fn or_default(o: Option<Seq<char>>, d: Seq<char>) -> Seq<char> {
    match o {
        Some(x) => x,
        None => d,
    }
}

/// `--name` as a required single value.
pub fn required_flag(p: &ParsedArgs, name: &str) -> (r: Result<String, String>)
    requires
        p.wf(),
    ensures
        match single_of(flags_view(p.flags@), name@) {
            Err(m) => r matches Err(e) && e@ == m,
            Ok(None) => r matches Err(e) && e@ == "--"@ + name@ + " is required"@,
            Ok(Some(v)) => r matches Ok(s) && s@ == v,
        },
{
    match p.single_flag(name) {
        Err(e) => Err(e),
        Ok(None) => Err(text3("--", name, " is required")),
        Ok(Some(v)) => Ok(owned(v)),
    }
}

/// `--name` as an optional single value, with a default.
pub fn flag_or(p: &ParsedArgs, name: &str, default: &str) -> (r: Result<String, String>)
    requires
        p.wf(),
    ensures
        match single_of(flags_view(p.flags@), name@) {
            Err(m) => r matches Err(e) && e@ == m,
            Ok(v) => r matches Ok(s) && s@ == or_default(v, default@),
        },
{
    match p.single_flag(name) {
        Err(e) => Err(e),
        Ok(None) => Ok(owned(default)),
        Ok(Some(v)) => Ok(owned(v)),
    }
}

/// The fields of `spec add`: `(id, slug, title, description, level, status)`.
pub open spec fn spec_add_spec(args: Seq<Seq<char>>, fallback_id: Seq<char>) -> Result<(Seq<char>, Seq<char>, Seq<char>, Seq<char>, SpecLevel, SpecStatus), Seq<char>> {
    match parse_spec(args) {
        Err(m) => Err(m),
        Ok((f, _)) => match single_of(f, "slug"@) {
            Err(m) => Err(m),
            Ok(None) => Err("--"@ + "slug"@ + " is required"@),
            Ok(Some(slug)) => match single_of(f, "title"@) {
                Err(m) => Err(m),
                Ok(None) => Err("--"@ + "title"@ + " is required"@),
                Ok(Some(title)) => match single_of(f, "description"@) {
                    Err(m) => Err(m),
                    Ok(d) => match single_of(f, "level"@) {
                        Err(m) => Err(m),
                        Ok(l) => match single_of(f, "status"@) {
                            Err(m) => Err(m),
                            Ok(s) => match single_of(f, "id"@) {
                                Err(m) => Err(m),
                                Ok(i) => {
                                    let level_str = or_default(l, "module"@);
                                    let status_str = or_default(s, "draft"@);
                                    match SpecLevel::from_db_label(level_str) {
                                        None => Err("unknown --"@ + "level"@ + " "@ + debug_quoted(level_str) + " ("@ + "product|system|module"@ + ")"@),
                                        Some(level) => match SpecStatus::from_db_label(status_str) {
                                            None => Err("unknown --"@ + "status"@ + " "@ + debug_quoted(status_str) + " ("@ + "draft|active|deprecated|archived"@ + ")"@),
                                            Some(status) => Ok((or_default(i, fallback_id), slug, title, or_default(d, ""@), level, status)),
                                        },
                                    }
                                },
                            },
                        },
                    },
                },
            },
        },
    }
}

fn unknown_value(flag: &str, value: &str, choices: &str) -> (r: String)
    ensures
        r@ == "unknown --"@ + flag@ + " "@ + debug_quoted(value@) + " ("@ + choices@ + ")"@,
{
    let mut v: Vec<char> = Vec::new();
    append_str(&mut v, "unknown --");
    append_str(&mut v, flag);
    append_str(&mut v, " ");
    append_str(&mut v, debug_quote(value).as_str());
    append_str(&mut v, " (");
    append_str(&mut v, choices);
    append_str(&mut v, ")");
    string_from_chars(v.as_slice())
}

/// The spec `spec add` stores, stamped `ts`; `fallback_id` when no `--id` is given.
pub fn spec_add_plan(args: &[String], fallback_id: &str, ts: &str) -> (r: Result<Spec, String>)
    ensures
        match spec_add_spec(strings_view(args@), fallback_id@) {
            Err(m) => r matches Err(e) && e@ == m,
            Ok((id, slug, title, desc, level, status)) => r matches Ok(s) && s.id@ == id && s.slug@
                == slug && s.title@ == title && s.description@ == desc && s.level == level && s.status
                == status && s.created_at@ == ts@ && s.updated_at@ == ts@,
        },
{
    let p = match parse_args(args) {
        Ok(p) => p,
        Err(e) => {
            return Err(e);
        },
    };
    let slug = match required_flag(&p, "slug") {
        Ok(v) => v,
        Err(e) => {
            return Err(e);
        },
    };
    let title = match required_flag(&p, "title") {
        Ok(v) => v,
        Err(e) => {
            return Err(e);
        },
    };
    proof {
        reveal_strlit("");
    }
    let description = match flag_or(&p, "description", "") {
        Ok(v) => v,
        Err(e) => {
            return Err(e);
        },
    };
    let level_str = match flag_or(&p, "level", "module") {
        Ok(v) => v,
        Err(e) => {
            return Err(e);
        },
    };
    let status_str = match flag_or(&p, "status", "draft") {
        Ok(v) => v,
        Err(e) => {
            return Err(e);
        },
    };
    let id = match flag_or(&p, "id", fallback_id) {
        Ok(v) => v,
        Err(e) => {
            return Err(e);
        },
    };
    let level = match SpecLevel::from_db_str(level_str.as_str()) {
        Some(l) => l,
        None => {
            return Err(unknown_value("level", level_str.as_str(), "product|system|module"));
        },
    };
    let status = match SpecStatus::from_db_str(status_str.as_str()) {
        Some(s) => s,
        None => {
            return Err(unknown_value("status", status_str.as_str(), "draft|active|deprecated|archived"));
        },
    };
    let mut spec = Spec::new(id.as_str(), title.as_str());
    spec.slug = slug;
    spec.description = description;
    spec.level = level;
    spec.status = status;
    spec.created_at = owned(ts);
    spec.updated_at = owned(ts);
    Ok(spec)
}

fn line2(a: &str, b: &str) -> (r: String)
    ensures
        r@ == a@ + b@,
{
    let mut v: Vec<char> = Vec::new();
    append_str(&mut v, a);
    append_str(&mut v, b);
    string_from_chars(v.as_slice())
}

/// What `spec add` prints.
pub fn spec_added_lines(spec: &Spec) -> (r: Vec<String>)
    ensures
        lines_view(r@) == seq!["spec_id: "@ + spec.id@, "slug: "@ + spec.slug@],
{
    let mut out: Vec<String> = Vec::new();
    out.push(line2("spec_id: ", spec.id.as_str()));
    out.push(line2("slug: ", spec.slug.as_str()));
    assert(lines_view(out@) =~= seq!["spec_id: "@ + spec.id@, "slug: "@ + spec.slug@]);
    out
}

/// `spec list` takes no arguments.
pub fn check_spec_list_args(args: &[String]) -> (r: Result<(), String>)
    ensures
        args@.len() == 0 ==> r is Ok,
        args@.len() > 0 ==> (r matches Err(e) && e@ == "unexpected arguments to spec list: "@
            + debug_quoted(joined(strings_view(args@), " "@))),
{
    if args.len() == 0 {
        return Ok(());
    }
    let all = join_messages(args, " ");
    assert(args@.map_values(|s: String| s@) =~= strings_view(args@));
    Err(line2("unexpected arguments to spec list: ", debug_quote(all.as_str()).as_str()))
}

/// The row of `spec list`.
pub open spec fn spec_row_text(s: Spec) -> Seq<char> {
    s.id@ + "\t"@ + s.slug@ + "\t"@ + tab_safe(s.title@) + "\t"@ + s.level.db_label() + "\t"@
        + s.status.db_label()
}

/// `id\tslug\ttitle\tlevel\tstatus` for one spec, the title on one line.
pub fn spec_list_line(s: &Spec) -> (r: String)
    ensures
        r@ == spec_row_text(*s),
{
    let mut v: Vec<char> = Vec::new();
    append_str(&mut v, s.id.as_str());
    append_str(&mut v, "\t");
    append_str(&mut v, s.slug.as_str());
    append_str(&mut v, "\t");
    append_str(&mut v, escape_tab_field(s.title.as_str()).as_str());
    append_str(&mut v, "\t");
    append_str(&mut v, s.level.as_db_str());
    append_str(&mut v, "\t");
    append_str(&mut v, s.status.as_db_str());
    string_from_chars(v.as_slice())
}

/// The id `<noun> show` reads: `--id`, a single positional, or both when they agree.
pub open spec fn show_id_spec(args: Seq<Seq<char>>, noun: Seq<char>, pos_name: Seq<char>) -> Result<Seq<char>, Seq<char>> {
    match parse_spec(args) {
        Err(m) => Err(m),
        Ok((f, pos)) => if pos.len() > 1 {
            Err(noun + " show: expected at most one "@ + pos_name + " positional"@)
        } else {
            match single_of(f, "id"@) {
                Err(m) => Err(m),
                Ok(Some(a)) => if pos.len() == 1 && a != pos[0] {
                    Err(noun + " show: --id and positional "@ + pos_name + " disagree"@)
                } else {
                    Ok(a)
                },
                Ok(None) => if pos.len() == 1 {
                    Ok(pos[0])
                } else {
                    Err(noun + " show requires <"@ + pos_name + "> or --id <"@ + pos_name + ">"@)
                },
            }
        },
    }
}

/// Resolves the id of `<noun> show`: see `show_id_spec`.
pub fn resolve_show_id(args: &[String], noun: &str, pos_name: &str) -> (r: Result<String, String>)
    ensures
        match show_id_spec(strings_view(args@), noun@, pos_name@) {
            Ok(id) => r matches Ok(s) && s@ == id,
            Err(m) => r matches Err(e) && e@ == m,
        },
{
    let p = match parse_args(args) {
        Ok(p) => p,
        Err(e) => {
            return Err(e);
        },
    };
    assert(strings_view(p.positionals@).len() == p.positionals@.len());
    if p.positionals.len() > 1 {
        let mut v: Vec<char> = Vec::new();
        append_str(&mut v, noun);
        append_str(&mut v, " show: expected at most one ");
        append_str(&mut v, pos_name);
        append_str(&mut v, " positional");
        return Err(string_from_chars(v.as_slice()));
    }
    let id_flag = match p.single_flag("id") {
        Ok(v) => v,
        Err(e) => {
            return Err(e);
        },
    };
    if p.positionals.len() == 1 {
        assert(strings_view(p.positionals@)[0] == p.positionals@[0]@);
    }
    match id_flag {
        Some(a) => {
            if p.positionals.len() == 1 && !str_eq(a, p.positionals[0].as_str()) {
                let mut v: Vec<char> = Vec::new();
                append_str(&mut v, noun);
                append_str(&mut v, " show: --id and positional ");
                append_str(&mut v, pos_name);
                append_str(&mut v, " disagree");
                return Err(string_from_chars(v.as_slice()));
            }
            Ok(owned(a))
        },
        None => {
            if p.positionals.len() == 1 {
                Ok(p.positionals[0].clone())
            } else {
                let mut v: Vec<char> = Vec::new();
                append_str(&mut v, noun);
                append_str(&mut v, " show requires <");
                append_str(&mut v, pos_name);
                append_str(&mut v, "> or --id <");
                append_str(&mut v, pos_name);
                append_str(&mut v, ">");
                Err(string_from_chars(v.as_slice()))
            }
        },
    }
}

/// What `spec show` prints.
pub open spec fn spec_show_text(s: Spec) -> Seq<Seq<char>> {
    seq![
        "id: "@ + s.id@,
        "slug: "@ + s.slug@,
        "title: "@ + s.title@,
        "description: "@ + s.description@,
        "level: "@ + s.level.db_label(),
        "status: "@ + s.status.db_label(),
        "created_at: "@ + s.created_at@,
        "updated_at: "@ + s.updated_at@,
    ]
}

/// The lines of `spec show`.
pub fn spec_show_lines(s: &Spec) -> (r: Vec<String>)
    ensures
        lines_view(r@) == spec_show_text(*s),
{
    let mut out: Vec<String> = Vec::new();
    out.push(line2("id: ", s.id.as_str()));
    out.push(line2("slug: ", s.slug.as_str()));
    out.push(line2("title: ", s.title.as_str()));
    out.push(line2("description: ", s.description.as_str()));
    out.push(line2("level: ", s.level.as_db_str()));
    out.push(line2("status: ", s.status.as_db_str()));
    out.push(line2("created_at: ", s.created_at.as_str()));
    out.push(line2("updated_at: ", s.updated_at.as_str()));
    assert(lines_view(out@) =~= spec_show_text(*s));
    out
}

} // verus!
