//! `project init`: bind the project hash and catalog name once, from the frozen git
//! worktree path. Reading and writing the manifest and asking git stay with the caller;
//! the decisions are here.
use vstd::prelude::*;

use crate::project_manifest::{
    CURRENT_MANIFEST_SCHEMA_VERSION, ProjectManifest, bind_name_spec, dolt_db_name_for_bind, empty_slug_message,
    sanitized_segment, short_hash_frozen_git_path, short_hash_spec,
};
use crate::text::{all_white_space, append_str, debug_quote, debug_quoted, is_blank, is_white_space, owned, str_eq,
    string_from_chars, trim_chars, trim_seq};

verus! {

/// Parsed `project init` arguments.
#[derive(Debug)]
pub struct InitArgs {
    pub workspace: Option<String>,
    pub slug: Option<String>,
    pub force_rebind: bool,
}

/// `(workspace, slug, force_rebind)` as plain values.
pub type InitArgsView = (Option<Seq<char>>, Option<Seq<char>>, bool);

/// The next token looks like a flag.
pub open spec fn flag_like(v: Seq<char>) -> bool {
    v.len() > 0 && v[0] == '-'
}

/// Parsing from position `i` with what was parsed so far; `Err` carries the message.
pub open spec fn parse_init_from(args: Seq<Seq<char>>, i: int, acc: InitArgsView) -> Result<InitArgsView, Seq<char>>
    decreases args.len() - i,
{
    if i < 0 || i >= args.len() {
        Ok(acc)
    } else if args[i] == "--force-rebind"@ {
        parse_init_from(args, i + 1, (acc.0, acc.1, true))
    } else if args[i] == "--workspace"@ {
        if i + 1 >= args.len() {
            Err("--workspace requires a path"@)
        } else if flag_like(args[i + 1]) && args[i + 1] != "-"@ {
            Err("--workspace requires a path (next token looks like a flag)"@)
        } else {
            parse_init_from(args, i + 2, (Some(args[i + 1]), acc.1, acc.2))
        }
    } else if args[i] == "--slug"@ {
        if i + 1 >= args.len() {
            Err("--slug requires a value"@)
        } else if flag_like(args[i + 1]) {
            Err("--slug requires a value (next token looks like a flag)"@)
        } else {
            parse_init_from(args, i + 2, (acc.0, Some(args[i + 1]), acc.2))
        }
    } else {
        Err("unexpected argument "@ + debug_quoted(args[i]) + " (try --workspace, --slug, --force-rebind)"@)
    }
}

/// Views of a list of strings.
pub open spec fn args_view(v: Seq<String>) -> Seq<Seq<char>> {
    v.map_values(|s: String| s@)
}

/// View of an optional string.
pub open spec fn opt_text(o: Option<String>) -> Option<Seq<char>> {
    match o {
        Some(s) => Some(s@),
        None => None,
    }
}

fn err_text(s: &str) -> (r: Result<InitArgs, String>)
    ensures
        r matches Err(m) && m@ == s@,
{
    Err(owned(s))
}

/// Parse `project init` argv: `--workspace PATH`, `--slug SLUG`, `--force-rebind`.
pub fn parse_init_argv(args: &[String]) -> (r: Result<InitArgs, String>)
    ensures
        match parse_init_from(args_view(args@), 0, (None, None, false)) {
            Ok(v) => r matches Ok(a) && (opt_text(a.workspace), opt_text(a.slug), a.force_rebind) == v,
            Err(m) => r matches Err(e) && e@ == m,
        },
{
    let ghost av = args_view(args@);
    let mut workspace: Option<String> = None;
    let mut slug: Option<String> = None;
    let mut force_rebind = false;
    let mut i: usize = 0;
    while i < args.len()
        invariant
            av == args_view(args@),
            i <= args@.len(),
            parse_init_from(av, i as int, (opt_text(workspace), opt_text(slug), force_rebind))
                == parse_init_from(av, 0, (None, None, false)),
        decreases args@.len() - i,
    {
        let tok = args[i].as_str();
        assert(av[i as int] == tok@);
        if str_eq(tok, "--force-rebind") {
            force_rebind = true;
            i = i + 1;
        } else if str_eq(tok, "--workspace") {
            if i + 1 >= args.len() {
                return err_text("--workspace requires a path");
            }
            let v = args[i + 1].as_str();
            assert(av[i + 1] == v@);
            if v.unicode_len() > 0 && v.get_char(0) == '-' && !str_eq(v, "-") {
                return err_text("--workspace requires a path (next token looks like a flag)");
            }
            workspace = Some(owned(v));
            i = i + 2;
        } else if str_eq(tok, "--slug") {
            if i + 1 >= args.len() {
                return err_text("--slug requires a value");
            }
            let v = args[i + 1].as_str();
            assert(av[i + 1] == v@);
            if v.unicode_len() > 0 && v.get_char(0) == '-' {
                return err_text("--slug requires a value (next token looks like a flag)");
            }
            slug = Some(owned(v));
            i = i + 2;
        } else {
            let mut msg: Vec<char> = Vec::new();
            append_str(&mut msg, "unexpected argument ");
            let q = debug_quote(tok);
            append_str(&mut msg, q.as_str());
            append_str(&mut msg, " (try --workspace, --slug, --force-rebind)");
            return Err(string_from_chars(msg.as_slice()));
        }
    }
    Ok(InitArgs { workspace, slug, force_rebind })
}

/// The manifest to start from: the one on disk, else a version-1 skeleton for `--slug`.
pub fn initial_manifest(existing: Option<ProjectManifest>, slug: Option<String>) -> (r: Result<ProjectManifest, String>)
    ensures
        match existing {
            Some(m) => r == Ok::<ProjectManifest, String>(m),
            None => match slug {
                Some(s) => r == Ok::<ProjectManifest, String>(ProjectManifest {
                    version: 1,
                    project_slug: s,
                    dolt_db_name: None,
                    frozen_git_toplevel: None,
                    project_hash: None,
                    dolt_mode: None,
                }),
                None => r matches Err(e) && e@ == "missing .coherence/project.toml: pass --slug to create one"@,
            },
        },
{
    match existing {
        Some(m) => Ok(m),
        None => match slug {
            Some(s) => Ok(
                ProjectManifest {
                    version: 1,
                    project_slug: s,
                    dolt_db_name: None,
                    frozen_git_toplevel: None,
                    project_hash: None,
                    dolt_mode: None,
                },
            ),
            None => Err(owned("missing .coherence/project.toml: pass --slug to create one")),
        },
    }
}

/// What `project init` does next with a manifest.
#[derive(Debug, Clone, PartialEq, Eq)]
pub enum InitStep {
    /// Already bound: report, showing this frozen path.
    Report(String),
    /// Bind to this (trimmed) frozen path.
    Bind(String),
    /// Bind to the worktree root that git reports.
    BindGitToplevel,
}

/// The hash of the manifest, when set and not blank.
pub open spec fn has_hash(m: ProjectManifest) -> bool {
    m.project_hash matches Some(h) && !all_white_space(h@)
}

/// The trimmed frozen path of the manifest, when set and not blank.
pub open spec fn frozen_path(m: ProjectManifest) -> Option<Seq<char>> {
    match m.frozen_git_toplevel {
        Some(f) => if trim_seq(f@).len() > 0 {
            Some(trim_seq(f@))
        } else {
            None
        },
        None => None,
    }
}

/// Error for a manifest with a catalog name but nothing to derive its hash from.
pub open spec fn orphan_message() -> Seq<char> {
    "manifest has dolt_db_name but no project_hash and no frozen_git_toplevel; cannot derive hash (use --force-rebind after fixing the repo — old Dolt database on the server may be orphaned)"@
}

/// Decides the next step: a blank slug is an error; `--force-rebind` asks git; a bound
/// manifest is reported; otherwise bind to the frozen path, or ask git when there is none
/// (an error when a catalog name is already recorded).
pub fn plan_init(m: &ProjectManifest, force_rebind: bool) -> (r: Result<InitStep, String>)
    ensures
        all_white_space(m.project_slug@) ==> (r matches Err(e) && e@
            == "project_slug in manifest is empty; fix project.toml or use --slug with no manifest"@),
        !all_white_space(m.project_slug@) && force_rebind ==> r == Ok::<InitStep, String>(InitStep::BindGitToplevel),
        !all_white_space(m.project_slug@) && !force_rebind && has_hash(*m) ==> (r matches Ok(InitStep::Report(f))
            && f@ == match m.frozen_git_toplevel {
                Some(x) => trim_seq(x@),
                None => Seq::empty(),
            }),
        !all_white_space(m.project_slug@) && !force_rebind && !has_hash(*m) ==> match frozen_path(*m) {
            Some(p) => r matches Ok(InitStep::Bind(x)) && x@ == p,
            None => if m.dolt_db_name is Some {
                r matches Err(e) && e@ == orphan_message()
            } else {
                r == Ok::<InitStep, String>(InitStep::BindGitToplevel)
            },
        },
{
    if is_blank(m.project_slug.as_str()) {
        return Err(owned("project_slug in manifest is empty; fix project.toml or use --slug with no manifest"));
    }
    if force_rebind {
        return Ok(InitStep::BindGitToplevel);
    }
    let bound = match &m.project_hash {
        Some(h) => !is_blank(h.as_str()),
        None => false,
    };
    if bound {
        let shown = match &m.frozen_git_toplevel {
            Some(f) => string_from_chars(trim_chars(f.as_str()).as_slice()),
            None => String::new(),
        };
        return Ok(InitStep::Report(shown));
    }
    match &m.frozen_git_toplevel {
        Some(f) => {
            let t = trim_chars(f.as_str());
            if t.len() > 0 {
                return Ok(InitStep::Bind(string_from_chars(t.as_slice())));
            }
        },
        None => {},
    }
    if m.dolt_db_name.is_some() {
        return Err(owned("manifest has dolt_db_name but no project_hash and no frozen_git_toplevel; cannot derive hash (use --force-rebind after fixing the repo — old Dolt database on the server may be orphaned)"));
    }
    Ok(InitStep::BindGitToplevel)
}

/// The worktree root from git's standard output: trimmed, and not empty.
pub fn toplevel_from_git_stdout(stdout: &str) -> (r: Result<String, String>)
    ensures
        trim_seq(stdout@).len() == 0 ==> (r matches Err(e) && e@
            == "git rev-parse --show-toplevel returned empty stdout"@),
        trim_seq(stdout@).len() > 0 ==> (r matches Ok(s) && s@ == trim_seq(stdout@)),
{
    let t = trim_chars(stdout);
    if t.len() == 0 {
        return Err(owned("git rev-parse --show-toplevel returned empty stdout"));
    }
    Ok(string_from_chars(t.as_slice()))
}

/// Records the binding to `frozen_git_path`: schema version at least 2, the short path
/// hash, the trimmed path and the catalog name. Fails, changing nothing, when the slug
/// leaves no catalog name. A bound manifest has a hash, so `plan_init` without
/// `--force-rebind` only reports it afterwards: the hash is bound once.
pub fn apply_bind(manifest: &mut ProjectManifest, frozen_git_path: &str) -> (r: Result<(), String>)
    ensures
        r is Ok <==> sanitized_segment(old(manifest).project_slug@).len() > 0,
        r is Err ==> *final(manifest) == *old(manifest),
        r matches Err(m) ==> m@ == empty_slug_message(),
        r is Ok ==> has_hash(*final(manifest)),
        r is Ok ==> {
            &&& final(manifest).version == if old(manifest).version >= CURRENT_MANIFEST_SCHEMA_VERSION {
                old(manifest).version
            } else {
                CURRENT_MANIFEST_SCHEMA_VERSION
            }
            &&& final(manifest).project_slug == old(manifest).project_slug
            &&& opt_text(final(manifest).project_hash) == Some(short_hash_spec(frozen_git_path@))
            &&& opt_text(final(manifest).frozen_git_toplevel) == Some(trim_seq(frozen_git_path@))
            &&& opt_text(final(manifest).dolt_db_name) == Some(
                bind_name_spec(old(manifest).project_slug@, frozen_git_path@),
            )
            &&& final(manifest).dolt_mode == old(manifest).dolt_mode
        },
{
    let hash = short_hash_frozen_git_path(frozen_git_path);
    let dolt_db = match dolt_db_name_for_bind(manifest.project_slug.as_str(), frozen_git_path) {
        Ok(n) => n,
        Err(e) => {
            return Err(e);
        },
    };
    if manifest.version < CURRENT_MANIFEST_SCHEMA_VERSION {
        manifest.version = CURRENT_MANIFEST_SCHEMA_VERSION;
    }
    proof {
        let c = hash@[0];
        assert(('0' <= c && c <= '9') || ('a' <= c && c <= 'f'));
        assert(!all_white_space(hash@)) by {
            assert(!is_white_space(hash@[0]));
        }
    }
    manifest.project_hash = Some(hash);
    manifest.frozen_git_toplevel = Some(string_from_chars(trim_chars(frozen_git_path).as_slice()));
    manifest.dolt_db_name = Some(dolt_db);
    Ok(())
}

/// Text of an optional value, empty when absent.
pub open spec fn or_empty(o: Option<String>) -> Seq<char> {
    match o {
        Some(s) => s@,
        None => Seq::empty(),
    }
}

fn line(label: &str, value: &str) -> (r: String)
    ensures
        r@ == label@ + value@,
{
    let mut v: Vec<char> = Vec::new();
    append_str(&mut v, label);
    append_str(&mut v, value);
    string_from_chars(v.as_slice())
}

/// The summary printed after `project init`, one entry per line.
pub fn summary_lines(m: &ProjectManifest, frozen_toplevel_display: &str) -> (r: Vec<String>)
    ensures
        r@.len() == 4,
        r@[0]@ == "project_slug: "@ + m.project_slug@,
        r@[1]@ == "project_hash: "@ + or_empty(m.project_hash),
        r@[2]@ == "dolt_db_name: "@ + or_empty(m.dolt_db_name),
        r@[3]@ == "frozen_git_toplevel: "@ + frozen_toplevel_display@,
{
    let mut out: Vec<String> = Vec::new();
    out.push(line("project_slug: ", m.project_slug.as_str()));
    let h = match &m.project_hash {
        Some(h) => h.as_str(),
        None => "",
    };
    proof {
        reveal_strlit("");
    }
    out.push(line("project_hash: ", h));
    let d = match &m.dolt_db_name {
        Some(d) => d.as_str(),
        None => "",
    };
    out.push(line("dolt_db_name: ", d));
    out.push(line("frozen_git_toplevel: ", frozen_toplevel_display));
    out
}

} // verus!
