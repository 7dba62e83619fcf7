//! CodeScene X-Ray for one file: the review's structural issues, the server's code smells, the
//! file's path relative to the repository, the API requests and the local-analysis report.
//!
//! The caller runs `cs review`, `git` and the HTTP calls, and reads the JSON replies into the
//! plain field records below; scores and friction, which are floating point, stay with it.
use vstd::prelude::*;

use crate::text::{append_decimal, append_i64, append_str, decimal, has_prefix, has_suffix, int_text, join_path, join_path_spec, owned, starts_with_str, str_eq, string_from_chars, trim_chars, trim_seq, ends_with_str};

verus! {

/// Base URL of the CodeScene REST API.
pub const CS_API_URL: &'static str = "https://api.codescene.io/v2";

/// How to reach the CodeScene API.
#[derive(Debug)]
pub struct ApiConfig {
    pub url: String,
    pub project_id: String,
    pub token: String,
}

impl ApiConfig {
    /// The API settings from the access token and project id variables, when both are set and
    /// not empty.
    pub fn from_env(token: Option<&str>, project_id: Option<&str>) -> (r: Option<ApiConfig>)
        ensures
            match (token, project_id) {
                (Some(t), Some(p)) if t@.len() > 0 && p@.len() > 0 => r matches Some(c) && c.url@ == CS_API_URL@
                    && c.project_id@ == p@ && c.token@ == t@,
                _ => r is None,
            },
    {
        match (token, project_id) {
            (Some(t), Some(p)) => {
                if t.unicode_len() == 0 || p.unicode_len() == 0 {
                    None
                } else {
                    Some(ApiConfig { url: owned(CS_API_URL), project_id: owned(p), token: owned(t) })
                }
            },
            _ => None,
        }
    }
}

/// `<url>/projects/<project id>` followed by `tail`.
pub open spec fn project_url(c: ApiConfig, tail: Seq<char>) -> Seq<char> {
    c.url@ + "/projects/"@ + c.project_id@ + tail
}

fn project_url_with(c: &ApiConfig, tail: &str) -> (r: String)
    ensures
        r@ == project_url(*c, tail@),
{
    let mut out: Vec<char> = Vec::new();
    append_str(&mut out, c.url.as_str());
    append_str(&mut out, "/projects/");
    append_str(&mut out, c.project_id.as_str());
    append_str(&mut out, tail);
    string_from_chars(out.as_slice())
}

/// The latest analysis's file list, with the fields the report reads.
pub fn files_url(c: &ApiConfig) -> (r: String)
    ensures
        r@ == project_url(
            *c,
            "/analyses/latest/files?page=1&page_size=500&fields=path,code_health,loc,change_frequency,number_of_defects,language,number_of_authors,code_health_rule_violations"@,
        ),
{
    project_url_with(
        c,
        "/analyses/latest/files?page=1&page_size=500&fields=path,code_health,loc,change_frequency,number_of_defects,language,number_of_authors,code_health_rule_violations",
    )
}

/// The latest analysis's technical-debt list.
pub fn tech_debt_url(c: &ApiConfig) -> (r: String)
    ensures
        r@ == project_url(*c, "/analyses/latest/technical-debt?page=1&page_size=500"@),
{
    project_url_with(c, "/analyses/latest/technical-debt?page=1&page_size=500")
}

/// The request that starts an analysis.
pub fn run_analysis_url(c: &ApiConfig) -> (r: String)
    ensures
        r@ == project_url(*c, "/run-analysis"@),
{
    project_url_with(c, "/run-analysis")
}

/// The analysis numbered `analysis_id`.
pub fn analysis_url(c: &ApiConfig, analysis_id: i64) -> (r: String)
    ensures
        r@ == project_url(*c, "/analyses/"@) + int_text(analysis_id as int),
{
    let base = project_url_with(c, "/analyses/");
    let mut out: Vec<char> = Vec::new();
    append_str(&mut out, base.as_str());
    append_i64(&mut out, analysis_id);
    string_from_chars(out.as_slice())
}

/// The header that carries the access token.
pub fn bearer_header(token: &str) -> (r: String)
    ensures
        r@ == "Authorization: Bearer "@ + token@,
{
    let mut out: Vec<char> = Vec::new();
    append_str(&mut out, "Authorization: Bearer ");
    append_str(&mut out, token);
    string_from_chars(out.as_slice())
}

/// The first entry whose path is given and ends with `suffix`.
pub open spec fn first_ending_with(paths: Seq<Option<String>>, suffix: Seq<char>, from: int) -> Option<int>
    decreases paths.len() - from,
{
    if from < 0 || from >= paths.len() {
        None
    } else if paths[from] matches Some(p) && has_suffix(p@, suffix) {
        Some(from)
    } else {
        first_ending_with(paths, suffix, from + 1)
    }
}

/// The position of the first entry whose path is given and ends with `suffix`.
pub fn find_path_ending_with(paths: &[Option<String>], suffix: &str) -> (r: Option<usize>)
    ensures
        match r {
            Some(i) => first_ending_with(paths@, suffix@, 0) == Some(i as int),
            None => first_ending_with(paths@, suffix@, 0) is None,
        },
{
    let mut i: usize = 0;
    while i < paths.len()
        invariant
            i <= paths@.len(),
            first_ending_with(paths@, suffix@, 0) == first_ending_with(paths@, suffix@, i as int),
        decreases paths@.len() - i,
    {
        match &paths[i] {
            Some(p) => {
                if ends_with_str(p.as_str(), suffix) {
                    return Some(i);
                }
            },
            None => {},
        }
        i = i + 1;
    }
    None
}

/// A code smell that the server reports for a file.
#[derive(Debug)]
pub struct CodeSmell {
    pub name: String,
    pub rule_set: String,
    pub count: Option<i64>,
}

/// A category of the review with the functions it names.
#[derive(Debug)]
pub struct StructuralIssue {
    pub category: String,
    pub functions: Vec<IssueFunction>,
}

/// A function named by a review category.
#[derive(Debug)]
pub struct IssueFunction {
    pub title: String,
    pub line: i64,
    pub details: Option<String>,
}

/// The fields of one function of a review category, each present only when it has the
/// expected JSON type (title and details strings, start line an integer).
#[derive(Debug)]
pub struct ReviewFunctionFields {
    pub title: Option<String>,
    pub start_line: Option<i64>,
    pub details: Option<String>,
}

/// The fields of one review category: its name when it is a string, and its functions when
/// they are an array.
#[derive(Debug)]
pub struct ReviewEntryFields {
    pub category: Option<String>,
    pub functions: Option<Vec<ReviewFunctionFields>>,
}

/// The fields of one rule violation on the server, each present only when it has the
/// expected JSON type.
#[derive(Debug)]
pub struct SmellFields {
    pub code_smell: Option<String>,
    pub rule_set: Option<String>,
    pub count: Option<i64>,
}

/// A function's fields make an issue function when it has a title and a start line.
pub open spec fn issue_function_of(f: ReviewFunctionFields) -> Option<(Seq<char>, i64, Option<Seq<char>>)> {
    match (f.title, f.start_line) {
        (Some(t), Some(l)) => Some(
            (
                t@,
                l,
                match f.details {
                    Some(d) => Some(d@),
                    None => None,
                },
            ),
        ),
        _ => None,
    }
}

/// An issue function as plain values.
pub open spec fn function_view(f: IssueFunction) -> (Seq<char>, i64, Option<Seq<char>>) {
    (
        f.title@,
        f.line,
        match f.details {
            Some(d) => Some(d@),
            None => None,
        },
    )
}

/// The issue functions of `fs`, in order, leaving out those without a title or a start line.
pub open spec fn kept_functions(fs: Seq<ReviewFunctionFields>) -> Seq<(Seq<char>, i64, Option<Seq<char>>)>
    decreases fs.len(),
{
    if fs.len() == 0 {
        Seq::empty()
    } else {
        let rest = kept_functions(fs.drop_last());
        match issue_function_of(fs.last()) {
            Some(f) => rest.push(f),
            None => rest,
        }
    }
}

/// An issue as plain values.
pub open spec fn issue_view(i: StructuralIssue) -> (Seq<char>, Seq<(Seq<char>, i64, Option<Seq<char>>)>) {
    (i.category@, i.functions@.map_values(|f: IssueFunction| function_view(f)))
}

/// The category of an entry, `Unknown` when it has none.
pub open spec fn category_of(e: ReviewEntryFields) -> Seq<char> {
    match e.category {
        Some(c) => c@,
        None => "Unknown"@,
    }
}

/// The issue functions of an entry: none when it has no functions array.
pub open spec fn entry_functions(e: ReviewEntryFields) -> Seq<(Seq<char>, i64, Option<Seq<char>>)> {
    match e.functions {
        Some(v) => kept_functions(v@),
        None => Seq::empty(),
    }
}

/// The structural issues of the review entries, in order: each entry with at least one kept
/// function.
pub open spec fn issues_of(entries: Seq<ReviewEntryFields>) -> Seq<(Seq<char>, Seq<(Seq<char>, i64, Option<Seq<char>>)>)>
    decreases entries.len(),
{
    if entries.len() == 0 {
        Seq::empty()
    } else {
        let rest = issues_of(entries.drop_last());
        let e = entries.last();
        if entry_functions(e).len() > 0 {
            rest.push((category_of(e), entry_functions(e)))
        } else {
            rest
        }
    }
}

fn clone_opt(o: &Option<String>) -> (r: Option<String>)
    ensures
        match (o, r) {
            (Some(a), Some(b)) => a@ == b@,
            (None, None) => true,
            _ => false,
        },
{
    match o {
        Some(s) => Some(owned(s.as_str())),
        None => None,
    }
}

fn issue_functions(fs: &Vec<ReviewFunctionFields>) -> (r: Vec<IssueFunction>)
    ensures
        r@.map_values(|f: IssueFunction| function_view(f)) == kept_functions(fs@),
{
    let mut out: Vec<IssueFunction> = Vec::new();
    let mut i: usize = 0;
    while i < fs.len()
        invariant
            i <= fs@.len(),
            out@.map_values(|f: IssueFunction| function_view(f)) == kept_functions(fs@.subrange(0, i as int)),
        decreases fs@.len() - i,
    {
        let f = &fs[i];
        assert(fs@.subrange(0, i + 1).drop_last() =~= fs@.subrange(0, i as int));
        assert(fs@.subrange(0, i + 1).last() == fs@[i as int]);
        match (&f.title, f.start_line) {
            (Some(t), Some(l)) => {
                let g = IssueFunction { title: owned(t.as_str()), line: l, details: clone_opt(&f.details) };
                let ghost before = out@;
                out.push(g);
                assert(out@.map_values(|f: IssueFunction| function_view(f)) =~= before.map_values(
                    |f: IssueFunction| function_view(f),
                ).push(function_view(g)));
            },
            _ => {},
        }
        i = i + 1;
    }
    assert(fs@.subrange(0, i as int) =~= fs@);
    out
}

/// The structural issues of the review entries, in order: each category (`Unknown` when
/// unnamed) with the functions that have a title and a start line, categories without any
/// such function left out.
pub fn structural_issues(entries: &[ReviewEntryFields]) -> (r: Vec<StructuralIssue>)
    ensures
        r@.map_values(|i: StructuralIssue| issue_view(i)) == issues_of(entries@),
{
    let mut out: Vec<StructuralIssue> = Vec::new();
    let mut i: usize = 0;
    while i < entries.len()
        invariant
            i <= entries@.len(),
            out@.map_values(|i: StructuralIssue| issue_view(i)) == issues_of(entries@.subrange(0, i as int)),
        decreases entries@.len() - i,
    {
        let e = &entries[i];
        assert(entries@.subrange(0, i + 1).drop_last() =~= entries@.subrange(0, i as int));
        assert(entries@.subrange(0, i + 1).last() == entries@[i as int]);
        let functions = match &e.functions {
            Some(v) => issue_functions(v),
            None => Vec::new(),
        };
        assert(functions@.map_values(|f: IssueFunction| function_view(f)) == entry_functions(*e));
        if functions.len() > 0 {
            let category = match &e.category {
                Some(c) => owned(c.as_str()),
                None => owned("Unknown"),
            };
            let issue = StructuralIssue { category, functions };
            let ghost before = out@;
            out.push(issue);
            assert(out@.map_values(|i: StructuralIssue| issue_view(i)) =~= before.map_values(
                |i: StructuralIssue| issue_view(i),
            ).push(issue_view(issue)));
        } else {
            assert(entry_functions(*e).len() == 0);
        }
        i = i + 1;
    }
    assert(entries@.subrange(0, i as int) =~= entries@);
    out
}

/// A code smell as plain values.
pub open spec fn smell_view(s: CodeSmell) -> (Seq<char>, Seq<char>, Option<i64>) {
    (s.name@, s.rule_set@, s.count)
}

/// The code smells of the rule violations, in order, leaving out those without a smell name or
/// a rule set.
pub open spec fn smells_of(items: Seq<SmellFields>) -> Seq<(Seq<char>, Seq<char>, Option<i64>)>
    decreases items.len(),
{
    if items.len() == 0 {
        Seq::empty()
    } else {
        let rest = smells_of(items.drop_last());
        let it = items.last();
        match (it.code_smell, it.rule_set) {
            (Some(n), Some(r)) => rest.push((n@, r@, it.count)),
            _ => rest,
        }
    }
}

/// The code smells of the rule violations, in order, leaving out those without a smell name
/// or a rule set.
pub fn code_smells(items: &[SmellFields]) -> (r: Vec<CodeSmell>)
    ensures
        r@.map_values(|s: CodeSmell| smell_view(s)) == smells_of(items@),
{
    let mut out: Vec<CodeSmell> = Vec::new();
    let mut i: usize = 0;
    while i < items.len()
        invariant
            i <= items@.len(),
            out@.map_values(|s: CodeSmell| smell_view(s)) == smells_of(items@.subrange(0, i as int)),
        decreases items@.len() - i,
    {
        let it = &items[i];
        assert(items@.subrange(0, i + 1).drop_last() =~= items@.subrange(0, i as int));
        assert(items@.subrange(0, i + 1).last() == items@[i as int]);
        match (&it.code_smell, &it.rule_set) {
            (Some(n), Some(r)) => {
                let s = CodeSmell { name: owned(n.as_str()), rule_set: owned(r.as_str()), count: it.count };
                let ghost before = out@;
                out.push(s);
                assert(out@.map_values(|s: CodeSmell| smell_view(s)) =~= before.map_values(
                    |s: CodeSmell| smell_view(s),
                ).push(smell_view(s)));
            },
            _ => {},
        }
        i = i + 1;
    }
    assert(items@.subrange(0, i as int) =~= items@);
    out
}

/// `s` without its leading slashes.
pub open spec fn trim_leading_slashes(s: Seq<char>) -> Seq<char>
    decreases s.len(),
{
    if s.len() > 0 && s[0] == '/' {
        trim_leading_slashes(s.drop_first())
    } else {
        s
    }
}

/// The file's path relative to the repository root that `git rev-parse --show-toplevel`
/// printed (`None` when it could not run), the file taken under `cwd` when relative.
pub open spec fn repo_relative_spec(file_path: Seq<char>, cwd: Option<Seq<char>>, toplevel: Option<Seq<char>>) -> Option<Seq<char>> {
    match toplevel {
        None => None,
        Some(out) => {
            let root = trim_seq(out);
            if root.len() == 0 {
                None
            } else {
                let abs = if file_path.len() > 0 && file_path[0] == '/' {
                    Some(file_path)
                } else {
                    match cwd {
                        Some(c) => Some(join_path_spec(c, file_path)),
                        None => None,
                    }
                };
                match abs {
                    None => None,
                    Some(a) => if has_prefix(a, root) {
                        Some(trim_leading_slashes(a.subrange(root.len() as int, a.len() as int)))
                    } else {
                        None
                    },
                }
            }
        },
    }
}

/// The file's path relative to the repository root, from the output of
/// `git rev-parse --show-toplevel` (`None` when it could not run) and the working directory
/// (`None` when unknown).
pub fn repo_relative_path(file_path: &str, cwd: Option<&str>, toplevel_output: Option<&str>) -> (r: Option<String>)
    ensures
        match r {
            Some(p) => repo_relative_spec(
                file_path@,
                match cwd {
                    Some(c) => Some(c@),
                    None => None,
                },
                match toplevel_output {
                    Some(t) => Some(t@),
                    None => None,
                },
            ) == Some(p@),
            None => repo_relative_spec(
                file_path@,
                match cwd {
                    Some(c) => Some(c@),
                    None => None,
                },
                match toplevel_output {
                    Some(t) => Some(t@),
                    None => None,
                },
            ) is None,
        },
{
    let out = match toplevel_output {
        Some(t) => t,
        None => return None,
    };
    let root = trim_chars(out);
    if root.len() == 0 {
        return None;
    }
    let abs = if file_path.unicode_len() > 0 && file_path.get_char(0) == '/' {
        owned(file_path)
    } else {
        match cwd {
            Some(c) => join_path(c, file_path),
            None => return None,
        }
    };
    let root_s = string_from_chars(root.as_slice());
    if !starts_with_str(abs.as_str(), root_s.as_str()) {
        return None;
    }
    let n = abs.unicode_len();
    let mut i: usize = root.len();
    let ghost a = abs@;
    assert(trim_leading_slashes(a.subrange(root@.len() as int, n as int)) == trim_leading_slashes(
        a.subrange(i as int, n as int),
    ));
    while i < n && abs.get_char(i) == '/'
        invariant
            a == abs@,
            n == a.len(),
            root@.len() <= i <= n,
            trim_leading_slashes(a.subrange(root@.len() as int, n as int)) == trim_leading_slashes(
                a.subrange(i as int, n as int),
            ),
        decreases n - i,
    {
        assert(a.subrange(i as int, n as int).drop_first() =~= a.subrange(i + 1, n as int));
        i = i + 1;
    }
    let mut rest: Vec<char> = Vec::new();
    let mut k: usize = i;
    while k < n
        invariant
            a == abs@,
            n == a.len(),
            i <= k <= n,
            rest@ == a.subrange(i as int, k as int),
        decreases n - k,
    {
        rest.push(abs.get_char(k));
        assert(a.subrange(i as int, k + 1) =~= a.subrange(i as int, k as int).push(a[k as int]));
        k = k + 1;
    }
    Some(string_from_chars(rest.as_slice()))
}

/// The command line of X-Ray: whether to start an analysis first, and the file to report on.
#[derive(Debug)]
pub struct XrayArgs {
    pub trigger: bool,
    pub file_path: String,
}

/// Usage when no file is given.
pub open spec fn xray_usage() -> Seq<char> {
    "usage: coherence-bootstrap codescene-xray [--trigger] <file-path>"@
}

/// Usage when `--trigger` has no file.
pub open spec fn xray_trigger_usage() -> Seq<char> {
    "usage: coherence-bootstrap codescene-xray --trigger <file-path>"@
}

/// Reads the arguments: `[--trigger] <file-path>`.
pub fn parse_xray_args(args: &[String]) -> (r: Result<XrayArgs, String>)
    ensures
        args@.len() == 0 ==> (r matches Err(m) && m@ == xray_usage()),
        args@.len() > 0 && args@[0]@ == "--trigger"@ && args@.len() < 2 ==> (r matches Err(m) && m@
            == xray_trigger_usage()),
        args@.len() >= 2 && args@[0]@ == "--trigger"@ ==> (r matches Ok(a) && a.trigger && a.file_path@
            == args@[1]@),
        args@.len() > 0 && args@[0]@ != "--trigger"@ ==> (r matches Ok(a) && !a.trigger && a.file_path@
            == args@[0]@),
{
    if args.len() == 0 {
        return Err(owned("usage: coherence-bootstrap codescene-xray [--trigger] <file-path>"));
    }
    if str_eq(args[0].as_str(), "--trigger") {
        if args.len() < 2 {
            return Err(owned("usage: coherence-bootstrap codescene-xray --trigger <file-path>"));
        }
        return Ok(XrayArgs { trigger: true, file_path: owned(args[1].as_str()) });
    }
    Ok(XrayArgs { trigger: false, file_path: owned(args[0].as_str()) })
}

/// The line of one issue function: title, line and the details after two spaces.
pub open spec fn function_line(f: (Seq<char>, i64, Option<Seq<char>>)) -> Seq<char> {
    "      - "@ + f.0 + "  (line "@ + int_text(f.1 as int) + ")"@ + match f.2 {
        Some(d) => "  "@ + d,
        None => Seq::empty(),
    }
}

/// The lines of one issue: its category and count, then one line per function.
pub open spec fn issue_lines(i: (Seq<char>, Seq<(Seq<char>, i64, Option<Seq<char>>)>)) -> Seq<Seq<char>> {
    seq!["    ["@ + i.0 + "] "@ + decimal(i.1.len()) + " function(s)"@] + i.1.map_values(
        |f: (Seq<char>, i64, Option<Seq<char>>)| function_line(f),
    )
}

/// The lines of all issues, in order.
pub open spec fn all_issue_lines(v: Seq<(Seq<char>, Seq<(Seq<char>, i64, Option<Seq<char>>)>)>) -> Seq<Seq<char>>
    decreases v.len(),
{
    if v.len() == 0 {
        Seq::empty()
    } else {
        all_issue_lines(v.drop_last()) + issue_lines(v.last())
    }
}

/// The local-analysis section of the report, line by line.
pub open spec fn local_analysis_spec(score: Option<Seq<char>>, issues: Seq<(Seq<char>, Seq<(Seq<char>, i64, Option<Seq<char>>)>)>) -> Seq<Seq<char>> {
    seq![
        Seq::empty(),
        "── Local Analysis ──────────────────────────────"@,
        match score {
            Some(s) => "  Code Health:  "@ + s,
            None => "  Code Health:  (unavailable)"@,
        },
    ] + if issues.len() > 0 {
        seq![Seq::empty(), "  Structural Issues:"@] + all_issue_lines(issues)
    } else {
        Seq::empty()
    }
}

fn push_line(out: &mut Vec<String>, v: &Vec<char>)
    ensures
        final(out)@.map_values(|x: String| x@) == old(out)@.map_values(|x: String| x@).push(v@),
{
    let s = string_from_chars(v.as_slice());
    let ghost before = out@;
    out.push(s);
    assert(out@.map_values(|x: String| x@) =~= before.map_values(|x: String| x@).push(v@));
}

/// The local-analysis section of the report: the local score and each structural issue with
/// its functions.
pub fn local_analysis_lines(score: Option<&str>, issues: &[StructuralIssue]) -> (r: Vec<String>)
    ensures
        r@.map_values(|x: String| x@) == local_analysis_spec(
            match score {
                Some(s) => Some(s@),
                None => None,
            },
            issues@.map_values(|i: StructuralIssue| issue_view(i)),
        ),
{
    let ghost iv = issues@.map_values(|i: StructuralIssue| issue_view(i));
    let mut out: Vec<String> = Vec::new();
    push_line(&mut out, &Vec::new());
    let mut l: Vec<char> = Vec::new();
    append_str(&mut l, "── Local Analysis ──────────────────────────────");
    push_line(&mut out, &l);
    let mut l: Vec<char> = Vec::new();
    match score {
        Some(s) => {
            append_str(&mut l, "  Code Health:  ");
            append_str(&mut l, s);
        },
        None => {
            append_str(&mut l, "  Code Health:  (unavailable)");
        },
    }
    push_line(&mut out, &l);
    let ghost head = out@.map_values(|x: String| x@);
    if issues.len() > 0 {
        push_line(&mut out, &Vec::new());
        let mut l: Vec<char> = Vec::new();
        append_str(&mut l, "  Structural Issues:");
        push_line(&mut out, &l);
        let ghost head2 = out@.map_values(|x: String| x@);
        let mut i: usize = 0;
        while i < issues.len()
            invariant
                i <= issues@.len(),
                iv == issues@.map_values(|i: StructuralIssue| issue_view(i)),
                out@.map_values(|x: String| x@) == head2 + all_issue_lines(iv.subrange(0, i as int)),
            decreases issues@.len() - i,
        {
            let issue = &issues[i];
            let ghost fv = issue.functions@.map_values(|f: IssueFunction| function_view(f));
            let ghost start = out@.map_values(|x: String| x@);
            let mut l: Vec<char> = Vec::new();
            append_str(&mut l, "    [");
            append_str(&mut l, issue.category.as_str());
            append_str(&mut l, "] ");
            append_decimal(&mut l, issue.functions.len());
            append_str(&mut l, " function(s)");
            push_line(&mut out, &l);
            let mut j: usize = 0;
            while j < issue.functions.len()
                invariant
                    j <= issue.functions@.len(),
                    fv == issue.functions@.map_values(|f: IssueFunction| function_view(f)),
                    out@.map_values(|x: String| x@) == start.push(l@) + fv.subrange(0, j as int).map_values(
                        |f: (Seq<char>, i64, Option<Seq<char>>)| function_line(f),
                    ),
                decreases issue.functions@.len() - j,
            {
                let f = &issue.functions[j];
                let mut fl: Vec<char> = Vec::new();
                append_str(&mut fl, "      - ");
                append_str(&mut fl, f.title.as_str());
                append_str(&mut fl, "  (line ");
                append_i64(&mut fl, f.line);
                append_str(&mut fl, ")");
                match &f.details {
                    Some(d) => {
                        append_str(&mut fl, "  ");
                        append_str(&mut fl, d.as_str());
                    },
                    None => {},
                }
                assert(fl@ =~= function_line(fv[j as int]));
                push_line(&mut out, &fl);
                assert(fv.subrange(0, j + 1).map_values(|f: (Seq<char>, i64, Option<Seq<char>>)| function_line(f))
                    =~= fv.subrange(0, j as int).map_values(|f: (Seq<char>, i64, Option<Seq<char>>)| function_line(f)).push(
                    function_line(fv[j as int]),
                ));
                j = j + 1;
            }
            proof {
                assert(fv.subrange(0, j as int) =~= fv);
                assert(iv.subrange(0, i + 1).drop_last() =~= iv.subrange(0, i as int));
                assert(iv[i as int] == issue_view(*issue));
                assert(l@ =~= "    ["@ + issue.category@ + "] "@ + decimal(fv.len()) + " function(s)"@);
                assert(issue_lines(iv[i as int]) =~= seq![l@] + fv.map_values(
                    |f: (Seq<char>, i64, Option<Seq<char>>)| function_line(f),
                ));
                assert(out@.map_values(|x: String| x@) =~= head2 + all_issue_lines(iv.subrange(0, i + 1)));
            }
            i = i + 1;
        }
        assert(iv.subrange(0, i as int) =~= iv);
    }
    out
}

} // verus!
