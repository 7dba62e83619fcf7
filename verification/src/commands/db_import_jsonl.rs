//! `db import-jsonl`: argument checks, and the INSERT statement of each JSONL line.
//!
//! Each line is read as JSON (through `serde_json`); a record is its string-valued
//! top-level fields, and a field that is missing or not a string reads as empty text.
use vstd::prelude::*;

use crate::commands::db_export_jsonl::ExportTable;
use crate::text::{all_white_space, append_str, has_prefix, has_suffix, is_blank, joined, owned, str_eq, string_from_chars};

verus! {

/// `--env` and `--in` of an import, once checked.
pub open spec fn env_ok(e: Seq<char>) -> bool {
    e == "dev"@ || e == "test"@ || e == "prod"@
}

/// The raw flags: `(env, in, confirm)`; a flag at the very end takes empty text.
pub open spec fn import_flags_from(args: Seq<Seq<char>>, i: int, acc: (Option<Seq<char>>, Option<Seq<char>>, bool)) -> Result<(Option<Seq<char>>, Option<Seq<char>>, bool), Seq<char>>
    decreases args.len() - i,
{
    if i < 0 || i >= args.len() {
        Ok(acc)
    } else if args[i] == "--env"@ {
        let v = if i + 1 < args.len() { args[i + 1] } else { Seq::empty() };
        let next = if i + 1 < args.len() { i + 2 } else { args.len() as int };
        import_flags_from(args, next, (Some(v), acc.1, acc.2))
    } else if args[i] == "--in"@ {
        let v = if i + 1 < args.len() { args[i + 1] } else { Seq::empty() };
        let next = if i + 1 < args.len() { i + 2 } else { args.len() as int };
        import_flags_from(args, next, (acc.0, Some(v), acc.2))
    } else if args[i] == "--confirm"@ {
        import_flags_from(args, i + 1, (acc.0, acc.1, true))
    } else {
        Err("import-jsonl: unknown flag: "@ + args[i])
    }
}

/// The checked `(env, in path)`, or the message to print (exit code 1).
pub open spec fn import_args_spec(args: Seq<Seq<char>>) -> Result<(Seq<char>, Seq<char>), Seq<char>> {
    match import_flags_from(args, 0, (None, None, false)) {
        Err(m) => Err(m),
        Ok((env, path, confirm)) => match env {
            None => Err("import-jsonl: --env dev|test|prod is required"@),
            Some(e) => if !env_ok(e) {
                Err("import-jsonl: --env must be dev|test|prod (got "@ + e + ")"@)
            } else {
                match path {
                    None => Err("import-jsonl: --in <file> is required"@),
                    Some(p) => if !confirm {
                        Err("import-jsonl --env "@ + e + " --in "@ + p + ": --confirm is required"@)
                    } else {
                        Ok((e, p))
                    },
                }
            },
        },
    }
}

/// Views of a list of strings.
pub open spec fn args_view(v: Seq<String>) -> Seq<Seq<char>> {
    v.map_values(|s: String| s@)
}

fn msg2(a: &str, b: &str) -> (r: String)
    ensures
        r@ == a@ + b@,
{
    let mut v: Vec<char> = Vec::new();
    append_str(&mut v, a);
    append_str(&mut v, b);
    string_from_chars(v.as_slice())
}

/// Checks the import flags: `--env dev|test|prod`, `--in <file>` and `--confirm`.
pub fn parse_import_args(args: &[String]) -> (r: Result<(String, String), String>)
    ensures
        match import_args_spec(args_view(args@)) {
            Ok((e, p)) => r matches Ok((e2, p2)) && e2@ == e && p2@ == p,
            Err(m) => r matches Err(m2) && m2@ == m,
        },
{
    let ghost av = args_view(args@);
    let mut env: Option<String> = None;
    let mut path: Option<String> = None;
    let mut confirm = false;
    let mut i: usize = 0;
    proof {
        reveal_strlit("");
    }
    while i < args.len()
        invariant
            av == args_view(args@),
            i <= args@.len(),
            import_flags_from(av, i as int, (
                match env {
                    Some(s) => Some(s@),
                    None => None,
                },
                match path {
                    Some(s) => Some(s@),
                    None => None,
                },
                confirm,
            )) == import_flags_from(av, 0, (None, None, false)),
        decreases args@.len() - i,
    {
        let a = args[i].as_str();
        assert(av[i as int] == a@);
        if str_eq(a, "--env") || str_eq(a, "--in") {
            let v = if i + 1 < args.len() {
                assert(av[i + 1] == args@[i + 1]@);
                args[i + 1].clone()
            } else {
                String::new()
            };
            if str_eq(a, "--env") {
                env = Some(v);
            } else {
                path = Some(v);
            }
            i = if i + 1 < args.len() {
                i + 2
            } else {
                args.len()
            };
        } else if str_eq(a, "--confirm") {
            confirm = true;
            i = i + 1;
        } else {
            return Err(msg2("import-jsonl: unknown flag: ", a));
        }
    }
    let e = match env {
        None => {
            return Err(owned("import-jsonl: --env dev|test|prod is required"));
        },
        Some(e) => e,
    };
    if !(str_eq(e.as_str(), "dev") || str_eq(e.as_str(), "test") || str_eq(e.as_str(), "prod")) {
        let mut m: Vec<char> = Vec::new();
        append_str(&mut m, "import-jsonl: --env must be dev|test|prod (got ");
        append_str(&mut m, e.as_str());
        append_str(&mut m, ")");
        return Err(string_from_chars(m.as_slice()));
    }
    let p = match path {
        None => {
            return Err(owned("import-jsonl: --in <file> is required"));
        },
        Some(p) => p,
    };
    if !confirm {
        let mut m: Vec<char> = Vec::new();
        append_str(&mut m, "import-jsonl --env ");
        append_str(&mut m, e.as_str());
        append_str(&mut m, " --in ");
        append_str(&mut m, p.as_str());
        append_str(&mut m, ": --confirm is required");
        return Err(string_from_chars(m.as_slice()));
    }
    Ok((e, p))
}

/// `manual` for an empty or legacy `default` review mode, else the value.
pub fn normalize_review_mode(value: &str) -> (r: String)
    ensures
        r@ == if value@.len() == 0 || value@ == "default"@ {
            "manual"@
        } else {
            value@
        },
{
    if value.unicode_len() == 0 || str_eq(value, "default") {
        owned("manual")
    } else {
        owned(value)
    }
}

/// `medium` for an empty or legacy `default` risk level, else the value.
pub fn normalize_risk_level(value: &str) -> (r: String)
    ensures
        r@ == if value@.len() == 0 || value@ == "default"@ {
            "medium"@
        } else {
            value@
        },
{
    if value.unicode_len() == 0 || str_eq(value, "default") {
        owned("medium")
    } else {
        owned(value)
    }
}

/// SQL string-literal escaping: backslashes and single quotes doubled.
pub open spec fn sql_escaped(s: Seq<char>) -> Seq<char>
    decreases s.len(),
{
    if s.len() == 0 {
        Seq::empty()
    } else {
        sql_escaped(s.drop_last()) + if s.last() == '\\' {
            seq!['\\', '\\']
        } else if s.last() == '\'' {
            seq!['\'', '\'']
        } else {
            seq![s.last()]
        }
    }
}

fn append_escaped(out: &mut Vec<char>, s: &str)
    ensures
        final(out)@ == old(out)@ + sql_escaped(s@),
{
    let n = s.unicode_len();
    let mut i: usize = 0;
    while i < n
        invariant
            n == s@.len(),
            i <= n,
            out@ == old(out)@ + sql_escaped(s@.subrange(0, i as int)),
        decreases n - i,
    {
        let c = s.get_char(i);
        assert(s@.subrange(0, i + 1).drop_last() =~= s@.subrange(0, i as int));
        if c == '\\' {
            out.push('\\');
            out.push('\\');
        } else if c == '\'' {
            out.push('\'');
            out.push('\'');
        } else {
            out.push(c);
        }
        assert(out@ =~= old(out)@ + sql_escaped(s@.subrange(0, i + 1)));
        i = i + 1;
    }
    assert(s@.subrange(0, n as int) =~= s@);
}

/// `s` with `\` and `'` doubled, for a single-quoted SQL literal.
pub fn escape(s: &str) -> (r: String)
    ensures
        r@ == sql_escaped(s@),
{
    let mut out: Vec<char> = Vec::new();
    append_escaped(&mut out, s);
    assert(out@ =~= sql_escaped(s@));
    string_from_chars(out.as_slice())
}

/// A record's string fields: `(name, value)`, names distinct.
pub type RecordFields = Vec<(String, String)>;

/// The texts of a record's fields.
pub open spec fn pairs_view(rec: Seq<(String, String)>) -> Seq<(Seq<char>, Seq<char>)> {
    rec.map_values(|p: (String, String)| (p.0@, p.1@))
}

/// The value of field `name`, empty when absent.
pub open spec fn field_value(rec: Seq<(Seq<char>, Seq<char>)>, name: Seq<char>) -> Seq<char>
    decreases rec.len(),
{
    if rec.len() == 0 {
        Seq::empty()
    } else if rec[0].0 == name {
        rec[0].1
    } else {
        field_value(rec.drop_first(), name)
    }
}

/// The value of field `name` (`json_str` of the field), empty when absent.
pub fn json_str(rec: &RecordFields, name: &str) -> (r: String)
    ensures
        r@ == field_value(pairs_view(rec@), name@),
{
    let ghost pv = pairs_view(rec@);
    let mut i: usize = 0;
    assert(pv.subrange(0, pv.len() as int) =~= pv);
    while i < rec.len()
        invariant
            pv == pairs_view(rec@),
            i <= rec@.len(),
            field_value(pv, name@) == field_value(pv.subrange(i as int, pv.len() as int), name@),
        decreases rec@.len() - i,
    {
        assert(pv.subrange(i as int, pv.len() as int).drop_first() =~= pv.subrange(i + 1, pv.len() as int));
        assert(pv.subrange(i as int, pv.len() as int)[0] == (rec@[i as int].0@, rec@[i as int].1@));
        if str_eq(rec[i].0.as_str(), name) {
            return rec[i].1.clone();
        }
        i = i + 1;
    }
    proof {
        reveal_strlit("");
    }
    String::new()
}

/// `'v1', 'v2', …` with each value escaped.
pub open spec fn quoted_list(vals: Seq<Seq<char>>) -> Seq<char>
    decreases vals.len(),
{
    if vals.len() == 0 {
        Seq::empty()
    } else if vals.len() == 1 {
        seq!['\''] + sql_escaped(vals[0]) + seq!['\'']
    } else {
        quoted_list(vals.drop_last()) + seq![',', ' ', '\''] + sql_escaped(vals.last()) + seq!['\'']
    }
}

/// `INSERT INTO <target> VALUES (<quoted values>)`.
pub open spec fn insert_sql(target: Seq<char>, vals: Seq<Seq<char>>) -> Seq<char> {
    "INSERT INTO "@ + target + " VALUES ("@ + quoted_list(vals) + ")"@
}

/// Views of a list of strings.
pub open spec fn texts(v: Seq<String>) -> Seq<Seq<char>> {
    v.map_values(|s: String| s@)
}

fn insert_statement(target: &str, vals: &Vec<String>) -> (r: String)
    ensures
        r@ == insert_sql(target@, texts(vals@)),
{
    let ghost tv = texts(vals@);
    let mut out: Vec<char> = Vec::new();
    append_str(&mut out, "INSERT INTO ");
    append_str(&mut out, target);
    append_str(&mut out, " VALUES (");
    let ghost start = out@;
    let mut i: usize = 0;
    while i < vals.len()
        invariant
            tv == texts(vals@),
            i <= vals@.len(),
            out@ == start + quoted_list(tv.subrange(0, i as int)),
        decreases vals@.len() - i,
    {
        assert(tv.subrange(0, i + 1).drop_last() =~= tv.subrange(0, i as int));
        if i > 0 {
            out.push(',');
            out.push(' ');
        }
        out.push('\'');
        append_escaped(&mut out, vals[i].as_str());
        out.push('\'');
        proof {
            if i == 0 {
                assert(out@ =~= start + quoted_list(tv.subrange(0, 1)));
            } else {
                assert(out@ =~= start + quoted_list(tv.subrange(0, i + 1)));
            }
        }
        i = i + 1;
    }
    assert(tv.subrange(0, tv.len() as int) =~= tv);
    append_str(&mut out, ")");
    string_from_chars(out.as_slice())
}

/// The tables a record can go to.
#[derive(Debug, Clone, Copy, PartialEq, Eq, Structural)]
pub enum ImportKind {
    Spec,
    Ac,
    Relation,
    Concern,
    Location,
    Link,
}

/// One record ready to run: its table, the statement, and what to name in a failure.
#[derive(Debug)]
pub struct ImportStatement {
    pub kind: ImportKind,
    pub sql: String,
    /// `INSERT <label> <id>` (for a concern `INSERT concern <ac id>/<kind>`).
    pub context: String,
}

/// The table, columns and field values of a record of type `t`.
pub open spec fn record_plan(t: Seq<char>, rec: Seq<(Seq<char>, Seq<char>)>) -> Option<(ImportKind, Seq<char>, Seq<Seq<char>>, Seq<char>)> {
    let f = |n: Seq<char>| field_value(rec, n);
    if t == "spec"@ {
        Some((ImportKind::Spec, "specs (id, slug, level, status, title, description, created_at, updated_at)"@,
            seq![f("id"@), f("slug"@), f("level"@), f("status"@), f("title"@), f("description"@), f("created_at"@), f("updated_at"@)],
            "INSERT spec "@ + f("id"@)))
    } else if t == "acceptance_criterion"@ {
        let rm = f("review_mode"@);
        let rl = f("risk_level"@);
        Some((ImportKind::Ac, "acceptance_criteria (id, spec_id, slug, title, intent, review_mode, risk_level, created_at, updated_at)"@,
            seq![f("id"@), f("spec_id"@), f("slug"@), f("title"@), f("intent"@),
                if rm.len() == 0 || rm == "default"@ { "manual"@ } else { rm },
                if rl.len() == 0 || rl == "default"@ { "medium"@ } else { rl },
                f("created_at"@), f("updated_at"@)],
            "INSERT ac "@ + f("id"@)))
    } else if t == "spec_relation"@ {
        Some((ImportKind::Relation, "spec_relations (id, source_spec_id, target_spec_id, relation_kind, created_at, updated_at)"@,
            seq![f("id"@), f("source_spec_id"@), f("target_spec_id"@), f("relation_kind"@), f("created_at"@), f("updated_at"@)],
            "INSERT rel "@ + f("id"@)))
    } else if t == "acceptance_criterion_concern"@ {
        Some((ImportKind::Concern, "acceptance_criterion_concerns (ac_id, concern_kind)"@,
            seq![f("ac_id"@), f("concern_kind"@)],
            "INSERT concern "@ + f("ac_id"@) + "/"@ + f("concern_kind"@)))
    } else if t == "codeintel_code_location"@ {
        Some((ImportKind::Location, "codeintel_code_locations (id, repo_path, file_path, kind, symbol, test_command, created_at, updated_at)"@,
            seq![f("id"@), f("repo_path"@), f("file_path"@), f("kind"@), f("symbol"@), f("test_command"@), f("created_at"@), f("updated_at"@)],
            "INSERT location "@ + f("id"@)))
    } else if t == "codeintel_ac_link"@ {
        Some((ImportKind::Link, "codeintel_ac_links (id, ac_id, code_location_id, relation_kind, note, created_at, updated_at)"@,
            seq![f("id"@), f("ac_id"@), f("code_location_id"@), f("relation_kind"@), f("note"@), f("created_at"@), f("updated_at"@)],
            "INSERT link "@ + f("id"@)))
    } else {
        None
    }
}

fn fields(rec: &RecordFields, names: &Vec<&str>) -> (r: Vec<String>)
    ensures
        r@.len() == names@.len(),
        forall|k: int| 0 <= k < names@.len() ==> (#[trigger] r@[k])@ == field_value(pairs_view(rec@), names@[k]@),
{
    let mut out: Vec<String> = Vec::new();
    let mut i: usize = 0;
    while i < names.len()
        invariant
            i <= names@.len(),
            out@.len() == i,
            forall|k: int| 0 <= k < i ==> (#[trigger] out@[k])@ == field_value(pairs_view(rec@), names@[k]@),
        decreases names@.len() - i,
    {
        out.push(json_str(rec, names[i]));
        i = i + 1;
    }
    out
}

/// The statement for a record of type `record_type`; an unknown type is an error.
pub fn import_statement(record_type: &str, rec: &RecordFields) -> (r: Result<ImportStatement, String>)
    ensures
        match record_plan(record_type@, pairs_view(rec@)) {
            Some((kind, target, vals, context)) => r matches Ok(st) && st.kind == kind && st.sql@
                == insert_sql(target, vals) && st.context@ == context,
            None => r matches Err(m) && m@ == "import-jsonl: unknown record type: "@ + record_type@,
        },
{
    let mut names: Vec<&str> = Vec::new();
    let kind: ImportKind;
    let target: &str;
    if str_eq(record_type, "spec") {
        kind = ImportKind::Spec;
        target = "specs (id, slug, level, status, title, description, created_at, updated_at)";
        names.push("id"); names.push("slug"); names.push("level"); names.push("status");
        names.push("title"); names.push("description"); names.push("created_at"); names.push("updated_at");
    } else if str_eq(record_type, "acceptance_criterion") {
        kind = ImportKind::Ac;
        target = "acceptance_criteria (id, spec_id, slug, title, intent, review_mode, risk_level, created_at, updated_at)";
        names.push("id"); names.push("spec_id"); names.push("slug"); names.push("title");
        names.push("intent"); names.push("review_mode"); names.push("risk_level");
        names.push("created_at"); names.push("updated_at");
    } else if str_eq(record_type, "spec_relation") {
        kind = ImportKind::Relation;
        target = "spec_relations (id, source_spec_id, target_spec_id, relation_kind, created_at, updated_at)";
        names.push("id"); names.push("source_spec_id"); names.push("target_spec_id");
        names.push("relation_kind"); names.push("created_at"); names.push("updated_at");
    } else if str_eq(record_type, "acceptance_criterion_concern") {
        kind = ImportKind::Concern;
        target = "acceptance_criterion_concerns (ac_id, concern_kind)";
        names.push("ac_id"); names.push("concern_kind");
    } else if str_eq(record_type, "codeintel_code_location") {
        kind = ImportKind::Location;
        target = "codeintel_code_locations (id, repo_path, file_path, kind, symbol, test_command, created_at, updated_at)";
        names.push("id"); names.push("repo_path"); names.push("file_path"); names.push("kind");
        names.push("symbol"); names.push("test_command"); names.push("created_at"); names.push("updated_at");
    } else if str_eq(record_type, "codeintel_ac_link") {
        kind = ImportKind::Link;
        target = "codeintel_ac_links (id, ac_id, code_location_id, relation_kind, note, created_at, updated_at)";
        names.push("id"); names.push("ac_id"); names.push("code_location_id");
        names.push("relation_kind"); names.push("note"); names.push("created_at"); names.push("updated_at");
    } else {
        return Err(msg2("import-jsonl: unknown record type: ", record_type));
    }
    let mut vals = fields(rec, &names);
    if kind == ImportKind::Ac {
        let rm = normalize_review_mode(vals[5].as_str());
        let rl = normalize_risk_level(vals[6].as_str());
        vals.set(5, rm);
        vals.set(6, rl);
    }
    let sql = insert_statement(target, &vals);
    let context = if kind == ImportKind::Concern {
        let mut c: Vec<char> = Vec::new();
        append_str(&mut c, "INSERT concern ");
        append_str(&mut c, vals[0].as_str());
        append_str(&mut c, "/");
        append_str(&mut c, vals[1].as_str());
        string_from_chars(c.as_slice())
    } else {
        let label = match kind {
            ImportKind::Spec => "INSERT spec ",
            ImportKind::Ac => "INSERT ac ",
            ImportKind::Relation => "INSERT rel ",
            ImportKind::Location => "INSERT location ",
            _ => "INSERT link ",
        };
        let id = json_str(rec, "id");
        msg2(label, id.as_str())
    };
    proof {
        let plan = record_plan(record_type@, pairs_view(rec@))->Some_0;
        assert(texts(vals@) =~= plan.2);
    }
    Ok(ImportStatement { kind, sql, context })
}

/// What `serde_json` reads from one line of text: the parse error's message, or the
/// value; for an object its top-level fields in the map's order, each with its text when
/// the value is a JSON string (`None` for any other value); `None` when the line holds a
/// value that is not an object.
pub uninterp spec fn json_line_fields(line: Seq<char>) -> Result<Option<Seq<(Seq<char>, Option<Seq<char>>)>>, Seq<char>>;

/// The text of an optional string.
pub open spec fn opt_view(o: Option<String>) -> Option<Seq<char>> {
    match o {
        Some(s) => Some(s@),
        None => None,
    }
}

/// The fields of an object as read: name and, for a string value, its text.
pub open spec fn parsed_view(v: Seq<(String, Option<String>)>) -> Seq<(Seq<char>, Option<Seq<char>>)> {
    v.map_values(|p: (String, Option<String>)| (p.0@, opt_view(p.1)))
}

/// Calls `serde_json::from_str::<serde_json::Value>` on one line. An error becomes its
/// message (`Display` of `serde_json::Error`); an object becomes its fields in the map's
/// order, each value as its text when it is a string; any other value becomes `None`.
/// The result is named `json_line_fields`: it depends on the line alone.
#[verifier::external_body]
fn parse_json_line(line: &str) -> (r: Result<Option<Vec<(String, Option<String>)>>, String>)
    ensures
        match json_line_fields(line@) {
            Err(e) => r matches Err(m) && m@ == e,
            Ok(None) => r matches Ok(None),
            Ok(Some(f)) => r matches Ok(Some(v)) && parsed_view(v@) == f,
        },
{
    match serde_json::from_str::<serde_json::Value>(line) {
        Err(e) => Err(e.to_string()),
        Ok(serde_json::Value::Object(map)) => {
            let mut out = Vec::new();
            for (k, v) in map {
                out.push((k, match v {
                    serde_json::Value::String(t) => Some(t),
                    _ => None,
                }));
            }
            Ok(Some(out))
        },
        Ok(_) => Ok(None),
    }
}

/// The string-valued fields of an object, in order: every other value reads as absent.
pub open spec fn string_fields(f: Seq<(Seq<char>, Option<Seq<char>>)>) -> Seq<(Seq<char>, Seq<char>)>
    decreases f.len(),
{
    if f.len() == 0 {
        Seq::empty()
    } else {
        let rest = string_fields(f.drop_last());
        match f.last().1 {
            Some(t) => rest.push((f.last().0, t)),
            None => rest,
        }
    }
}

/// The record fields of a parsed line: none when the line is not an object.
pub open spec fn record_of(parsed: Option<Seq<(Seq<char>, Option<Seq<char>>)>>) -> Seq<(Seq<char>, Seq<char>)> {
    match parsed {
        Some(f) => string_fields(f),
        None => Seq::empty(),
    }
}

/// What one input line of an import yields: nothing for a blank line, the parse error,
/// or, from the record's `type` field and its string fields, the statement (its table,
/// SQL text and failure context) or the unknown-type error.
pub open spec fn line_import(line: Seq<char>) -> Result<Option<(ImportKind, Seq<char>, Seq<char>)>, Seq<char>> {
    if all_white_space(line) {
        Ok(None)
    } else {
        match json_line_fields(line) {
            Err(e) => Err("import-jsonl: parse error: "@ + e),
            Ok(p) => {
                let rec = record_of(p);
                let t = field_value(rec, "type"@);
                match record_plan(t, rec) {
                    Some((kind, target, vals, context)) => Ok(Some((kind, insert_sql(target, vals), context))),
                    None => Err("import-jsonl: unknown record type: "@ + t),
                }
            },
        }
    }
}

fn string_fields_of(f: &Vec<(String, Option<String>)>) -> (r: RecordFields)
    ensures
        pairs_view(r@) == string_fields(parsed_view(f@)),
{
    let ghost pv = parsed_view(f@);
    let mut out: RecordFields = Vec::new();
    let mut i: usize = 0;
    assert(pv.subrange(0, 0) =~= Seq::<(Seq<char>, Option<Seq<char>>)>::empty());
    assert(pairs_view(out@) =~= Seq::<(Seq<char>, Seq<char>)>::empty());
    while i < f.len()
        invariant
            pv == parsed_view(f@),
            i <= f@.len(),
            pairs_view(out@) == string_fields(pv.subrange(0, i as int)),
        decreases f@.len() - i,
    {
        let ghost before = out@;
        assert(pv.subrange(0, i + 1).drop_last() =~= pv.subrange(0, i as int));
        assert(pv.subrange(0, i + 1).last() == (f@[i as int].0@, opt_view(f@[i as int].1)));
        match &f[i].1 {
            Some(t) => {
                out.push((f[i].0.clone(), t.clone()));
                assert(pairs_view(out@) =~= pairs_view(before).push((f@[i as int].0@, t@)));
            },
            None => {},
        }
        i = i + 1;
    }
    assert(pv.subrange(0, pv.len() as int) =~= pv);
    out
}

/// The statement of one input line of an import (see `line_import`): `None` for a blank
/// line; an error when the line is not JSON or its record type is unknown.
pub fn import_line(line: &str) -> (r: Result<Option<ImportStatement>, String>)
    ensures
        match line_import(line@) {
            Ok(None) => r matches Ok(None),
            Ok(Some((kind, sql, context))) => r matches Ok(Some(st)) && st.kind == kind && st.sql@ == sql
                && st.context@ == context,
            Err(m) => r matches Err(e) && e@ == m,
        },
{
    if is_blank(line) {
        return Ok(None);
    }
    let parsed = match parse_json_line(line) {
        Err(e) => {
            return Err(msg2("import-jsonl: parse error: ", e.as_str()));
        },
        Ok(p) => p,
    };
    let rec: RecordFields = match &parsed {
        None => Vec::new(),
        Some(f) => string_fields_of(f),
    };
    proof {
        if parsed is None {
            assert(pairs_view(rec@) =~= Seq::<(Seq<char>, Seq<char>)>::empty());
        }
        reveal_strlit("type");
    }
    let t = json_str(&rec, "type");
    match import_statement(t.as_str(), &rec) {
        Ok(st) => Ok(Some(st)),
        Err(m) => Err(m),
    }
}

/// The value a record gives column `c`: its field of that name, with the legacy defaults
/// of review mode (`manual`) and risk level (`medium`) put in for an empty or `default`
/// value.
pub open spec fn column_value(rec: Seq<(Seq<char>, Seq<char>)>, c: Seq<char>) -> Seq<char> {
    let v = field_value(rec, c);
    if c == "review_mode"@ && (v.len() == 0 || v == "default"@) {
        "manual"@
    } else if c == "risk_level"@ && (v.len() == 0 || v == "default"@) {
        "medium"@
    } else {
        v
    }
}

/// The values a record gives the columns `cols`, in order.
pub open spec fn column_values(rec: Seq<(Seq<char>, Seq<char>)>, cols: Seq<Seq<char>>) -> Seq<Seq<char>>
    decreases cols.len(),
{
    if cols.len() == 0 {
        Seq::empty()
    } else {
        column_values(rec, cols.drop_last()).push(column_value(rec, cols.last()))
    }
}

#[verifier::rlimit(50)]
proof fn lemma_import_columns_specs(rec: Seq<(Seq<char>, Seq<char>)>)
    ensures
        record_plan(ExportTable::Specs.type_tag_spec(), rec) matches Some((kind, target, vals, context)) && has_suffix(
            target,
            " ("@ + joined(ExportTable::Specs.columns_spec(), ", "@) + ")"@,
        ) && vals == column_values(rec, ExportTable::Specs.columns_spec()) && has_prefix(
            ExportTable::Specs.query_spec(),
            "SELECT "@ + joined(ExportTable::Specs.columns_spec(), ", "@) + " FROM "@ + target.subrange(
                0,
                target.len() - (" ("@ + joined(ExportTable::Specs.columns_spec(), ", "@) + ")"@).len(),
            ) + " ORDER BY "@,
        ),
{
    let t = ExportTable::Specs;
    reveal_with_fuel(joined, 10);
    reveal_with_fuel(column_values, 10);
    reveal_strlit(" (");
    reveal_strlit(")");
    reveal_strlit(", ");
    reveal_strlit("review_mode");
    reveal_strlit("risk_level");
    reveal_strlit("default");
    reveal_strlit("manual");
    reveal_strlit("medium");
    reveal_strlit("spec");
    reveal_strlit("acceptance_criterion");
    reveal_strlit("spec_relation");
    reveal_strlit("acceptance_criterion_concern");
    reveal_strlit("codeintel_code_location");
    reveal_strlit("codeintel_ac_link");
    reveal_strlit("specs (id, slug, level, status, title, description, created_at, updated_at)");
    reveal_strlit("id");
    reveal_strlit("slug");
    reveal_strlit("level");
    reveal_strlit("status");
    reveal_strlit("title");
    reveal_strlit("description");
    reveal_strlit("created_at");
    reveal_strlit("updated_at");
    assert(t.type_tag_spec() == "spec"@);
    assert(record_plan(t.type_tag_spec(), rec) is Some);
    let plan = record_plan(t.type_tag_spec(), rec)->0;
    let cols = t.columns_spec();
    let suffix = " ("@ + joined(cols, ", "@) + ")"@;
    assert(plan.1 == "specs (id, slug, level, status, title, description, created_at, updated_at)"@);
    assert(suffix.len() <= plan.1.len());
    assert(plan.1.subrange(plan.1.len() - suffix.len(), plan.1.len() as int) =~= suffix);
    assert("description"@[0] != "review_mode"@[0]);
    assert("created_at"@[0] != "risk_level"@[0]);
    assert("updated_at"@[0] != "risk_level"@[0]);
    assert(column_values(rec, cols) =~= seq![column_value(rec, "id"@), column_value(rec, "slug"@), column_value(rec, "level"@), column_value(rec, "status"@), column_value(rec, "title"@), column_value(rec, "description"@), column_value(rec, "created_at"@), column_value(rec, "updated_at"@)]);
    assert(plan.2 =~= seq![column_value(rec, "id"@), column_value(rec, "slug"@), column_value(rec, "level"@), column_value(rec, "status"@), column_value(rec, "title"@), column_value(rec, "description"@), column_value(rec, "created_at"@), column_value(rec, "updated_at"@)]);
    reveal_strlit("SELECT ");
    reveal_strlit(" FROM ");
    reveal_strlit(" ORDER BY ");
    reveal_strlit("SELECT id, slug, level, status, title, description, created_at, updated_at FROM specs ORDER BY id");
    let head = "SELECT "@ + joined(cols, ", "@) + " FROM "@ + plan.1.subrange(0, plan.1.len() - suffix.len()) + " ORDER BY "@;
    assert(t.query_spec().subrange(0, head.len() as int) =~= head);
}

#[verifier::rlimit(50)]
proof fn lemma_import_columns_acceptance_criteria(rec: Seq<(Seq<char>, Seq<char>)>)
    ensures
        record_plan(ExportTable::AcceptanceCriteria.type_tag_spec(), rec) matches Some((kind, target, vals, context)) && has_suffix(
            target,
            " ("@ + joined(ExportTable::AcceptanceCriteria.columns_spec(), ", "@) + ")"@,
        ) && vals == column_values(rec, ExportTable::AcceptanceCriteria.columns_spec()) && has_prefix(
            ExportTable::AcceptanceCriteria.query_spec(),
            "SELECT "@ + joined(ExportTable::AcceptanceCriteria.columns_spec(), ", "@) + " FROM "@ + target.subrange(
                0,
                target.len() - (" ("@ + joined(ExportTable::AcceptanceCriteria.columns_spec(), ", "@) + ")"@).len(),
            ) + " ORDER BY "@,
        ),
{
    let t = ExportTable::AcceptanceCriteria;
    reveal_with_fuel(joined, 10);
    reveal_with_fuel(column_values, 10);
    reveal_strlit(" (");
    reveal_strlit(")");
    reveal_strlit(", ");
    reveal_strlit("review_mode");
    reveal_strlit("risk_level");
    reveal_strlit("default");
    reveal_strlit("manual");
    reveal_strlit("medium");
    reveal_strlit("spec");
    reveal_strlit("acceptance_criterion");
    reveal_strlit("spec_relation");
    reveal_strlit("acceptance_criterion_concern");
    reveal_strlit("codeintel_code_location");
    reveal_strlit("codeintel_ac_link");
    reveal_strlit("acceptance_criteria (id, spec_id, slug, title, intent, review_mode, risk_level, created_at, updated_at)");
    reveal_strlit("id");
    reveal_strlit("spec_id");
    reveal_strlit("slug");
    reveal_strlit("title");
    reveal_strlit("intent");
    reveal_strlit("review_mode");
    reveal_strlit("risk_level");
    reveal_strlit("created_at");
    reveal_strlit("updated_at");
    assert(t.type_tag_spec() == "acceptance_criterion"@);
    assert(record_plan(t.type_tag_spec(), rec) is Some);
    let plan = record_plan(t.type_tag_spec(), rec)->0;
    let cols = t.columns_spec();
    let suffix = " ("@ + joined(cols, ", "@) + ")"@;
    assert(plan.1 == "acceptance_criteria (id, spec_id, slug, title, intent, review_mode, risk_level, created_at, updated_at)"@);
    assert(suffix.len() <= plan.1.len());
    assert(plan.1.subrange(plan.1.len() - suffix.len(), plan.1.len() as int) =~= suffix);
    assert("created_at"@[0] != "risk_level"@[0]);
    assert("updated_at"@[0] != "risk_level"@[0]);
    assert(column_values(rec, cols) =~= seq![column_value(rec, "id"@), column_value(rec, "spec_id"@), column_value(rec, "slug"@), column_value(rec, "title"@), column_value(rec, "intent"@), column_value(rec, "review_mode"@), column_value(rec, "risk_level"@), column_value(rec, "created_at"@), column_value(rec, "updated_at"@)]);
    assert(plan.2 =~= seq![column_value(rec, "id"@), column_value(rec, "spec_id"@), column_value(rec, "slug"@), column_value(rec, "title"@), column_value(rec, "intent"@), column_value(rec, "review_mode"@), column_value(rec, "risk_level"@), column_value(rec, "created_at"@), column_value(rec, "updated_at"@)]);
    reveal_strlit("SELECT ");
    reveal_strlit(" FROM ");
    reveal_strlit(" ORDER BY ");
    reveal_strlit("SELECT id, spec_id, slug, title, intent, review_mode, risk_level, created_at, updated_at FROM acceptance_criteria ORDER BY id");
    let head = "SELECT "@ + joined(cols, ", "@) + " FROM "@ + plan.1.subrange(0, plan.1.len() - suffix.len()) + " ORDER BY "@;
    assert(t.query_spec().subrange(0, head.len() as int) =~= head);
}

#[verifier::rlimit(50)]
proof fn lemma_import_columns_spec_relations(rec: Seq<(Seq<char>, Seq<char>)>)
    ensures
        record_plan(ExportTable::SpecRelations.type_tag_spec(), rec) matches Some((kind, target, vals, context)) && has_suffix(
            target,
            " ("@ + joined(ExportTable::SpecRelations.columns_spec(), ", "@) + ")"@,
        ) && vals == column_values(rec, ExportTable::SpecRelations.columns_spec()) && has_prefix(
            ExportTable::SpecRelations.query_spec(),
            "SELECT "@ + joined(ExportTable::SpecRelations.columns_spec(), ", "@) + " FROM "@ + target.subrange(
                0,
                target.len() - (" ("@ + joined(ExportTable::SpecRelations.columns_spec(), ", "@) + ")"@).len(),
            ) + " ORDER BY "@,
        ),
{
    let t = ExportTable::SpecRelations;
    reveal_with_fuel(joined, 10);
    reveal_with_fuel(column_values, 10);
    reveal_strlit(" (");
    reveal_strlit(")");
    reveal_strlit(", ");
    reveal_strlit("review_mode");
    reveal_strlit("risk_level");
    reveal_strlit("default");
    reveal_strlit("manual");
    reveal_strlit("medium");
    reveal_strlit("spec");
    reveal_strlit("acceptance_criterion");
    reveal_strlit("spec_relation");
    reveal_strlit("acceptance_criterion_concern");
    reveal_strlit("codeintel_code_location");
    reveal_strlit("codeintel_ac_link");
    reveal_strlit("spec_relations (id, source_spec_id, target_spec_id, relation_kind, created_at, updated_at)");
    reveal_strlit("id");
    reveal_strlit("source_spec_id");
    reveal_strlit("target_spec_id");
    reveal_strlit("relation_kind");
    reveal_strlit("created_at");
    reveal_strlit("updated_at");
    assert(t.type_tag_spec() == "spec_relation"@);
    assert(record_plan(t.type_tag_spec(), rec) is Some);
    let plan = record_plan(t.type_tag_spec(), rec)->0;
    let cols = t.columns_spec();
    let suffix = " ("@ + joined(cols, ", "@) + ")"@;
    assert(plan.1 == "spec_relations (id, source_spec_id, target_spec_id, relation_kind, created_at, updated_at)"@);
    assert(suffix.len() <= plan.1.len());
    assert(plan.1.subrange(plan.1.len() - suffix.len(), plan.1.len() as int) =~= suffix);
    assert("created_at"@[0] != "risk_level"@[0]);
    assert("updated_at"@[0] != "risk_level"@[0]);
    assert(column_values(rec, cols) =~= seq![column_value(rec, "id"@), column_value(rec, "source_spec_id"@), column_value(rec, "target_spec_id"@), column_value(rec, "relation_kind"@), column_value(rec, "created_at"@), column_value(rec, "updated_at"@)]);
    assert(plan.2 =~= seq![column_value(rec, "id"@), column_value(rec, "source_spec_id"@), column_value(rec, "target_spec_id"@), column_value(rec, "relation_kind"@), column_value(rec, "created_at"@), column_value(rec, "updated_at"@)]);
    reveal_strlit("SELECT ");
    reveal_strlit(" FROM ");
    reveal_strlit(" ORDER BY ");
    reveal_strlit("SELECT id, source_spec_id, target_spec_id, relation_kind, created_at, updated_at FROM spec_relations ORDER BY 1");
    let head = "SELECT "@ + joined(cols, ", "@) + " FROM "@ + plan.1.subrange(0, plan.1.len() - suffix.len()) + " ORDER BY "@;
    assert(t.query_spec().subrange(0, head.len() as int) =~= head);
}

#[verifier::rlimit(50)]
proof fn lemma_import_columns_concerns(rec: Seq<(Seq<char>, Seq<char>)>)
    ensures
        record_plan(ExportTable::Concerns.type_tag_spec(), rec) matches Some((kind, target, vals, context)) && has_suffix(
            target,
            " ("@ + joined(ExportTable::Concerns.columns_spec(), ", "@) + ")"@,
        ) && vals == column_values(rec, ExportTable::Concerns.columns_spec()) && has_prefix(
            ExportTable::Concerns.query_spec(),
            "SELECT "@ + joined(ExportTable::Concerns.columns_spec(), ", "@) + " FROM "@ + target.subrange(
                0,
                target.len() - (" ("@ + joined(ExportTable::Concerns.columns_spec(), ", "@) + ")"@).len(),
            ) + " ORDER BY "@,
        ),
{
    let t = ExportTable::Concerns;
    reveal_with_fuel(joined, 10);
    reveal_with_fuel(column_values, 10);
    reveal_strlit(" (");
    reveal_strlit(")");
    reveal_strlit(", ");
    reveal_strlit("review_mode");
    reveal_strlit("risk_level");
    reveal_strlit("default");
    reveal_strlit("manual");
    reveal_strlit("medium");
    reveal_strlit("spec");
    reveal_strlit("acceptance_criterion");
    reveal_strlit("spec_relation");
    reveal_strlit("acceptance_criterion_concern");
    reveal_strlit("codeintel_code_location");
    reveal_strlit("codeintel_ac_link");
    reveal_strlit("acceptance_criterion_concerns (ac_id, concern_kind)");
    reveal_strlit("ac_id");
    reveal_strlit("concern_kind");
    assert(t.type_tag_spec() == "acceptance_criterion_concern"@);
    assert(record_plan(t.type_tag_spec(), rec) is Some);
    let plan = record_plan(t.type_tag_spec(), rec)->0;
    let cols = t.columns_spec();
    let suffix = " ("@ + joined(cols, ", "@) + ")"@;
    assert(plan.1 == "acceptance_criterion_concerns (ac_id, concern_kind)"@);
    assert(suffix.len() <= plan.1.len());
    assert(plan.1.subrange(plan.1.len() - suffix.len(), plan.1.len() as int) =~= suffix);
    assert(column_values(rec, cols) =~= seq![column_value(rec, "ac_id"@), column_value(rec, "concern_kind"@)]);
    assert(plan.2 =~= seq![column_value(rec, "ac_id"@), column_value(rec, "concern_kind"@)]);
    reveal_strlit("SELECT ");
    reveal_strlit(" FROM ");
    reveal_strlit(" ORDER BY ");
    reveal_strlit("SELECT ac_id, concern_kind FROM acceptance_criterion_concerns ORDER BY 1");
    let head = "SELECT "@ + joined(cols, ", "@) + " FROM "@ + plan.1.subrange(0, plan.1.len() - suffix.len()) + " ORDER BY "@;
    assert(t.query_spec().subrange(0, head.len() as int) =~= head);
}

#[verifier::rlimit(50)]
proof fn lemma_import_columns_code_locations(rec: Seq<(Seq<char>, Seq<char>)>)
    ensures
        record_plan(ExportTable::CodeLocations.type_tag_spec(), rec) matches Some((kind, target, vals, context)) && has_suffix(
            target,
            " ("@ + joined(ExportTable::CodeLocations.columns_spec(), ", "@) + ")"@,
        ) && vals == column_values(rec, ExportTable::CodeLocations.columns_spec()) && has_prefix(
            ExportTable::CodeLocations.query_spec(),
            "SELECT "@ + joined(ExportTable::CodeLocations.columns_spec(), ", "@) + " FROM "@ + target.subrange(
                0,
                target.len() - (" ("@ + joined(ExportTable::CodeLocations.columns_spec(), ", "@) + ")"@).len(),
            ) + " ORDER BY "@,
        ),
{
    let t = ExportTable::CodeLocations;
    reveal_with_fuel(joined, 10);
    reveal_with_fuel(column_values, 10);
    reveal_strlit(" (");
    reveal_strlit(")");
    reveal_strlit(", ");
    reveal_strlit("review_mode");
    reveal_strlit("risk_level");
    reveal_strlit("default");
    reveal_strlit("manual");
    reveal_strlit("medium");
    reveal_strlit("spec");
    reveal_strlit("acceptance_criterion");
    reveal_strlit("spec_relation");
    reveal_strlit("acceptance_criterion_concern");
    reveal_strlit("codeintel_code_location");
    reveal_strlit("codeintel_ac_link");
    reveal_strlit("codeintel_code_locations (id, repo_path, file_path, kind, symbol, test_command, created_at, updated_at)");
    reveal_strlit("id");
    reveal_strlit("repo_path");
    reveal_strlit("file_path");
    reveal_strlit("kind");
    reveal_strlit("symbol");
    reveal_strlit("test_command");
    reveal_strlit("created_at");
    reveal_strlit("updated_at");
    assert(t.type_tag_spec() == "codeintel_code_location"@);
    assert(record_plan(t.type_tag_spec(), rec) is Some);
    let plan = record_plan(t.type_tag_spec(), rec)->0;
    let cols = t.columns_spec();
    let suffix = " ("@ + joined(cols, ", "@) + ")"@;
    assert(plan.1 == "codeintel_code_locations (id, repo_path, file_path, kind, symbol, test_command, created_at, updated_at)"@);
    assert(suffix.len() <= plan.1.len());
    assert(plan.1.subrange(plan.1.len() - suffix.len(), plan.1.len() as int) =~= suffix);
    assert("created_at"@[0] != "risk_level"@[0]);
    assert("updated_at"@[0] != "risk_level"@[0]);
    assert(column_values(rec, cols) =~= seq![column_value(rec, "id"@), column_value(rec, "repo_path"@), column_value(rec, "file_path"@), column_value(rec, "kind"@), column_value(rec, "symbol"@), column_value(rec, "test_command"@), column_value(rec, "created_at"@), column_value(rec, "updated_at"@)]);
    assert(plan.2 =~= seq![column_value(rec, "id"@), column_value(rec, "repo_path"@), column_value(rec, "file_path"@), column_value(rec, "kind"@), column_value(rec, "symbol"@), column_value(rec, "test_command"@), column_value(rec, "created_at"@), column_value(rec, "updated_at"@)]);
    reveal_strlit("SELECT ");
    reveal_strlit(" FROM ");
    reveal_strlit(" ORDER BY ");
    reveal_strlit("SELECT id, repo_path, file_path, kind, symbol, test_command, created_at, updated_at FROM codeintel_code_locations ORDER BY id");
    let head = "SELECT "@ + joined(cols, ", "@) + " FROM "@ + plan.1.subrange(0, plan.1.len() - suffix.len()) + " ORDER BY "@;
    assert(t.query_spec().subrange(0, head.len() as int) =~= head);
}

#[verifier::rlimit(50)]
proof fn lemma_import_columns_ac_links(rec: Seq<(Seq<char>, Seq<char>)>)
    ensures
        record_plan(ExportTable::AcLinks.type_tag_spec(), rec) matches Some((kind, target, vals, context)) && has_suffix(
            target,
            " ("@ + joined(ExportTable::AcLinks.columns_spec(), ", "@) + ")"@,
        ) && vals == column_values(rec, ExportTable::AcLinks.columns_spec()) && has_prefix(
            ExportTable::AcLinks.query_spec(),
            "SELECT "@ + joined(ExportTable::AcLinks.columns_spec(), ", "@) + " FROM "@ + target.subrange(
                0,
                target.len() - (" ("@ + joined(ExportTable::AcLinks.columns_spec(), ", "@) + ")"@).len(),
            ) + " ORDER BY "@,
        ),
{
    let t = ExportTable::AcLinks;
    reveal_with_fuel(joined, 10);
    reveal_with_fuel(column_values, 10);
    reveal_strlit(" (");
    reveal_strlit(")");
    reveal_strlit(", ");
    reveal_strlit("review_mode");
    reveal_strlit("risk_level");
    reveal_strlit("default");
    reveal_strlit("manual");
    reveal_strlit("medium");
    reveal_strlit("spec");
    reveal_strlit("acceptance_criterion");
    reveal_strlit("spec_relation");
    reveal_strlit("acceptance_criterion_concern");
    reveal_strlit("codeintel_code_location");
    reveal_strlit("codeintel_ac_link");
    reveal_strlit("codeintel_ac_links (id, ac_id, code_location_id, relation_kind, note, created_at, updated_at)");
    reveal_strlit("id");
    reveal_strlit("ac_id");
    reveal_strlit("code_location_id");
    reveal_strlit("relation_kind");
    reveal_strlit("note");
    reveal_strlit("created_at");
    reveal_strlit("updated_at");
    assert(t.type_tag_spec() == "codeintel_ac_link"@);
    assert(record_plan(t.type_tag_spec(), rec) is Some);
    let plan = record_plan(t.type_tag_spec(), rec)->0;
    let cols = t.columns_spec();
    let suffix = " ("@ + joined(cols, ", "@) + ")"@;
    assert(plan.1 == "codeintel_ac_links (id, ac_id, code_location_id, relation_kind, note, created_at, updated_at)"@);
    assert(suffix.len() <= plan.1.len());
    assert(plan.1.subrange(plan.1.len() - suffix.len(), plan.1.len() as int) =~= suffix);
    assert("created_at"@[0] != "risk_level"@[0]);
    assert("updated_at"@[0] != "risk_level"@[0]);
    assert(column_values(rec, cols) =~= seq![column_value(rec, "id"@), column_value(rec, "ac_id"@), column_value(rec, "code_location_id"@), column_value(rec, "relation_kind"@), column_value(rec, "note"@), column_value(rec, "created_at"@), column_value(rec, "updated_at"@)]);
    assert(plan.2 =~= seq![column_value(rec, "id"@), column_value(rec, "ac_id"@), column_value(rec, "code_location_id"@), column_value(rec, "relation_kind"@), column_value(rec, "note"@), column_value(rec, "created_at"@), column_value(rec, "updated_at"@)]);
    reveal_strlit("SELECT ");
    reveal_strlit(" FROM ");
    reveal_strlit(" ORDER BY ");
    reveal_strlit("SELECT id, ac_id, code_location_id, relation_kind, note, created_at, updated_at FROM codeintel_ac_links ORDER BY id");
    let head = "SELECT "@ + joined(cols, ", "@) + " FROM "@ + plan.1.subrange(0, plan.1.len() - suffix.len()) + " ORDER BY "@;
    assert(t.query_spec().subrange(0, head.len() as int) =~= head);
}

/// A record of each type that the export writes is imported into the columns that the
/// export reads from that table, in the same order, and each column gets the record's field
/// of the same name: the value list is the column list read through the record.
pub proof fn lemma_import_fills_each_column_from_its_field(t: ExportTable, rec: Seq<(Seq<char>, Seq<char>)>)
    ensures
        record_plan(t.type_tag_spec(), rec) matches Some((kind, target, vals, context)) && has_suffix(
            target,
            " ("@ + joined(t.columns_spec(), ", "@) + ")"@,
        ) && vals == column_values(rec, t.columns_spec()) && has_prefix(
            t.query_spec(),
            "SELECT "@ + joined(t.columns_spec(), ", "@) + " FROM "@ + target.subrange(
                0,
                target.len() - (" ("@ + joined(t.columns_spec(), ", "@) + ")"@).len(),
            ) + " ORDER BY "@,
        ),
{
    match t {
        ExportTable::Specs => lemma_import_columns_specs(rec),
        ExportTable::AcceptanceCriteria => lemma_import_columns_acceptance_criteria(rec),
        ExportTable::SpecRelations => lemma_import_columns_spec_relations(rec),
        ExportTable::Concerns => lemma_import_columns_concerns(rec),
        ExportTable::CodeLocations => lemma_import_columns_code_locations(rec),
        ExportTable::AcLinks => lemma_import_columns_ac_links(rec),
    }
}

/// Rows imported per table.
#[derive(Debug)]
pub struct ImportCounts {
    pub specs: usize,
    pub acs: usize,
    pub rels: usize,
    pub concerns: usize,
    pub locations: usize,
    pub links: usize,
}

impl ImportCounts {
    /// No rows yet.
    pub fn new() -> (r: Self)
        ensures
            r.specs == 0 && r.acs == 0 && r.rels == 0 && r.concerns == 0 && r.locations == 0
                && r.links == 0,
    {
        ImportCounts { specs: 0, acs: 0, rels: 0, concerns: 0, locations: 0, links: 0 }
    }

    /// The count of `kind`.
    pub open spec fn of(&self, kind: ImportKind) -> usize {
        match kind {
            ImportKind::Spec => self.specs,
            ImportKind::Ac => self.acs,
            ImportKind::Relation => self.rels,
            ImportKind::Concern => self.concerns,
            ImportKind::Location => self.locations,
            ImportKind::Link => self.links,
        }
    }

    /// One more row of `kind`.
    pub fn bump(&mut self, kind: ImportKind)
        requires
            old(self).of(kind) < usize::MAX,
        ensures
            forall|k: ImportKind| #[trigger] final(self).of(k) == if k == kind {
                old(self).of(k) + 1
            } else {
                old(self).of(k) as int
            },
    {
        match kind {
            ImportKind::Spec => self.specs = self.specs + 1,
            ImportKind::Ac => self.acs = self.acs + 1,
            ImportKind::Relation => self.rels = self.rels + 1,
            ImportKind::Concern => self.concerns = self.concerns + 1,
            ImportKind::Location => self.locations = self.locations + 1,
            ImportKind::Link => self.links = self.links + 1,
        }
    }
}

} // verus!
