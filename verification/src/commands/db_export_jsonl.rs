//! `db export-jsonl --env dev|test|prod [--out <file>]`: reading the flags, the tables exported
//! with their queries and columns, and the JSON line written for each row.
use vstd::prelude::*;

use crate::json_text::{entries, json_object, json_string_literal, object_text, JsonScalar};
use crate::text::{append_str, has_prefix, joined, owned, str_eq, string_from_chars};
use crate::commands::db_truncate::{arg_texts, env_valid, env_is_valid, value_after};

verus! {

/// Where the export goes without `--out`.
pub const DEFAULT_EXPORT_PATH: &'static str = ".coherence/exports/bootstrap-specs.jsonl";

/// The flags of an export.
#[derive(Debug)]
pub struct ExportArgs {
    pub env: String,
    pub out_path: String,
}

/// Reading the flags from `i` on, with the values seen so far.
pub open spec fn export_scan(args: Seq<Seq<char>>, i: int, env: Option<Seq<char>>, out: Option<Seq<char>>) -> Result<
    (Option<Seq<char>>, Option<Seq<char>>),
    Seq<char>,
>
    decreases args.len() - i,
{
    if i < 0 || i >= args.len() {
        Ok((env, out))
    } else {
        let next = if i + 1 < args.len() {
            i + 2
        } else {
            args.len() as int
        };
        if args[i] == "--env"@ {
            export_scan(args, next, Some(value_after(args, i)), out)
        } else if args[i] == "--out"@ {
            export_scan(args, next, env, Some(value_after(args, i)))
        } else {
            Err("export-jsonl: unknown flag: "@ + args[i])
        }
    }
}

/// The tier and output path of an export, or the error it stops with.
pub open spec fn export_args_spec(args: Seq<Seq<char>>) -> Result<(Seq<char>, Seq<char>), Seq<char>> {
    match export_scan(args, 0, None, None) {
        Err(m) => Err(m),
        Ok((None, _)) => Err("export-jsonl: --env dev|test|prod is required"@),
        Ok((Some(e), out)) => if !env_valid(e) {
            Err("export-jsonl: --env must be dev|test|prod (got "@ + e + ")"@)
        } else {
            Ok(
                (
                    e,
                    match out {
                        Some(o) => o,
                        None => DEFAULT_EXPORT_PATH@,
                    },
                ),
            )
        },
    }
}

/// The tier and output path of an export, from its flags.
pub fn parse_export_args(args: &[String]) -> (r: Result<ExportArgs, String>)
    ensures
        match r {
            Ok(a) => export_args_spec(arg_texts(args@)) == Ok::<(Seq<char>, Seq<char>), Seq<char>>(
                (a.env@, a.out_path@),
            ),
            Err(m) => export_args_spec(arg_texts(args@)) == Err::<(Seq<char>, Seq<char>), Seq<char>>(m@),
        },
{
    let ghost a = arg_texts(args@);
    let mut env: Option<String> = None;
    let mut out: Option<String> = None;
    let mut i: usize = 0;
    while i < args.len()
        invariant
            a == arg_texts(args@),
            i <= args@.len(),
            export_scan(a, 0, None, None) == export_scan(
                a,
                i as int,
                match env {
                    Some(e) => Some(e@),
                    None => None,
                },
                match out {
                    Some(o) => Some(o@),
                    None => None,
                },
            ),
        decreases args@.len() - i,
    {
        let arg = args[i].as_str();
        assert(a[i as int] == arg@);
        let val: &str = if i + 1 < args.len() {
            args[i + 1].as_str()
        } else {
            ""
        };
        proof {
            reveal_strlit("");
            if i + 1 < args@.len() {
                assert(a[i + 1] == val@);
            } else {
                assert(val@ =~= Seq::<char>::empty());
            }
            assert(value_after(a, i as int) == val@);
        }
        let next = if i + 1 < args.len() {
            i + 2
        } else {
            args.len()
        };
        if str_eq(arg, "--env") {
            env = Some(owned(val));
            i = next;
        } else if str_eq(arg, "--out") {
            out = Some(owned(val));
            i = next;
        } else {
            let mut m: Vec<char> = Vec::new();
            append_str(&mut m, "export-jsonl: unknown flag: ");
            append_str(&mut m, arg);
            return Err(string_from_chars(m.as_slice()));
        }
    }
    match env {
        None => Err(owned("export-jsonl: --env dev|test|prod is required")),
        Some(e) => {
            if !env_is_valid(e.as_str()) {
                let mut m: Vec<char> = Vec::new();
                append_str(&mut m, "export-jsonl: --env must be dev|test|prod (got ");
                append_str(&mut m, e.as_str());
                append_str(&mut m, ")");
                Err(string_from_chars(m.as_slice()))
            } else {
                let out_path = match out {
                    Some(o) => o,
                    None => owned(DEFAULT_EXPORT_PATH),
                };
                Ok(ExportArgs { env: e, out_path })
            }
        },
    }
}

/// The exported tables, in export order.
#[derive(Debug, Clone, Copy, PartialEq, Eq, Structural)]
pub enum ExportTable {
    Specs,
    AcceptanceCriteria,
    SpecRelations,
    Concerns,
    CodeLocations,
    AcLinks,
}

/// The exported tables, in export order.
pub fn export_tables() -> (r: Vec<ExportTable>)
    ensures
        r@ == seq![
            ExportTable::Specs,
            ExportTable::AcceptanceCriteria,
            ExportTable::SpecRelations,
            ExportTable::Concerns,
            ExportTable::CodeLocations,
            ExportTable::AcLinks,
        ],
{
    let v = vec![
        ExportTable::Specs,
        ExportTable::AcceptanceCriteria,
        ExportTable::SpecRelations,
        ExportTable::Concerns,
        ExportTable::CodeLocations,
        ExportTable::AcLinks,
    ];
    assert(v@ =~= seq![
        ExportTable::Specs,
        ExportTable::AcceptanceCriteria,
        ExportTable::SpecRelations,
        ExportTable::Concerns,
        ExportTable::CodeLocations,
        ExportTable::AcLinks,
    ]);
    v
}

impl ExportTable {
    /// The `type` of the table's records.
    pub open spec fn type_tag_spec(self) -> Seq<char> {
        match self {
            ExportTable::Specs => "spec"@,
            ExportTable::AcceptanceCriteria => "acceptance_criterion"@,
            ExportTable::SpecRelations => "spec_relation"@,
            ExportTable::Concerns => "acceptance_criterion_concern"@,
            ExportTable::CodeLocations => "codeintel_code_location"@,
            ExportTable::AcLinks => "codeintel_ac_link"@,
        }
    }

    /// The `type` of the table's records.
    pub fn type_tag(&self) -> (r: &'static str)
        ensures
            r@ == self.type_tag_spec(),
    {
        match self {
            ExportTable::Specs => "spec",
            ExportTable::AcceptanceCriteria => "acceptance_criterion",
            ExportTable::SpecRelations => "spec_relation",
            ExportTable::Concerns => "acceptance_criterion_concern",
            ExportTable::CodeLocations => "codeintel_code_location",
            ExportTable::AcLinks => "codeintel_ac_link",
        }
    }

    /// The query that reads the table, its columns in `columns` order.
    pub open spec fn query_spec(self) -> Seq<char> {
        match self {
            ExportTable::Specs => "SELECT id, slug, level, status, title, description, created_at, updated_at FROM specs ORDER BY id"@,
            ExportTable::AcceptanceCriteria => "SELECT id, spec_id, slug, title, intent, review_mode, risk_level, created_at, updated_at FROM acceptance_criteria ORDER BY id"@,
            ExportTable::SpecRelations => "SELECT id, source_spec_id, target_spec_id, relation_kind, created_at, updated_at FROM spec_relations ORDER BY 1"@,
            ExportTable::Concerns => "SELECT ac_id, concern_kind FROM acceptance_criterion_concerns ORDER BY 1"@,
            ExportTable::CodeLocations => "SELECT id, repo_path, file_path, kind, symbol, test_command, created_at, updated_at FROM codeintel_code_locations ORDER BY id"@,
            ExportTable::AcLinks => "SELECT id, ac_id, code_location_id, relation_kind, note, created_at, updated_at FROM codeintel_ac_links ORDER BY id"@,
        }
    }

    /// The query that reads the table, its columns in `columns` order.
    pub fn query(&self) -> (r: &'static str)
        ensures
            r@ == self.query_spec(),
    {
        match self {
            ExportTable::Specs => "SELECT id, slug, level, status, title, description, created_at, updated_at FROM specs ORDER BY id",
            ExportTable::AcceptanceCriteria => "SELECT id, spec_id, slug, title, intent, review_mode, risk_level, created_at, updated_at FROM acceptance_criteria ORDER BY id",
            ExportTable::SpecRelations => "SELECT id, source_spec_id, target_spec_id, relation_kind, created_at, updated_at FROM spec_relations ORDER BY 1",
            ExportTable::Concerns => "SELECT ac_id, concern_kind FROM acceptance_criterion_concerns ORDER BY 1",
            ExportTable::CodeLocations => "SELECT id, repo_path, file_path, kind, symbol, test_command, created_at, updated_at FROM codeintel_code_locations ORDER BY id",
            ExportTable::AcLinks => "SELECT id, ac_id, code_location_id, relation_kind, note, created_at, updated_at FROM codeintel_ac_links ORDER BY id",
        }
    }

    /// The columns of the query, in order.
    pub open spec fn columns_spec(self) -> Seq<Seq<char>> {
        match self {
            ExportTable::Specs => seq![
                "id"@,
                "slug"@,
                "level"@,
                "status"@,
                "title"@,
                "description"@,
                "created_at"@,
                "updated_at"@,
            ],
            ExportTable::AcceptanceCriteria => seq![
                "id"@,
                "spec_id"@,
                "slug"@,
                "title"@,
                "intent"@,
                "review_mode"@,
                "risk_level"@,
                "created_at"@,
                "updated_at"@,
            ],
            ExportTable::SpecRelations => seq![
                "id"@,
                "source_spec_id"@,
                "target_spec_id"@,
                "relation_kind"@,
                "created_at"@,
                "updated_at"@,
            ],
            ExportTable::Concerns => seq!["ac_id"@, "concern_kind"@],
            ExportTable::CodeLocations => seq![
                "id"@,
                "repo_path"@,
                "file_path"@,
                "kind"@,
                "symbol"@,
                "test_command"@,
                "created_at"@,
                "updated_at"@,
            ],
            ExportTable::AcLinks => seq![
                "id"@,
                "ac_id"@,
                "code_location_id"@,
                "relation_kind"@,
                "note"@,
                "created_at"@,
                "updated_at"@,
            ],
        }
    }

    /// The columns of the query, in order.
    pub fn columns(&self) -> (r: Vec<&'static str>)
        ensures
            r@.map_values(|s: &str| s@) == self.columns_spec(),
    {
        let v: Vec<&'static str> = match self {
            ExportTable::Specs => vec!["id", "slug", "level", "status", "title", "description", "created_at", "updated_at"],
            ExportTable::AcceptanceCriteria => vec![
                "id",
                "spec_id",
                "slug",
                "title",
                "intent",
                "review_mode",
                "risk_level",
                "created_at",
                "updated_at",
            ],
            ExportTable::SpecRelations => vec![
                "id",
                "source_spec_id",
                "target_spec_id",
                "relation_kind",
                "created_at",
                "updated_at",
            ],
            ExportTable::Concerns => vec!["ac_id", "concern_kind"],
            ExportTable::CodeLocations => vec![
                "id",
                "repo_path",
                "file_path",
                "kind",
                "symbol",
                "test_command",
                "created_at",
                "updated_at",
            ],
            ExportTable::AcLinks => vec!["id", "ac_id", "code_location_id", "relation_kind", "note", "created_at", "updated_at"],
        };
        assert(v@.map_values(|s: &str| s@) =~= self.columns_spec());
        v
    }
}

/// The fields of a record of type `tag`: `type` first, then each column with its value.
pub open spec fn record_fields(tag: Seq<char>, columns: Seq<Seq<char>>, values: Seq<Seq<char>>) -> Seq<(Seq<char>, Seq<char>)> {
    seq![("type"@, tag)] + Seq::new(columns.len(), |k: int| (columns[k], values[k]))
}

/// Text fields as JSON object entries: each value written as a JSON string.
pub open spec fn text_entries(fields: Seq<(Seq<char>, Seq<char>)>) -> Seq<(Seq<char>, Seq<char>)> {
    fields.map_values(|f: (Seq<char>, Seq<char>)| (f.0, json_string_literal(f.1)))
}

/// The JSON line of one exported row: an object with `type` set to `tag` and each column
/// holding its value as a string, written by `serde_json` (names in ascending order).
pub fn export_line(tag: &str, columns: &[&str], values: &[String]) -> (r: String)
    requires
        columns@.len() == values@.len(),
    ensures
        r@ == object_text(
            text_entries(record_fields(tag@, columns@.map_values(|s: &str| s@), values@.map_values(|s: String| s@))),
        ),
{
    let ghost fields = record_fields(tag@, columns@.map_values(|s: &str| s@), values@.map_values(|s: String| s@));
    let mut all: Vec<(String, JsonScalar)> = Vec::new();
    all.push((owned("type"), JsonScalar::Text(owned(tag))));
    proof {
        reveal_strlit("type");
        assert(entries(all@) =~= text_entries(fields.subrange(0, 1)));
    }
    let mut i: usize = 0;
    while i < columns.len()
        invariant
            columns@.len() == values@.len(),
            i <= columns@.len(),
            entries(all@) == text_entries(fields.subrange(0, i + 1)),
            fields == record_fields(tag@, columns@.map_values(|s: &str| s@), values@.map_values(|s: String| s@)),
        decreases columns@.len() - i,
    {
        let ghost before = all@;
        let c = owned(columns[i]);
        let v = owned(values[i].as_str());
        assert(fields[i + 1] == (columns@[i as int]@, values@[i as int]@));
        all.push((c, JsonScalar::Text(v)));
        assert(entries(all@) =~= entries(before).push((c@, json_string_literal(v@))));
        assert(fields.subrange(0, i + 2) =~= fields.subrange(0, i + 1).push(fields[i + 1]));
        assert(text_entries(fields.subrange(0, i + 2)) =~= text_entries(fields.subrange(0, i + 1)).push(
            (fields[i + 1].0, json_string_literal(fields[i + 1].1)),
        ));
        i = i + 1;
    }
    assert(fields.subrange(0, i + 1) =~= fields);
    json_object(&all)
}

/// The columns of every exported table are the select list of its query, in the query's
/// order, so each exported value lands under the name of the column it was read from.
pub proof fn lemma_columns_are_the_select_list(t: ExportTable)
    ensures
        has_prefix(t.query_spec(), "SELECT "@ + joined(t.columns_spec(), ", "@) + " FROM "@),
{
    reveal_with_fuel(joined, 10);
    reveal_strlit("SELECT ");
    reveal_strlit(", ");
    reveal_strlit(" FROM ");
    match t {
        ExportTable::Specs => {
            reveal_strlit("SELECT id, slug, level, status, title, description, created_at, updated_at FROM specs ORDER BY id");
            reveal_strlit("id");
            reveal_strlit("slug");
            reveal_strlit("level");
            reveal_strlit("status");
            reveal_strlit("title");
            reveal_strlit("description");
            reveal_strlit("created_at");
            reveal_strlit("updated_at");
            let p = "SELECT "@ + joined(t.columns_spec(), ", "@) + " FROM "@;
            assert(t.query_spec().subrange(0, p.len() as int) =~= p);
        },
        ExportTable::AcceptanceCriteria => {
            reveal_strlit("SELECT id, spec_id, slug, title, intent, review_mode, risk_level, created_at, updated_at FROM acceptance_criteria ORDER BY id");
            reveal_strlit("id");
            reveal_strlit("spec_id");
            reveal_strlit("slug");
            reveal_strlit("title");
            reveal_strlit("intent");
            reveal_strlit("review_mode");
            reveal_strlit("risk_level");
            reveal_strlit("created_at");
            reveal_strlit("updated_at");
            let p = "SELECT "@ + joined(t.columns_spec(), ", "@) + " FROM "@;
            assert(t.query_spec().subrange(0, p.len() as int) =~= p);
        },
        ExportTable::SpecRelations => {
            reveal_strlit("SELECT id, source_spec_id, target_spec_id, relation_kind, created_at, updated_at FROM spec_relations ORDER BY 1");
            reveal_strlit("id");
            reveal_strlit("source_spec_id");
            reveal_strlit("target_spec_id");
            reveal_strlit("relation_kind");
            reveal_strlit("created_at");
            reveal_strlit("updated_at");
            let p = "SELECT "@ + joined(t.columns_spec(), ", "@) + " FROM "@;
            assert(t.query_spec().subrange(0, p.len() as int) =~= p);
        },
        ExportTable::Concerns => {
            reveal_strlit("SELECT ac_id, concern_kind FROM acceptance_criterion_concerns ORDER BY 1");
            reveal_strlit("ac_id");
            reveal_strlit("concern_kind");
            let p = "SELECT "@ + joined(t.columns_spec(), ", "@) + " FROM "@;
            assert(t.query_spec().subrange(0, p.len() as int) =~= p);
        },
        ExportTable::CodeLocations => {
            reveal_strlit("SELECT id, repo_path, file_path, kind, symbol, test_command, created_at, updated_at FROM codeintel_code_locations ORDER BY id");
            reveal_strlit("id");
            reveal_strlit("repo_path");
            reveal_strlit("file_path");
            reveal_strlit("kind");
            reveal_strlit("symbol");
            reveal_strlit("test_command");
            reveal_strlit("created_at");
            reveal_strlit("updated_at");
            let p = "SELECT "@ + joined(t.columns_spec(), ", "@) + " FROM "@;
            assert(t.query_spec().subrange(0, p.len() as int) =~= p);
        },
        ExportTable::AcLinks => {
            reveal_strlit("SELECT id, ac_id, code_location_id, relation_kind, note, created_at, updated_at FROM codeintel_ac_links ORDER BY id");
            reveal_strlit("id");
            reveal_strlit("ac_id");
            reveal_strlit("code_location_id");
            reveal_strlit("relation_kind");
            reveal_strlit("note");
            reveal_strlit("created_at");
            reveal_strlit("updated_at");
            let p = "SELECT "@ + joined(t.columns_spec(), ", "@) + " FROM "@;
            assert(t.query_spec().subrange(0, p.len() as int) =~= p);
        },
    }
}

} // verus!
