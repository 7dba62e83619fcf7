//! Row decoding for codeintel code locations and AC↔code links (`codeintel_*` tables).
use vstd::prelude::*;

use crate::models::{AcCodeLink, AcCodeRelationKind, CodeLocation, CodeLocationKind};
use crate::text::concat2;

verus! {

/// Builds a [`CodeLocation`] from its columns; an unknown `kind` is an error.
pub fn code_location_from_columns(
    id: String,
    repo_path: String,
    file_path: String,
    kind: String,
    symbol: Option<String>,
    test_command: Option<String>,
    created_at: String,
    updated_at: String,
) -> (r: Result<CodeLocation, String>)
    ensures
        r is Ok <==> CodeLocationKind::from_db_label(kind@) is Some,
        r matches Ok(l) ==> {
            &&& l.id == id
            &&& l.repo_path == repo_path
            &&& l.file_path == file_path
            &&& Some(l.kind) == CodeLocationKind::from_db_label(kind@)
            &&& l.symbol == symbol
            &&& l.test_command == test_command
            &&& l.created_at == created_at
            &&& l.updated_at == updated_at
        },
        r matches Err(m) ==> m@ == "unknown code location kind: "@ + kind@,
{
    let kind = match CodeLocationKind::from_db_str(kind.as_str()) {
        Some(k) => k,
        None => return Err(concat2("unknown code location kind: ", kind.as_str())),
    };
    Ok(CodeLocation { id, repo_path, file_path, kind, symbol, test_command, created_at, updated_at })
}

/// Builds a [`CodeLocation`] from a selected row tuple.
pub fn code_location_from_row(
    row: (String, String, String, String, Option<String>, Option<String>, String, String),
) -> (r: Result<CodeLocation, String>)
    ensures
        r is Ok <==> CodeLocationKind::from_db_label(row.3@) is Some,
        r matches Ok(l) ==> {
            &&& l.id == row.0
            &&& l.repo_path == row.1
            &&& l.file_path == row.2
            &&& Some(l.kind) == CodeLocationKind::from_db_label(row.3@)
            &&& l.symbol == row.4
            &&& l.test_command == row.5
            &&& l.created_at == row.6
            &&& l.updated_at == row.7
        },
        r matches Err(m) ==> m@ == "unknown code location kind: "@ + row.3@,
{
    let (id, repo_path, file_path, kind, symbol, test_command, created_at, updated_at) = row;
    code_location_from_columns(
        id,
        repo_path,
        file_path,
        kind,
        symbol,
        test_command,
        created_at,
        updated_at,
    )
}

/// Builds an [`AcCodeLink`] from its columns; an unknown `relation_kind` is an error.
pub fn ac_code_link_from_columns(
    id: String,
    ac_id: String,
    code_location_id: String,
    relation_kind: String,
    note: String,
    created_at: String,
    updated_at: String,
) -> (r: Result<AcCodeLink, String>)
    ensures
        r is Ok <==> AcCodeRelationKind::from_db_label(relation_kind@) is Some,
        r matches Ok(l) ==> {
            &&& l.id == id
            &&& l.ac_id == ac_id
            &&& l.code_location_id == code_location_id
            &&& Some(l.relation_kind) == AcCodeRelationKind::from_db_label(relation_kind@)
            &&& l.note == note
            &&& l.created_at == created_at
            &&& l.updated_at == updated_at
        },
        r matches Err(m) ==> m@ == "unknown AC code relation kind: "@ + relation_kind@,
{
    let relation_kind = match AcCodeRelationKind::from_db_str(relation_kind.as_str()) {
        Some(k) => k,
        None => return Err(concat2("unknown AC code relation kind: ", relation_kind.as_str())),
    };
    Ok(AcCodeLink { id, ac_id, code_location_id, relation_kind, note, created_at, updated_at })
}

} // verus!
