//! `drop-isolated-test-db`: only a database whose name carries the disposable prefix may be
//! dropped.
use vstd::prelude::*;

use crate::db::{escaped_body, mysql_quote_identifier};
use crate::text::{append_str, debug_quote, debug_quoted, has_prefix, starts_with_str, string_from_chars};

verus! {

/// The refusal for a database without the disposable prefix.
pub open spec fn drop_refusal_spec(database: Seq<char>, prefix: Seq<char>) -> Option<Seq<char>> {
    if has_prefix(database, prefix) {
        None
    } else {
        Some(
            "drop-isolated-test-db: refused — database name must start with prefix "@ + debug_quoted(prefix)
                + " (got "@ + debug_quoted(database) + ")"@,
        )
    }
}

/// Why `database` may not be dropped, when it lacks `prefix`.
pub fn drop_refusal(database: &str, prefix: &str) -> (r: Option<String>)
    ensures
        match r {
            Some(m) => drop_refusal_spec(database@, prefix@) == Some(m@),
            None => drop_refusal_spec(database@, prefix@) is None,
        },
{
    if starts_with_str(database, prefix) {
        return None;
    }
    let mut m: Vec<char> = Vec::new();
    append_str(&mut m, "drop-isolated-test-db: refused — database name must start with prefix ");
    let p = debug_quote(prefix);
    append_str(&mut m, p.as_str());
    append_str(&mut m, " (got ");
    let d = debug_quote(database);
    append_str(&mut m, d.as_str());
    append_str(&mut m, ")");
    Some(string_from_chars(m.as_slice()))
}

/// `DROP DATABASE IF EXISTS <quoted database>`
pub fn drop_statement(database: &str) -> (r: String)
    ensures
        r@ == "DROP DATABASE IF EXISTS "@ + seq!['`'] + escaped_body(database@) + seq!['`'],
{
    let q = mysql_quote_identifier(database);
    let mut m: Vec<char> = Vec::new();
    append_str(&mut m, "DROP DATABASE IF EXISTS ");
    append_str(&mut m, q.as_str());
    string_from_chars(m.as_slice())
}

} // verus!
