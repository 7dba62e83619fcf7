//! Compact JSON objects of text and integer fields, as `serde_json` writes them.
use vstd::prelude::*;

use crate::digest::hex_digit;
use crate::text::{decimal, int_text, joined};
use crate::text_sort::sort_by_key;

verus! {

/// How a JSON string literal writes the character `c`: `"` and `\` behind a backslash,
/// backspace, tab, line feed, form feed and carriage return as `\b \t \n \f \r`, the
/// other characters below U+0020 as `\u00` and two lowercase hex digits, all others as
/// they are.
pub open spec fn json_char(c: char) -> Seq<char> {
    if c == '"' {
        seq!['\\', '"']
    } else if c == '\\' {
        seq!['\\', '\\']
    } else if c == '\u{8}' {
        seq!['\\', 'b']
    } else if c == '\t' {
        seq!['\\', 't']
    } else if c == '\n' {
        seq!['\\', 'n']
    } else if c == '\u{c}' {
        seq!['\\', 'f']
    } else if c == '\r' {
        seq!['\\', 'r']
    } else if (c as u32) < 0x20 {
        seq!['\\', 'u', '0', '0', hex_digit(((c as u32) / 16) as u8), hex_digit(((c as u32) % 16) as u8)]
    } else {
        seq![c]
    }
}

/// The characters of `s`, each as a JSON string literal writes it.
pub open spec fn json_escaped(s: Seq<char>) -> Seq<char>
    decreases s.len(),
{
    if s.len() == 0 {
        Seq::empty()
    } else {
        json_escaped(s.drop_last()) + json_char(s.last())
    }
}

/// The JSON string literal of `s`, as `serde_json` writes it.
pub open spec fn json_string_literal(s: Seq<char>) -> Seq<char> {
    seq!['"'] + json_escaped(s) + seq!['"']
}

/// A field value of a JSON object: a string, a signed or unsigned integer, or `null`.
#[derive(Debug)]
pub enum JsonScalar {
    Text(String),
    Int(i64),
    UInt(u64),
    Null,
}

/// How a JSON object writes a value.
pub open spec fn scalar_text(v: JsonScalar) -> Seq<char> {
    match v {
        JsonScalar::Text(s) => json_string_literal(s@),
        JsonScalar::Int(n) => int_text(n as int),
        JsonScalar::UInt(n) => decimal(n as nat),
        JsonScalar::Null => "null"@,
    }
}

/// The fields as `(name, written value)`.
pub open spec fn entries(fields: Seq<(String, JsonScalar)>) -> Seq<(Seq<char>, Seq<char>)> {
    fields.map_values(|p: (String, JsonScalar)| (p.0@, scalar_text(p.1)))
}

/// The fields without those whose name comes again later: a later field of the same name
/// replaces an earlier one.
pub open spec fn keep_last(f: Seq<(Seq<char>, Seq<char>)>) -> Seq<(Seq<char>, Seq<char>)>
    decreases f.len(),
{
    if f.len() == 0 {
        Seq::empty()
    } else {
        let rest = keep_last(f.drop_first());
        if exists|j: int| 0 <= j < f.drop_first().len() && (#[trigger] f.drop_first()[j]).0 == f[0].0 {
            rest
        } else {
            seq![f[0]] + rest
        }
    }
}

/// The name of an entry.
pub open spec fn entry_key() -> spec_fn((Seq<char>, Seq<char>)) -> Seq<char> {
    |e: (Seq<char>, Seq<char>)| e.0
}

/// An entry as `"name":value`.
pub open spec fn entry_json(e: (Seq<char>, Seq<char>)) -> Seq<char> {
    json_string_literal(e.0) + seq![':'] + e.1
}

/// The compact JSON object of written entries: one entry per name (the last one given),
/// names in ascending text order, separated by commas.
pub open spec fn object_text(es: Seq<(Seq<char>, Seq<char>)>) -> Seq<char> {
    seq!['{'] + joined(sort_by_key(keep_last(es), entry_key()).map_values(|e: (Seq<char>, Seq<char>)| entry_json(e)), seq![','])
        + seq!['}']
}

/// Builds a `serde_json::Map` by inserting the fields in order (a later field of the same
/// name replaces the earlier value) and writes `serde_json::Value::Object` of it with its
/// compact `Display`. Without the `preserve_order` feature the map is a `BTreeMap`, so
/// names come out in ascending byte order of their UTF-8 text (which is text order);
/// strings are written as `json_string_literal` says (`format_escaped_str`, `ESCAPE`,
/// `write_char_escape`), integers in decimal with `-` for negatives (`itoa`), `null` as is.
#[verifier::external_body]
pub(crate) fn json_object(fields: &Vec<(String, JsonScalar)>) -> (r: String)
    ensures
        r@ == object_text(entries(fields@)),
{
    let mut map = serde_json::Map::new();
    for (name, value) in fields {
        let v = match value {
            JsonScalar::Text(s) => serde_json::Value::String(s.clone()),
            JsonScalar::Int(n) => serde_json::Value::from(*n),
            JsonScalar::UInt(n) => serde_json::Value::from(*n),
            JsonScalar::Null => serde_json::Value::Null,
        };
        map.insert(name.clone(), v);
    }
    serde_json::Value::Object(map).to_string()
}

} // verus!
