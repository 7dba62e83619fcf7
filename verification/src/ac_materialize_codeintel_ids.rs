//! Deterministic primary keys for the codeintel rows written when AC tests are materialized.
//!
//! A location id is `cl-` and the lowercase hex SHA-256 of
//! `"cl-v1" 0 ac_id 0 repo_path 0 file_path` (UTF-8, file path with `\` turned into `/`);
//! a `verified_by` link id is `acl-` and the hex SHA-256 of `"acl-vb-v1" 0 ac_id 0 location_id`.
//! Both are fixed width, well within the 191 characters of the key columns.
use vstd::prelude::*;

use vstd::utf8::encode_utf8;

use crate::digest::{hex_lower, sha256_hex, sha256_of};
use crate::text::{append_str, push_char, string_from_chars};

verus! {

/// `label`, then for each part a zero byte and the part's UTF-8 bytes.
pub open spec fn labeled_payload(label: Seq<u8>, parts: Seq<Seq<char>>) -> Seq<u8>
    decreases parts.len(),
{
    if parts.len() == 0 {
        label
    } else {
        labeled_payload(label, parts.drop_last()) + seq![0u8] + encode_utf8(parts.last())
    }
}

/// Views of a list of string slices.
pub open spec fn parts_view(parts: Seq<&str>) -> Seq<Seq<char>> {
    parts.map_values(|p: &str| p@)
}

fn append_bytes(out: &mut Vec<u8>, b: &[u8])
    ensures
        final(out)@ == old(out)@ + b@,
{
    let mut i: usize = 0;
    while i < b.len()
        invariant
            i <= b@.len(),
            out@ == old(out)@ + b@.subrange(0, i as int),
        decreases b@.len() - i,
    {
        out.push(b[i]);
        assert(b@.subrange(0, i + 1) =~= b@.subrange(0, i as int).push(b@[i as int]));
        i = i + 1;
    }
    assert(b@.subrange(0, b@.len() as int) =~= b@);
}

/// Lowercase hex SHA-256 of the labeled payload of `parts`.
fn sha256_hex_labeled(label: &str, parts: &[&str]) -> (r: String)
    ensures
        r@ == hex_lower(sha256_of(labeled_payload(encode_utf8(label@), parts_view(parts@)))),
        r@.len() == 64,
{
    let ghost pv = parts_view(parts@);
    let mut payload: Vec<u8> = Vec::new();
    append_bytes(&mut payload, label.as_bytes());
    let mut i: usize = 0;
    assert(pv.subrange(0, 0) =~= Seq::<Seq<char>>::empty());
    while i < parts.len()
        invariant
            pv == parts_view(parts@),
            i <= parts@.len(),
            payload@ == labeled_payload(encode_utf8(label@), pv.subrange(0, i as int)),
        decreases parts@.len() - i,
    {
        payload.push(0u8);
        append_bytes(&mut payload, parts[i].as_bytes());
        assert(pv.subrange(0, i + 1).drop_last() =~= pv.subrange(0, i as int));
        assert(payload@ =~= labeled_payload(encode_utf8(label@), pv.subrange(0, i + 1)));
        i = i + 1;
    }
    assert(pv.subrange(0, pv.len() as int) =~= pv);
    sha256_hex(payload.as_slice())
}

/// The path with every backslash turned into a slash.
pub open spec fn normalized_path(p: Seq<char>) -> Seq<char> {
    p.map_values(|c: char| if c == '\\' { '/' } else { c })
}

/// `file_path` with `\` replaced by `/` (nothing else changes).
pub fn normalize_materialize_file_path(file_path: &str) -> (r: String)
    ensures
        r@ == normalized_path(file_path@),
{
    let n = file_path.unicode_len();
    let mut out = String::new();
    let mut i: usize = 0;
    while i < n
        invariant
            n == file_path@.len(),
            i <= n,
            out@ == normalized_path(file_path@.subrange(0, i as int)),
        decreases n - i,
    {
        let c = file_path.get_char(i);
        push_char(&mut out, if c == '\\' { '/' } else { c });
        assert(normalized_path(file_path@.subrange(0, i + 1)) =~= normalized_path(
            file_path@.subrange(0, i as int),
        ).push(if c == '\\' { '/' } else { c }));
        i = i + 1;
    }
    assert(file_path@.subrange(0, n as int) =~= file_path@);
    out
}

/// The location id of an AC test file.
pub open spec fn location_id(ac_id: Seq<char>, repo_path: Seq<char>, file_path: Seq<char>) -> Seq<char> {
    "cl-"@ + hex_lower(
        sha256_of(
            labeled_payload(
                encode_utf8("cl-v1"@),
                seq![ac_id, repo_path, normalized_path(file_path)],
            ),
        ),
    )
}

/// The id of the `verified_by` link from an AC to a code location.
pub open spec fn link_id(ac_id: Seq<char>, code_location_id: Seq<char>) -> Seq<char> {
    "acl-"@ + hex_lower(
        sha256_of(labeled_payload(encode_utf8("acl-vb-v1"@), seq![ac_id, code_location_id])),
    )
}

/// `cl-` and the hex SHA-256 over `"cl-v1"`, the AC id, the repo path and the normalized
/// file path.
pub fn code_location_id_for_materialized_ac_test(ac_id: &str, repo_path: &str, file_path: &str) -> (r: String)
    ensures
        r@ == location_id(ac_id@, repo_path@, file_path@),
        r@.len() == 3 + 64,
{
    let norm = normalize_materialize_file_path(file_path);
    let mut parts: Vec<&str> = Vec::new();
    parts.push(ac_id);
    parts.push(repo_path);
    parts.push(norm.as_str());
    assert(parts_view(parts@) =~= seq![ac_id@, repo_path@, normalized_path(file_path@)]);
    let digest = sha256_hex_labeled("cl-v1", parts.as_slice());
    let mut out: Vec<char> = Vec::new();
    append_str(&mut out, "cl-");
    append_str(&mut out, digest.as_str());
    proof {
        reveal_strlit("cl-");
    }
    string_from_chars(out.as_slice())
}

/// `acl-` and the hex SHA-256 over `"acl-vb-v1"`, the AC id and the location id.
pub fn ac_link_id_for_verified_by_file(ac_id: &str, code_location_id: &str) -> (r: String)
    ensures
        r@ == link_id(ac_id@, code_location_id@),
        r@.len() == 4 + 64,
{
    let mut parts: Vec<&str> = Vec::new();
    parts.push(ac_id);
    parts.push(code_location_id);
    assert(parts_view(parts@) =~= seq![ac_id@, code_location_id@]);
    let digest = sha256_hex_labeled("acl-vb-v1", parts.as_slice());
    let mut out: Vec<char> = Vec::new();
    append_str(&mut out, "acl-");
    append_str(&mut out, digest.as_str());
    proof {
        reveal_strlit("acl-");
    }
    string_from_chars(out.as_slice())
}

/// File paths that differ only in `\` versus `/` get the same location id.
pub proof fn lemma_location_id_ignores_separator_style(
    ac_id: Seq<char>,
    repo_path: Seq<char>,
    p1: Seq<char>,
    p2: Seq<char>,
)
    requires
        normalized_path(p1) == normalized_path(p2),
    ensures
        location_id(ac_id, repo_path, p1) == location_id(ac_id, repo_path, p2),
{
}

} // verus!
