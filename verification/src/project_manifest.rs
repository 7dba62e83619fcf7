//! Repo-anchored project manifest (`.coherence/project.toml`) rules: deployment tier parsing,
//! manifest validation and the normalized Dolt/MySQL catalog names derived from a manifest.
//!
//! Catalog name segments are lowercase ASCII `a-z0-9_`, with runs of other characters collapsed
//! to one underscore, no leading or trailing underscore, at most [`DOLT_DB_NAME_MAX_LEN`] long.
use vstd::prelude::*;

use crate::digest::{hex_lower, sha256_hex, sha256_of};
use crate::paths::{ancestors_spec, first_marked_ancestor, first_marked_spec};
use vstd::utf8::encode_utf8;
use crate::text::{
    all_white_space, append_chars, append_str, ascii_lower, chars_of, debug_quote, debug_quoted, is_blank, owned,
    str_eq, string_from_chars, to_ascii_lower, trim_chars, trim_seq,
};

verus! {

/// Relative location of the manifest under a repository root.
pub const MANIFEST_REL_PATH: &'static str = ".coherence/project.toml";

/// Latest manifest schema version; `project_hash` requires at least this version.
pub const CURRENT_MANIFEST_SCHEMA_VERSION: u32 = 2;

/// Maximum length of a Dolt/MySQL database name (and of a sanitized segment).
pub const DOLT_DB_NAME_MAX_LEN: usize = 64;

/// Environment variable naming the deployment tier.
pub const COHERENCE_ENV_VAR: &'static str = "COHERENCE_ENV";

/// The refusal of a tier text that names no tier: the trimmed, lowercased text quoted.
pub open spec fn invalid_env_message(s: Seq<char>) -> Seq<char> {
    COHERENCE_ENV_VAR@ + ": invalid value "@ + debug_quoted(trim_seq(s).map_values(|c: char| ascii_lower(c)))
        + " (expected dev, test, or prod)"@
}

/// Logical deployment tier.
#[derive(Debug, Clone, Copy, PartialEq, Eq, Structural)]
pub enum CoherenceEnv {
    Dev,
    Test,
    Prod,
}

impl CoherenceEnv {
    /// The tier's text.
    pub open spec fn label(self) -> Seq<char> {
        match self {
            CoherenceEnv::Dev => "dev"@,
            CoherenceEnv::Test => "test"@,
            CoherenceEnv::Prod => "prod"@,
        }
    }

    pub fn as_str(self) -> (r: &'static str)
        ensures
            r@ == self.label(),
    {
        match self {
            CoherenceEnv::Dev => "dev",
            CoherenceEnv::Test => "test",
            CoherenceEnv::Prod => "prod",
        }
    }

    /// The tier named by `s`, ignoring surrounding white space and ASCII case.
    pub open spec fn from_text(s: Seq<char>) -> Option<Self> {
        let t = trim_seq(s).map_values(|c: char| ascii_lower(c));
        if t == "dev"@ {
            Some(CoherenceEnv::Dev)
        } else if t == "test"@ {
            Some(CoherenceEnv::Test)
        } else if t == "prod"@ {
            Some(CoherenceEnv::Prod)
        } else {
            None
        }
    }

    /// Parses tier text (`dev`, `test`, `prod`; surrounding white space and ASCII case ignored).
    pub fn parse_tier(s: &str) -> (r: Result<Self, String>)
        ensures
            r is Ok <==> Self::from_text(s@) is Some,
            r matches Ok(e) ==> Self::from_text(s@) == Some(e),
            r matches Err(m) ==> m@ == invalid_env_message(s@),
    {
        let t = trim_chars(s);
        let mut lower: Vec<char> = Vec::new();
        let mut i: usize = 0;
        while i < t.len()
            invariant
                i <= t@.len(),
                lower@ == t@.subrange(0, i as int).map_values(|c: char| ascii_lower(c)),
            decreases t@.len() - i,
        {
            lower.push(to_ascii_lower(t[i]));
            proof {
                assert(t@.subrange(0, i + 1).map_values(|c: char| ascii_lower(c)) =~= t@.subrange(
                    0,
                    i as int,
                ).map_values(|c: char| ascii_lower(c)).push(ascii_lower(t@[i as int])));
            }
            i = i + 1;
        }
        assert(t@.subrange(0, t@.len() as int) =~= t@);
        let text = string_from_chars(lower.as_slice());
        if str_eq(text.as_str(), "dev") {
            Ok(CoherenceEnv::Dev)
        } else if str_eq(text.as_str(), "test") {
            Ok(CoherenceEnv::Test)
        } else if str_eq(text.as_str(), "prod") {
            Ok(CoherenceEnv::Prod)
        } else {
            let mut msg: Vec<char> = Vec::new();
            append_str(&mut msg, COHERENCE_ENV_VAR);
            append_str(&mut msg, ": invalid value ");
            let quoted = debug_quote(text.as_str());
            append_str(&mut msg, quoted.as_str());
            append_str(&mut msg, " (expected dev, test, or prod)");
            Err(string_from_chars(msg.as_slice()))
        }
    }
}

impl std::str::FromStr for CoherenceEnv {
    type Err = String;

    fn from_str(s: &str) -> (r: Result<Self, String>)
        ensures
            r is Ok <==> Self::from_text(s@) is Some,
            r matches Ok(e) ==> Self::from_text(s@) == Some(e),
            r matches Err(m) ==> m@ == invalid_env_message(s@),
    {
        CoherenceEnv::parse_tier(s)
    }
}

/// The tier selected by optional `COHERENCE_ENV`-style text: `Dev` when absent or blank.
pub open spec fn coherence_env_spec(raw: Option<Seq<char>>) -> Option<CoherenceEnv> {
    match raw {
        None => Some(CoherenceEnv::Dev),
        Some(s) => if trim_seq(s).len() == 0 {
            Some(CoherenceEnv::Dev)
        } else {
            CoherenceEnv::from_text(s)
        },
    }
}

/// Parse `COHERENCE_ENV`-style tier text; `Dev` when `raw` is absent, empty or white space only.
pub fn parse_coherence_env(raw: Option<&str>) -> (r: Result<CoherenceEnv, String>)
    ensures
        r is Ok <==> coherence_env_spec(
            match raw {
                Some(s) => Some(s@),
                None => None,
            },
        ) is Some,
        r matches Ok(e) ==> coherence_env_spec(
            match raw {
                Some(s) => Some(s@),
                None => None,
            },
        ) == Some(e),
        r matches Err(m) ==> raw matches Some(s) && m@ == invalid_env_message(s@),
{
    match raw {
        None => Ok(CoherenceEnv::Dev),
        Some(s) => {
            if is_blank(s) {
                Ok(CoherenceEnv::Dev)
            } else {
                CoherenceEnv::parse_tier(s)
            }
        },
    }
}

/// On-disk project manifest: identity and optional catalog binding.
#[derive(Debug, PartialEq, Eq)]
pub struct ProjectManifest {
    pub version: u32,
    pub project_slug: String,
    pub dolt_db_name: Option<String>,
    pub frozen_git_toplevel: Option<String>,
    pub project_hash: Option<String>,
    pub dolt_mode: Option<String>,
}

impl ProjectManifest {
    /// The manifest passes [`validate_manifest`].
    pub open spec fn is_valid(&self) -> bool {
        &&& !all_white_space(self.project_slug@)
        &&& self.project_hash is Some ==> {
            &&& self.version >= CURRENT_MANIFEST_SCHEMA_VERSION
            &&& !all_white_space(self.project_hash->0@)
        }
    }
}

/// Why a manifest is refused, checked in order: blank slug, hash below schema version 2,
/// blank hash.
pub open spec fn validation_message(m: ProjectManifest) -> Seq<char> {
    if all_white_space(m.project_slug@) {
        "project_slug must be non-empty"@
    } else if m.version < CURRENT_MANIFEST_SCHEMA_VERSION {
        "project_hash requires manifest version >= 2"@
    } else {
        "project_hash must be non-empty when set"@
    }
}

/// Checks a manifest: the slug must not be blank; a `project_hash`, when set, needs schema
/// version 2 or later and must not be blank.
pub fn validate_manifest(manifest: &ProjectManifest) -> (r: Result<(), String>)
    ensures
        r is Ok <==> manifest.is_valid(),
        r matches Err(m) ==> m@ == validation_message(*manifest),
{
    if is_blank(manifest.project_slug.as_str()) {
        return Err(owned("project_slug must be non-empty"));
    }
    if let Some(h) = &manifest.project_hash {
        if manifest.version < CURRENT_MANIFEST_SCHEMA_VERSION {
            return Err(owned("project_hash requires manifest version >= 2"));
        }
        if is_blank(h.as_str()) {
            return Err(owned("project_hash must be non-empty when set"));
        }
    }
    Ok(())
}

/// Path of the manifest under `repo_root` (`repo_root` joined with `.coherence/project.toml`).
pub open spec fn manifest_path_spec(repo_root: Seq<char>) -> Seq<char> {
    if repo_root.len() == 0 {
        MANIFEST_REL_PATH@
    } else if repo_root.last() == '/' {
        repo_root + MANIFEST_REL_PATH@
    } else {
        repo_root + seq!['/'] + MANIFEST_REL_PATH@
    }
}

fn manifest_path(repo_root: &str) -> (r: String)
    ensures
        r@ == manifest_path_spec(repo_root@),
{
    let root = chars_of(repo_root);
    let mut out: Vec<char> = Vec::new();
    append_chars(&mut out, root.as_slice());
    if root.len() > 0 && root[root.len() - 1] != '/' {
        out.push('/');
    }
    append_str(&mut out, MANIFEST_REL_PATH);
    proof {
        if root@.len() == 0 {
            assert(out@ =~= MANIFEST_REL_PATH@);
        } else if root@.last() == '/' {
            assert(out@ =~= repo_root@ + MANIFEST_REL_PATH@);
        } else {
            assert(out@ =~= repo_root@ + seq!['/'] + MANIFEST_REL_PATH@);
        }
    }
    string_from_chars(out.as_slice())
}

/// Path of `.coherence/project.toml` under a repository root.
pub fn coherence_manifest_path(repo_root: &str) -> (r: String)
    ensures
        r@ == manifest_path_spec(repo_root@),
{
    manifest_path(repo_root)
}

/// The repository root around `start`: its nearest ancestor (itself included) that holds a
/// `.git` entry, `has_git[i]` telling whether the `i`-th ancestor (see `ancestors_spec`) does.
pub fn find_git_repo_root(start: &str, has_git: &[bool]) -> (r: Option<String>)
    requires
        has_git@.len() == ancestors_spec(start@).len(),
    ensures
        match r {
            Some(d) => first_marked_spec(ancestors_spec(start@), has_git@) == Some(d@),
            None => first_marked_spec(ancestors_spec(start@), has_git@) is None,
        },
{
    first_marked_ancestor(start, has_git)
}

// ---------------------------------------------------------------------------------------------
// Segment sanitization
// ---------------------------------------------------------------------------------------------

/// The segment character that `ch` maps to, if it is kept.
pub open spec fn segment_char(ch: char) -> Option<char> {
    if 'A' <= ch && ch <= 'Z' {
        Some(ascii_lower(ch))
    } else if ('a' <= ch && ch <= 'z') || ('0' <= ch && ch <= '9') || ch == '_' {
        Some(ch)
    } else {
        None
    }
}

/// One step of sanitization: keep mapped characters (no leading or doubled underscores, at most
/// 64 characters); an unmapped character becomes one separating underscore.
pub open spec fn sanitize_step(out: Seq<char>, ch: char) -> Seq<char> {
    match segment_char(ch) {
        Some(c) => if c == '_' && (out.len() == 0 || out.last() == '_') {
            out
        } else if out.len() >= DOLT_DB_NAME_MAX_LEN {
            out
        } else {
            out.push(c)
        },
        None => if out.len() > 0 && out.last() != '_' && out.len() < DOLT_DB_NAME_MAX_LEN {
            out.push('_')
        } else {
            out
        },
    }
}

/// Sanitization of the characters `s`, continuing from `out`.
pub open spec fn sanitize_from(out: Seq<char>, s: Seq<char>) -> Seq<char>
    decreases s.len(),
{
    if s.len() == 0 {
        out
    } else {
        sanitize_from(sanitize_step(out, s[0]), s.drop_first())
    }
}

/// `s` without trailing underscores.
pub open spec fn trim_underscores_end(s: Seq<char>) -> Seq<char>
    decreases s.len(),
{
    if s.len() > 0 && s.last() == '_' {
        trim_underscores_end(s.drop_last())
    } else {
        s
    }
}

/// `s` cut to at most `max_len` characters, then without trailing underscores.
pub open spec fn fit_segment(s: Seq<char>, max_len: nat) -> Seq<char> {
    trim_underscores_end(
        if s.len() > max_len {
            s.take(max_len as int)
        } else {
            s
        },
    )
}

/// The sanitized segment for input text `s`.
pub open spec fn sanitized_segment(s: Seq<char>) -> Seq<char> {
    fit_segment(sanitize_from(Seq::empty(), s), DOLT_DB_NAME_MAX_LEN as nat)
}

/// A well-formed segment: `a-z0-9_` only, no leading, trailing or doubled underscore, at most
/// 64 characters.
pub open spec fn is_segment(s: Seq<char>) -> bool {
    &&& s.len() <= DOLT_DB_NAME_MAX_LEN
    &&& forall|i: int|
        0 <= i < s.len() ==> {
            let c = #[trigger] s[i];
            ('a' <= c && c <= 'z') || ('0' <= c && c <= '9') || c == '_'
        }
    &&& s.len() > 0 ==> s[0] != '_' && s.last() != '_'
    &&& forall|i: int| 0 <= i < s.len() - 1 ==> !(#[trigger] s[i] == '_' && s[i + 1] == '_')
}

/// An intermediate sanitization result: like a segment, but may end with one underscore.
pub open spec fn is_partial_segment(s: Seq<char>) -> bool {
    &&& s.len() <= DOLT_DB_NAME_MAX_LEN
    &&& forall|i: int|
        0 <= i < s.len() ==> {
            let c = #[trigger] s[i];
            ('a' <= c && c <= 'z') || ('0' <= c && c <= '9') || c == '_'
        }
    &&& s.len() > 0 ==> s[0] != '_'
    &&& forall|i: int| 0 <= i < s.len() - 1 ==> !(#[trigger] s[i] == '_' && s[i + 1] == '_')
}

proof fn lemma_sanitize_full_is_fixed(out: Seq<char>, s: Seq<char>)
    requires
        out.len() >= DOLT_DB_NAME_MAX_LEN,
    ensures
        sanitize_from(out, s) == out,
    decreases s.len(),
{
    if s.len() > 0 {
        assert(sanitize_step(out, s[0]) == out);
        lemma_sanitize_full_is_fixed(out, s.drop_first());
    }
}

proof fn lemma_step_partial(out: Seq<char>, ch: char)
    requires
        is_partial_segment(out),
    ensures
        is_partial_segment(sanitize_step(out, ch)),
{
    let r = sanitize_step(out, ch);
    if r.len() == out.len() + 1 {
        assert forall|i: int| 0 <= i < r.len() - 1 implies !(#[trigger] r[i] == '_' && r[i + 1]
            == '_') by {
            if i + 1 == out.len() {
                assert(r[i] == out.last());
            } else {
                assert(r[i] == out[i] && r[i + 1] == out[i + 1]);
            }
        }
        assert forall|i: int| 0 <= i < r.len() implies {
            let c = #[trigger] r[i];
            ('a' <= c && c <= 'z') || ('0' <= c && c <= '9') || c == '_'
        } by {
            if i < out.len() {
                assert(r[i] == out[i]);
            }
        }
    }
}

proof fn lemma_trim_underscores_end(s: Seq<char>)
    requires
        is_partial_segment(s),
    ensures
        is_segment(trim_underscores_end(s)),
        trim_underscores_end(s).len() <= s.len(),
        trim_underscores_end(s) == s.take(trim_underscores_end(s).len() as int),
        s.len() > 0 && s[0] != '_' ==> trim_underscores_end(s).len() > 0,
    decreases s.len(),
{
    if s.len() > 0 && s.last() == '_' {
        let t = s.drop_last();
        assert(is_partial_segment(t)) by {
            assert forall|i: int| 0 <= i < t.len() - 1 implies !(#[trigger] t[i] == '_' && t[i
                + 1] == '_') by {
                assert(t[i] == s[i] && t[i + 1] == s[i + 1]);
            }
        }
        lemma_trim_underscores_end(t);
        let r = trim_underscores_end(t);
        assert(r =~= s.take(r.len() as int));
        if s.len() > 0 && s[0] != '_' {
            assert(t.len() > 0);
        }
    } else {
        assert(s =~= s.take(s.len() as int));
    }
}

proof fn lemma_take_partial(s: Seq<char>, n: int)
    requires
        is_partial_segment(s),
        0 <= n <= s.len(),
    ensures
        is_partial_segment(s.take(n)),
{
    let t = s.take(n);
    assert forall|i: int| 0 <= i < t.len() - 1 implies !(#[trigger] t[i] == '_' && t[i + 1]
        == '_') by {
        assert(t[i] == s[i] && t[i + 1] == s[i + 1]);
    }
}

/// Fitting a segment-like value to `max_len` gives a segment that is a prefix of it, and keeps
/// at least one character when it had one and room allows.
pub proof fn lemma_fit_segment(s: Seq<char>, max_len: nat)
    requires
        is_partial_segment(s),
    ensures
        is_segment(fit_segment(s, max_len)),
        fit_segment(s, max_len).len() <= max_len,
        fit_segment(s, max_len).len() <= s.len(),
        fit_segment(s, max_len) == s.take(fit_segment(s, max_len).len() as int),
        s.len() > 0 && max_len > 0 ==> fit_segment(s, max_len).len() > 0,
{
    let t = if s.len() > max_len {
        s.take(max_len as int)
    } else {
        s
    };
    if s.len() > max_len {
        lemma_take_partial(s, max_len as int);
    }
    lemma_trim_underscores_end(t);
    let r = trim_underscores_end(t);
    assert(r =~= s.take(r.len() as int));
}

proof fn lemma_sanitize_from_partial(out: Seq<char>, s: Seq<char>)
    requires
        is_partial_segment(out),
    ensures
        is_partial_segment(sanitize_from(out, s)),
    decreases s.len(),
{
    if s.len() > 0 {
        lemma_step_partial(out, s[0]);
        lemma_sanitize_from_partial(sanitize_step(out, s[0]), s.drop_first());
    }
}

proof fn lemma_sanitize_keeps_segment(s: Seq<char>, k: int)
    requires
        is_segment(s),
        0 <= k <= s.len(),
    ensures
        sanitize_from(s.take(k), s.skip(k)) == s,
    decreases s.len() - k,
{
    if k == s.len() {
        assert(s.take(k) =~= s);
    } else {
        let c = s[k];
        assert(segment_char(c) == Some(c));
        if c == '_' {
            assert(k > 0);
            assert(s[k - 1] != '_');
            assert(s.take(k).last() == s[k - 1]);
        }
        assert(sanitize_step(s.take(k), c) =~= s.take(k + 1));
        assert(s.skip(k)[0] == c);
        assert(s.skip(k).drop_first() =~= s.skip(k + 1));
        lemma_sanitize_keeps_segment(s, k + 1);
    }
}

/// Sanitizing a name that is already a well-formed segment gives it back unchanged.
pub proof fn lemma_sanitized_segment_fixed(s: Seq<char>)
    requires
        is_segment(s),
    ensures
        sanitized_segment(s) == s,
{
    lemma_sanitize_keeps_segment(s, 0);
    assert(s.take(0) =~= Seq::<char>::empty());
    assert(s.skip(0) =~= s);
    assert(!(s.len() > DOLT_DB_NAME_MAX_LEN));
    assert(trim_underscores_end(s) == s);
}

/// Sanitization always gives a well-formed segment, so sanitizing twice is sanitizing once.
pub proof fn lemma_sanitize_idempotent(input: Seq<char>)
    ensures
        is_segment(sanitized_segment(input)),
        sanitized_segment(sanitized_segment(input)) == sanitized_segment(input),
{
    lemma_sanitize_from_partial(Seq::empty(), input);
    lemma_fit_segment(sanitize_from(Seq::empty(), input), DOLT_DB_NAME_MAX_LEN as nat);
    lemma_sanitized_segment_fixed(sanitized_segment(input));
}

/// The character that `ch` is kept as, if any (`a-z`, `0-9`, `_`; ASCII uppercase is lowered).
fn dolt_db_segment_char(ch: char) -> (r: Option<char>)
    ensures
        r == segment_char(ch),
{
    if ch >= 'A' && ch <= 'Z' {
        Some(to_ascii_lower(ch))
    } else if (ch >= 'a' && ch <= 'z') || (ch >= '0' && ch <= '9') {
        Some(ch)
    } else if ch == '_' {
        Some('_')
    } else {
        None
    }
}

/// An underscore is dropped at the start and after another underscore.
fn should_skip_underscore(ch: char, out: &Vec<char>) -> (r: bool)
    ensures
        r == (ch == '_' && (out@.len() == 0 || out@.last() == '_')),
{
    ch == '_' && (out.len() == 0 || out[out.len() - 1] == '_')
}

/// A separator goes only after a non-underscore character, below the length cap.
fn can_push_dolt_db_separator(out: &Vec<char>) -> (r: bool)
    ensures
        r == (out@.len() > 0 && out@.last() != '_' && out@.len() < DOLT_DB_NAME_MAX_LEN),
{
    out.len() > 0 && out[out.len() - 1] != '_' && out.len() < DOLT_DB_NAME_MAX_LEN
}

/// Pushes a kept character; returns `false` (pushing nothing) when the cap is reached.
fn push_dolt_db_segment_char(out: &mut Vec<char>, ch: char) -> (r: bool)
    ensures
        !r <==> (!(ch == '_' && (old(out)@.len() == 0 || old(out)@.last() == '_'))
            && old(out)@.len() >= DOLT_DB_NAME_MAX_LEN),
        final(out)@ == if (ch == '_' && (old(out)@.len() == 0 || old(out)@.last() == '_'))
            || old(out)@.len() >= DOLT_DB_NAME_MAX_LEN {
            old(out)@
        } else {
            old(out)@.push(ch)
        },
{
    if should_skip_underscore(ch, out) {
        return true;
    }
    if out.len() >= DOLT_DB_NAME_MAX_LEN {
        return false;
    }
    out.push(ch);
    true
}

fn push_dolt_db_separator(out: &mut Vec<char>)
    ensures
        final(out)@ == if old(out)@.len() > 0 && old(out)@.last() != '_' && old(out)@.len()
            < DOLT_DB_NAME_MAX_LEN {
            old(out)@.push('_')
        } else {
            old(out)@
        },
{
    if can_push_dolt_db_separator(out) {
        out.push('_');
    }
}

/// Cuts `segment` to at most `max_len` characters, then drops trailing underscores.
fn trim_segment_to_fit(segment: &mut Vec<char>, max_len: usize)
    ensures
        final(segment)@ == fit_segment(old(segment)@, max_len as nat),
{
    if segment.len() > max_len {
        segment.truncate(max_len);
        assert(segment@ =~= old(segment)@.take(max_len as int));
    }
    let ghost t = segment@;
    while segment.len() > 0 && segment[segment.len() - 1] == '_'
        invariant
            trim_underscores_end(segment@) == trim_underscores_end(t),
        decreases segment@.len(),
    {
        let ghost before = segment@;
        segment.pop();
        assert(segment@ =~= before.drop_last());
    }
}

/// The sanitized characters of `input` (see the module documentation).
fn sanitize_chars(input: &str) -> (r: Vec<char>)
    ensures
        r@ == sanitized_segment(input@),
        is_segment(r@),
{
    let v = chars_of(input);
    let n = v.len();
    let mut out: Vec<char> = Vec::new();
    let mut i: usize = 0;
    assert(v@.subrange(0, n as int) =~= input@);
    while i < n
        invariant
            n == v@.len(),
            v@ == input@,
            i <= n,
            sanitize_from(out@, v@.subrange(i as int, n as int)) == sanitize_from(
                Seq::empty(),
                input@,
            ),
            is_partial_segment(out@),
        ensures
            out@ == sanitize_from(Seq::empty(), input@),
            is_partial_segment(out@),
        decreases n - i,
    {
        let ch = v[i];
        let ghost rest = v@.subrange(i as int, n as int);
        proof {
            assert(rest[0] == ch);
            assert(rest.drop_first() =~= v@.subrange(i + 1, n as int));
            lemma_step_partial(out@, ch);
        }
        match dolt_db_segment_char(ch) {
            Some(c) => {
                let ghost before = out@;
                if !push_dolt_db_segment_char(&mut out, c) {
                    proof {
                        lemma_sanitize_full_is_fixed(before, rest);
                    }
                    break ;
                }
                proof {
                    assert(segment_char(c) == Some(c)) by {
                        assert(('a' <= c && c <= 'z') || ('0' <= c && c <= '9') || c == '_');
                    }
                }
            },
            None => {
                push_dolt_db_separator(&mut out);
            },
        }
        i = i + 1;
        proof {
            if i == n {
                assert(v@.subrange(n as int, n as int).len() == 0);
            }
        }
    }
    proof {
        lemma_fit_segment(out@, DOLT_DB_NAME_MAX_LEN as nat);
    }
    trim_segment_to_fit(&mut out, DOLT_DB_NAME_MAX_LEN);
    out
}

/// Map arbitrary input to a lowercase ASCII `a-z0-9_` segment of at most 64 characters.
pub fn sanitize_dolt_db_segment(input: &str) -> (r: String)
    ensures
        r@ == sanitized_segment(input@),
        is_segment(r@),
{
    let v = sanitize_chars(input);
    string_from_chars(v.as_slice())
}

// ---------------------------------------------------------------------------------------------
// Names derived from a project slug
// ---------------------------------------------------------------------------------------------

/// First four lowercase hex digits of the SHA-256 of the UTF-8 bytes of the trimmed path.
pub open spec fn short_hash_spec(path: Seq<char>) -> Seq<char> {
    hex_lower(sha256_of(encode_utf8(trim_seq(path)))).take(4)
}

/// First four lowercase hex digits of SHA-256 over the UTF-8 bytes of the trimmed path.
pub fn short_hash_frozen_git_path(path_for_hash: &str) -> (r: String)
    ensures
        r@ == short_hash_spec(path_for_hash@),
        r@.len() == 4,
        forall|i: int| 0 <= i < 4 ==> {
            let c = #[trigger] r@[i];
            ('0' <= c && c <= '9') || ('a' <= c && c <= 'f')
        },
{
    let trimmed = string_from_chars(trim_chars(path_for_hash).as_slice());
    let bytes = trimmed.as_str().as_bytes();
    let full = sha256_hex(bytes);
    proof {
        crate::digest::lemma_hex_lower_chars(sha256_of(bytes@));
    }
    let chars = chars_of(full.as_str());
    let mut out: Vec<char> = Vec::new();
    let mut i: usize = 0;
    while i < 4
        invariant
            chars@.len() == 64,
            i <= 4,
            out@ == chars@.take(i as int),
        decreases 4 - i,
    {
        out.push(chars[i]);
        assert(chars@.take(i + 1) =~= chars@.take(i as int).push(chars@[i as int]));
        i = i + 1;
    }
    string_from_chars(out.as_slice())
}

/// Whether `s` ends with `p`.
pub open spec fn has_suffix(s: Seq<char>, p: Seq<char>) -> bool {
    p.len() <= s.len() && s.subrange(s.len() - p.len(), s.len() as int) == p
}

/// The bound catalog name: sanitized slug fitted to leave room for `_` and the short path hash.
pub open spec fn bind_name_spec(slug: Seq<char>, frozen: Seq<char>) -> Seq<char> {
    let suffix = seq!['_'] + short_hash_spec(frozen);
    fit_segment(sanitized_segment(slug), (DOLT_DB_NAME_MAX_LEN - suffix.len()) as nat) + suffix
}

/// `sanitize(project_slug) + "_" + short_hash(frozen_git_toplevel)`, at most 64 characters.
pub fn dolt_db_name_for_bind(project_slug: &str, frozen_git_toplevel: &str) -> (r: Result<
    String,
    String,
>)
    ensures
        r is Ok <==> sanitized_segment(project_slug@).len() > 0,
        r matches Ok(n) ==> n@ == bind_name_spec(project_slug@, frozen_git_toplevel@)
            && n@.len() <= DOLT_DB_NAME_MAX_LEN,
        r matches Err(m) ==> m@ == empty_slug_message(),
{
    let short = short_hash_frozen_git_path(frozen_git_toplevel);
    let mut base = sanitize_chars(project_slug);
    if base.len() == 0 {
        return Err(
            owned(
                "project_slug sanitizes to an empty database name segment; use letters, digits, or underscores",
            ),
        );
    }
    let mut suffix: Vec<char> = Vec::new();
    suffix.push('_');
    append_str(&mut suffix, short.as_str());
    let max_base = DOLT_DB_NAME_MAX_LEN - suffix.len();
    proof {
        lemma_fit_segment(base@, max_base as nat);
    }
    trim_segment_to_fit(&mut base, max_base);
    if base.len() == 0 {
        return Err(
            owned("project_slug is too long to fit a stable dolt_db_name (max 64 characters)"),
        );
    }
    append_chars(&mut base, suffix.as_slice());
    Ok(string_from_chars(base.as_slice()))
}

/// `_<hash>_<env>` with a hash segment, `_<env>` without.
pub open spec fn catalog_suffix_spec(hash: Option<Seq<char>>, env: Seq<char>) -> Seq<char> {
    match hash {
        Some(h) => seq!['_'] + h + seq!['_'] + env,
        None => seq!['_'] + env,
    }
}

/// Slug fitted in front of the suffix, when the suffix fits and some slug remains.
pub open spec fn compose_catalog_spec(slug_full: Seq<char>, hash: Option<Seq<char>>, env: Seq<
    char,
>) -> Option<Seq<char>> {
    let suffix = catalog_suffix_spec(hash, env);
    if suffix.len() > DOLT_DB_NAME_MAX_LEN {
        None
    } else {
        let base = fit_segment(slug_full, (DOLT_DB_NAME_MAX_LEN - suffix.len()) as nat);
        if base.len() == 0 {
            None
        } else {
            Some(base + suffix)
        }
    }
}

/// The sanitized, trimmed hash segment, when it is not empty.
pub open spec fn hash_segment_spec(hash: Option<Seq<char>>) -> Option<Seq<char>> {
    match hash {
        Some(h) => if sanitized_segment(trim_seq(h)).len() > 0 {
            Some(sanitized_segment(trim_seq(h)))
        } else {
            None
        },
        None => None,
    }
}

/// The normalized catalog name: slug, hash segment when it fits, and tier.
pub open spec fn catalog_name_spec(slug: Seq<char>, hash: Option<Seq<char>>, env: CoherenceEnv) -> Seq<
    char,
> {
    let slug_full = sanitized_segment(slug);
    let with_hash = match hash_segment_spec(hash) {
        Some(h) => compose_catalog_spec(slug_full, Some(h), env.label()),
        None => None,
    };
    match with_hash {
        Some(n) => n,
        None => compose_catalog_spec(slug_full, None, env.label())->0,
    }
}

fn catalog_suffix(hash: Option<&[char]>, env_seg: &str) -> (r: Vec<char>)
    ensures
        r@ == catalog_suffix_spec(
            match hash {
                Some(h) => Some(h@),
                None => None,
            },
            env_seg@,
        ),
{
    let mut out: Vec<char> = Vec::new();
    out.push('_');
    match hash {
        Some(h) => {
            append_chars(&mut out, h);
            out.push('_');
            append_str(&mut out, env_seg);
            assert(out@ =~= seq!['_'] + h@ + seq!['_'] + env_seg@);
        },
        None => {
            append_str(&mut out, env_seg);
            assert(out@ =~= seq!['_'] + env_seg@);
        },
    }
    out
}

fn try_compose_catalog(slug_full: &[char], hash: Option<&[char]>, env_seg: &str) -> (r: Option<
    String,
>)
    requires
        is_segment(slug_full@),
    ensures
        r matches Some(n) ==> Some(n@) == compose_catalog_spec(
            slug_full@,
            match hash {
                Some(h) => Some(h@),
                None => None,
            },
            env_seg@,
        ),
        r is None ==> compose_catalog_spec(
            slug_full@,
            match hash {
                Some(h) => Some(h@),
                None => None,
            },
            env_seg@,
        ) is None,
{
    let suffix = catalog_suffix(hash, env_seg);
    if suffix.len() > DOLT_DB_NAME_MAX_LEN {
        return None;
    }
    let max_base = DOLT_DB_NAME_MAX_LEN - suffix.len();
    let mut base: Vec<char> = Vec::new();
    append_chars(&mut base, slug_full);
    assert(base@ =~= slug_full@);
    trim_segment_to_fit(&mut base, max_base);
    if base.len() == 0 {
        return None;
    }
    append_chars(&mut base, suffix.as_slice());
    Some(string_from_chars(base.as_slice()))
}

proof fn lemma_compose_without_hash(slug_full: Seq<char>, env: CoherenceEnv)
    requires
        is_segment(slug_full),
        slug_full.len() > 0,
    ensures
        compose_catalog_spec(slug_full, None, env.label()) is Some,
{
    reveal_strlit("dev");
    reveal_strlit("test");
    reveal_strlit("prod");
    let suffix = catalog_suffix_spec(None, env.label());
    lemma_fit_segment(slug_full, (DOLT_DB_NAME_MAX_LEN - suffix.len()) as nat);
}

/// A composed name is at most 64 characters and ends with `_` and the tier.
proof fn lemma_compose_shape(slug_full: Seq<char>, hash: Option<Seq<char>>, env: Seq<char>)
    requires
        is_segment(slug_full),
        compose_catalog_spec(slug_full, hash, env) is Some,
    ensures
        compose_catalog_spec(slug_full, hash, env)->0.len() <= DOLT_DB_NAME_MAX_LEN,
        has_suffix(compose_catalog_spec(slug_full, hash, env)->0, seq!['_'] + env),
{
    let suffix = catalog_suffix_spec(hash, env);
    let max_base = (DOLT_DB_NAME_MAX_LEN - suffix.len()) as nat;
    lemma_fit_segment(slug_full, max_base);
    let n = compose_catalog_spec(slug_full, hash, env)->0;
    let tail = seq!['_'] + env;
    assert(n.subrange(n.len() - tail.len(), n.len() as int) =~= tail);
}

/// Error for a slug that leaves no characters after sanitizing.
pub open spec fn empty_slug_message() -> Seq<char> {
    "project_slug sanitizes to an empty database name segment; use letters, digits, or underscores"@
}

/// Normalized Dolt/MySQL database name from slug, optional hash segment, and tier: sanitized
/// slug, then `_<hash>` when the trimmed hash sanitizes to something and fits, then `_<env>`;
/// at most 64 characters (the slug is shortened, never the tier suffix).
pub fn effective_dolt_catalog_name(
    project_slug: &str,
    project_hash: Option<&str>,
    env: CoherenceEnv,
) -> (r: Result<String, String>)
    ensures
        r is Ok <==> sanitized_segment(project_slug@).len() > 0,
        r matches Err(e) ==> e@ == empty_slug_message(),
        r matches Ok(n) ==> {
            &&& n@ == catalog_name_spec(
                project_slug@,
                match project_hash {
                    Some(h) => Some(h@),
                    None => None,
                },
                env,
            )
            &&& n@.len() <= DOLT_DB_NAME_MAX_LEN
            &&& has_suffix(n@, seq!['_'] + env.label())
        },
{
    let slug_full = sanitize_chars(project_slug);
    if slug_full.len() == 0 {
        return Err(
            owned(
                "project_slug sanitizes to an empty database name segment; use letters, digits, or underscores",
            ),
        );
    }
    let env_seg = env.as_str();
    let ghost hash_view = match project_hash {
        Some(h) => Some(h@),
        None => None,
    };
    let hash: Option<Vec<char>> = match project_hash {
        Some(h) => {
            let trimmed = string_from_chars(trim_chars(h).as_slice());
            let seg = sanitize_chars(trimmed.as_str());
            if seg.len() > 0 {
                Some(seg)
            } else {
                None
            }
        },
        None => None,
    };
    assert(match hash {
        Some(h) => Some(h@),
        None => None,
    } == hash_segment_spec(hash_view));
    if let Some(h) = &hash {
        let composed = try_compose_catalog(slug_full.as_slice(), Some(h.as_slice()), env_seg);
        if let Some(name) = composed {
            proof {
                lemma_compose_shape(slug_full@, Some(h@), env.label());
            }
            return Ok(name);
        }
    }
    proof {
        lemma_compose_without_hash(slug_full@, env);
        lemma_compose_shape(slug_full@, None, env.label());
    }
    match try_compose_catalog(slug_full.as_slice(), None, env_seg) {
        Some(name) => Ok(name),
        None => {
            let mut msg: Vec<char> = Vec::new();
            append_str(&mut msg, COHERENCE_ENV_VAR);
            append_str(
                &mut msg,
                ": project_slug is too long to fit a stable catalog name (max 64 characters)",
            );
            Err(string_from_chars(msg.as_slice()))
        },
    }
}

} // verus!
