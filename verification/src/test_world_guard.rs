//! Isolated test-world guard: smoke and integration-test writes are refused unless the
//! session profile is `test` and, on the user-scoped shared Dolt layout, the resolved
//! database is disposable or otherwise provably not the canonical catalog. A manifest that
//! binds a project hash also rules out its dev-tier catalog.
//!
//! The environment and the manifest are read by the caller and handed in as values.
use vstd::prelude::*;

use crate::project_manifest::{
    CoherenceEnv, ProjectManifest, catalog_name_spec, effective_dolt_catalog_name, empty_slug_message,
    sanitized_segment,
};
use crate::text::{append_str, debug_quote, debug_quoted, eq_ignore_ascii_case, has_prefix, owned, same_ignoring_ascii_case, starts_with_str, str_eq, string_from_chars, trim_chars, trim_seq};

verus! {

/// Variable that must name an isolated profile before mutating workflows run.
pub const PROFILE_ENV_VAR: &'static str = "COHERENCE_DB_PROFILE";

/// The isolated profile (ASCII case-insensitive).
pub const ISOLATED_PROFILE_VALUE: &'static str = "test";

/// Canonical project slug variable.
pub const PROJECT_SLUG_ENV_VAR: &'static str = "COHERENCE_PROJECT_SLUG";

/// Comma-separated database names allowed under `profile=test` besides the disposable prefix.
pub const TEST_WORLD_ALLOWLIST_ENV_VAR: &'static str = "COHERENCE_TEST_WORLD_DB_ALLOWLIST";

/// Optional expected database name.
pub const TEST_WORLD_EXPECTED_DB_ENV_VAR: &'static str = "COHERENCE_TEST_WORLD";

/// Footer of every refusal: what to run next.
pub const STANDARD_REMEDIATION_TARGETS: &'static str = "Next targets (repository root):\n• Workspace tests — `make test-isolated` or `make tool run`\n• Mutating smoke (writes fixtures) — `make smoke`\n• Optional teardown of disposable `.dolt` — `make tool dolt-stop` then `make test-world-reset` (skip reset after a failed run if you need to inspect state)\n";

/// The variables the guard reads, each absent when unset.
#[derive(Debug)]
pub struct GuardEnv {
    /// `COHERENCE_DB_PROFILE`
    pub profile: Option<String>,
    /// `COHERENCE_PROJECT_SLUG`
    pub project_slug: Option<String>,
    /// `COHERENCE_TEST_WORLD_DB_ALLOWLIST`
    pub allowlist: Option<String>,
    /// `COHERENCE_TEST_WORLD`
    pub expected_db: Option<String>,
    /// `COHERENCE_TEST_DB_PREFIX`
    pub test_db_prefix: Option<String>,
}

/// Text of an optional variable, empty when unset.
pub open spec fn var_text(o: Option<String>) -> Seq<char> {
    match o {
        Some(s) => s@,
        None => Seq::empty(),
    }
}

/// The manifest selects the user-scoped shared Dolt layout (`dolt_mode = "user-scoped"`).
pub open spec fn manifest_user_scoped(m: Option<ProjectManifest>) -> bool {
    match m {
        Some(mm) => match mm.dolt_mode {
            Some(d) => d@ == "user-scoped"@,
            None => false,
        },
        None => false,
    }
}

/// Whether the manifest selects the user-scoped shared Dolt layout.
pub fn user_scoped_dolt_from_manifest(m: &Option<ProjectManifest>) -> (r: bool)
    ensures
        r == manifest_user_scoped(*m),
{
    match m {
        Some(mm) => match &mm.dolt_mode {
            Some(d) => str_eq(d.as_str(), "user-scoped"),
            None => false,
        },
        None => false,
    }
}

/// The profile names the isolated `test` profile.
pub fn profile_allows_writes(raw: &str) -> (r: bool)
    ensures
        r == same_ignoring_ascii_case(trim_seq(raw@), "test"@),
{
    let t = string_from_chars(trim_chars(raw).as_slice());
    eq_ignore_ascii_case(t.as_str(), "test")
}

/// Why a profile does not allow writes.
pub open spec fn profile_cause_text(raw: Seq<char>) -> Seq<char> {
    if trim_seq(raw).len() == 0 {
        "unset — canonical/default session; not an isolated test world (need `COHERENCE_DB_PROFILE=test`)"@
    } else {
        debug_quoted(raw) + " — non-test profile (need `COHERENCE_DB_PROFILE=test`)"@
    }
}

/// Why a profile does not allow writes.
pub fn profile_cause_summary(raw: &str) -> (r: String)
    ensures
        r@ == profile_cause_text(raw@),
{
    if trim_chars(raw).len() == 0 {
        return owned("unset — canonical/default session; not an isolated test world (need `COHERENCE_DB_PROFILE=test`)");
    }
    let mut v: Vec<char> = Vec::new();
    append_str(&mut v, debug_quote(raw).as_str());
    append_str(&mut v, " — non-test profile (need `COHERENCE_DB_PROFILE=test`)");
    string_from_chars(v.as_slice())
}

/// The disposable database prefix: the variable, or `coherence_test_`.
pub open spec fn prefix_of(env: GuardEnv) -> Seq<char> {
    match env.test_db_prefix {
        Some(p) => p@,
        None => "coherence_test_"@,
    }
}

/// The disposable database prefix.
pub fn configured_test_db_prefix(env: &GuardEnv) -> (r: String)
    ensures
        r@ == prefix_of(*env),
{
    match &env.test_db_prefix {
        Some(p) => p.clone(),
        None => owned("coherence_test_"),
    }
}

/// The canonical slug, trimmed, when set and not blank.
pub open spec fn slug_of_env(env: GuardEnv) -> Option<Seq<char>> {
    let t = trim_seq(var_text(env.project_slug));
    if t.len() == 0 {
        None
    } else {
        Some(t)
    }
}

/// The canonical slug, trimmed, when set and not blank.
pub fn parse_project_slug_opt(env: &GuardEnv) -> (r: Option<String>)
    ensures
        match r {
            Some(s) => slug_of_env(*env) == Some(s@),
            None => slug_of_env(*env) is None,
        },
{
    let raw: &str = match &env.project_slug {
        Some(s) => s.as_str(),
        None => "",
    };
    proof {
        reveal_strlit("");
    }
    let t = trim_chars(raw);
    if t.len() == 0 {
        None
    } else {
        Some(string_from_chars(t.as_slice()))
    }
}

/// `raw[i..j]` is one comma-separated piece.
pub open spec fn is_piece(raw: Seq<char>, i: int, j: int) -> bool {
    &&& 0 <= i <= j <= raw.len()
    &&& (i == 0 || raw[i - 1] == ',')
    &&& (j == raw.len() || raw[j] == ',')
    &&& forall|k: int| i <= k < j ==> raw[k] != ','
}

/// Some non-blank entry of the comma-separated list equals `db` up to ASCII case (each
/// entry trimmed).
pub open spec fn listed(raw: Seq<char>, db: Seq<char>) -> bool {
    exists|i: int, j: int|
        #[trigger] is_piece(raw, i, j) && trim_seq(raw.subrange(i, j)).len() > 0
            && same_ignoring_ascii_case(db, trim_seq(raw.subrange(i, j)))
}

/// Whether `database` is in the allow-list.
pub fn database_is_explicitly_allowlisted(env: &GuardEnv, database: &str) -> (r: bool)
    ensures
        r == listed(var_text(env.allowlist), database@),
{
    let raw: &str = match &env.allowlist {
        Some(s) => s.as_str(),
        None => "",
    };
    proof {
        reveal_strlit("");
    }
    let chars = crate::text::chars_of(raw);
    let ghost rs = raw@;
    assert(rs == var_text(env.allowlist));
    let n = chars.len();
    let mut start: usize = 0;
    while start <= n
        invariant
            chars@ == rs,
            rs == var_text(env.allowlist),
            n == rs.len(),
            start <= n,
            start == 0 || rs[start - 1] == ',',
            forall|i: int, j: int| #[trigger] is_piece(rs, i, j) && i < start ==> !(trim_seq(rs.subrange(i, j)).len() > 0
                && same_ignoring_ascii_case(database@, trim_seq(rs.subrange(i, j)))),
        decreases n + 1 - start,
    {
        let mut end: usize = start;
        while end < n && chars[end] != ','
            invariant
                chars@ == rs,
                n == rs.len(),
                start <= end <= n,
                forall|k: int| start <= k < end ==> rs[k] != ',',
            decreases n - end,
        {
            end = end + 1;
        }
        let mut piece: Vec<char> = Vec::new();
        let mut k: usize = start;
        while k < end
            invariant
                chars@ == rs,
                n == rs.len(),
                start <= k <= end <= n,
                piece@ == rs.subrange(start as int, k as int),
            decreases end - k,
        {
            piece.push(chars[k]);
            assert(rs.subrange(start as int, k + 1) =~= rs.subrange(start as int, k as int).push(rs[k as int]));
            k = k + 1;
        }
        let ps = string_from_chars(piece.as_slice());
        let t = string_from_chars(trim_chars(ps.as_str()).as_slice());
        assert(is_piece(rs, start as int, end as int));
        if t.unicode_len() > 0 && eq_ignore_ascii_case(database, t.as_str()) {
            return true;
        }
        proof {
            assert forall|i: int, j: int| #[trigger] is_piece(rs, i, j) && i < end + 1 implies !(trim_seq(rs.subrange(i, j)).len() > 0
                && same_ignoring_ascii_case(database@, trim_seq(rs.subrange(i, j)))) by {
                if i >= start {
                    if i > start {
                        assert(rs[i - 1] != ',');
                    }
                    assert(i == start);
                    if j > end {
                        assert(rs[end as int] == ',');
                    } else if j < end {
                        assert(rs[j] != ',');
                    }
                    assert(j == end);
                }
            }
        }
        if end == n {
            return false;
        }
        assert(rs[end as int] == ',');
        start = end + 1;
    }
    false
}

/// Whether `database` starts with the disposable prefix.
pub fn database_has_disposable_prefix(env: &GuardEnv, database: &str) -> (r: bool)
    ensures
        r == has_prefix(database@, prefix_of(*env)),
{
    let prefix = configured_test_db_prefix(env);
    starts_with_str(database, prefix.as_str())
}

/// Refusal of the identity check when the database is the canonical slug.
pub open spec fn slug_match_message(slug: Seq<char>) -> Seq<char> {
    "resolved `DOLT_DB` matches canonical `COHERENCE_PROJECT_SLUG`="@ + debug_quoted(slug)
        + " (ASCII case-insensitive); refusing mutating workflows against curated catalog identity"@
}

/// Refusal of the identity check when nothing shows the database is disposable.
pub open spec fn not_disposable_message(database: Seq<char>, prefix: Seq<char>) -> Seq<char> {
    "resolved `DOLT_DB`="@ + debug_quoted(database) + " is not disposable (expected prefix "@
        + debug_quoted(prefix)
        + " via `COHERENCE_TEST_DB_PREFIX` or an entry in `COHERENCE_TEST_WORLD_DB_ALLOWLIST`), and `COHERENCE_PROJECT_SLUG` is unset — cannot prove a non-canonical disposable target"@
}

/// The identity check under the user-scoped layout: with a canonical slug, anything but
/// the slug; without, a disposable prefix or an allow-list entry.
pub open spec fn identity_spec(env: GuardEnv, database: Seq<char>, user_scoped: bool) -> Result<(), Seq<char>> {
    if !user_scoped {
        Ok(())
    } else {
        match slug_of_env(env) {
            Some(slug) => if same_ignoring_ascii_case(database, slug) {
                Err(slug_match_message(slug))
            } else {
                Ok(())
            },
            None => if has_prefix(database, prefix_of(env)) || listed(var_text(env.allowlist), database) {
                Ok(())
            } else {
                Err(not_disposable_message(database, prefix_of(env)))
            },
        }
    }
}

/// The identity check of the resolved database (see `identity_spec`).
pub fn resolved_database_identity_allows_writes(env: &GuardEnv, database: &str, user_scoped: bool) -> (r: Result<(), String>)
    ensures
        match identity_spec(*env, database@, user_scoped) {
            Ok(()) => r is Ok,
            Err(m) => r matches Err(e) && e@ == m,
        },
{
    if !user_scoped {
        return Ok(());
    }
    match parse_project_slug_opt(env) {
        Some(slug) => {
            if eq_ignore_ascii_case(database, slug.as_str()) {
                let mut v: Vec<char> = Vec::new();
                append_str(&mut v, "resolved `DOLT_DB` matches canonical `COHERENCE_PROJECT_SLUG`=");
                append_str(&mut v, debug_quote(slug.as_str()).as_str());
                append_str(&mut v, " (ASCII case-insensitive); refusing mutating workflows against curated catalog identity");
                return Err(string_from_chars(v.as_slice()));
            }
            Ok(())
        },
        None => {
            if database_has_disposable_prefix(env, database) {
                return Ok(());
            }
            if database_is_explicitly_allowlisted(env, database) {
                return Ok(());
            }
            let prefix = configured_test_db_prefix(env);
            let mut v: Vec<char> = Vec::new();
            append_str(&mut v, "resolved `DOLT_DB`=");
            append_str(&mut v, debug_quote(database).as_str());
            append_str(&mut v, " is not disposable (expected prefix ");
            append_str(&mut v, debug_quote(prefix.as_str()).as_str());
            append_str(&mut v, " via `COHERENCE_TEST_DB_PREFIX` or an entry in `COHERENCE_TEST_WORLD_DB_ALLOWLIST`), and `COHERENCE_PROJECT_SLUG` is unset — cannot prove a non-canonical disposable target");
            Err(string_from_chars(v.as_slice()))
        },
    }
}

/// The optional expected-database check.
pub open spec fn expectation_spec(env: GuardEnv, database: Seq<char>) -> Result<(), Seq<char>> {
    match env.expected_db {
        None => Ok(()),
        Some(raw) => {
            let expected = trim_seq(raw@);
            if expected.len() == 0 || same_ignoring_ascii_case(database, expected) {
                Ok(())
            } else {
                Err("`COHERENCE_TEST_WORLD` is set to "@ + debug_quoted(expected) + " but resolved `DOLT_DB`="@
                    + debug_quoted(database))
            }
        },
    }
}

/// When an expected database is named, the resolved one must match it (ASCII case aside).
pub fn check_test_world_expectation(env: &GuardEnv, database: &str) -> (r: Result<(), String>)
    ensures
        match expectation_spec(*env, database@) {
            Ok(()) => r is Ok,
            Err(m) => r matches Err(e) && e@ == m,
        },
{
    let raw = match &env.expected_db {
        None => {
            return Ok(());
        },
        Some(r) => r,
    };
    let expected = string_from_chars(trim_chars(raw.as_str()).as_slice());
    if expected.unicode_len() == 0 {
        return Ok(());
    }
    if eq_ignore_ascii_case(database, expected.as_str()) {
        return Ok(());
    }
    let mut v: Vec<char> = Vec::new();
    append_str(&mut v, "`COHERENCE_TEST_WORLD` is set to ");
    append_str(&mut v, debug_quote(expected.as_str()).as_str());
    append_str(&mut v, " but resolved `DOLT_DB`=");
    append_str(&mut v, debug_quote(database).as_str());
    Err(string_from_chars(v.as_slice()))
}

/// Refusal when the database is the manifest's dev-tier catalog.
pub open spec fn dev_catalog_message(context: Seq<char>, database: Seq<char>, dev: Seq<char>) -> Seq<char> {
    context
        + ": blocked: refusing database writes — isolated test profile must not target the manifest-bound **dev** catalog (ADR-0004).\n\nCause: resolved `DOLT_DB`="@
        + debug_quoted(database) + " matches dev-tier name "@ + debug_quoted(dev)
        + " derived from `COHERENCE_ENV=dev` rules; use the **test** tier or a disposable database.\n\n"@
        + STANDARD_REMEDIATION_TARGETS@
        + "\nFix: export `COHERENCE_ENV=test` (as in `scripts/with-isolated-test-profile`) and avoid overriding `DOLT_DB` with the dev catalog, or use a disposable `coherence_test_*` name / `COHERENCE_TEST_WORLD_DB_ALLOWLIST`."@
}

/// The dev-tier check of a manifest that binds a project hash.
pub open spec fn dev_catalog_spec(context: Seq<char>, database: Seq<char>, env: GuardEnv, m: Option<ProjectManifest>) -> Result<(), Seq<char>> {
    match m {
        None => Ok(()),
        Some(mm) => match mm.project_hash {
            None => Ok(()),
            Some(h) => {
                let hash = trim_seq(h@);
                let slug = trim_seq(mm.project_slug@);
                if hash.len() == 0 || slug.len() == 0 {
                    Ok(())
                } else if sanitized_segment(slug).len() == 0 {
                    Err(empty_slug_message())
                } else {
                    let dev = catalog_name_spec(slug, Some(hash), CoherenceEnv::Dev);
                    if !same_ignoring_ascii_case(database, dev) || listed(var_text(env.allowlist), database) {
                        Ok(())
                    } else {
                        Err(dev_catalog_message(context, database, dev))
                    }
                }
            },
        },
    }
}

/// Refuses the dev-tier catalog that a hash-binding manifest derives (unless allow-listed).
pub fn refuse_manifest_bound_dev_catalog_for_test_writes(
    context: &str,
    database: &str,
    env: &GuardEnv,
    manifest: &Option<ProjectManifest>,
) -> (r: Result<(), String>)
    ensures
        match dev_catalog_spec(context@, database@, *env, *manifest) {
            Ok(()) => r is Ok,
            Err(m) => r matches Err(e) && e@ == m,
        },
{
    let m = match manifest {
        None => {
            return Ok(());
        },
        Some(m) => m,
    };
    let hash_raw = match &m.project_hash {
        None => {
            return Ok(());
        },
        Some(h) => h,
    };
    let hash = string_from_chars(trim_chars(hash_raw.as_str()).as_slice());
    if hash.unicode_len() == 0 {
        return Ok(());
    }
    let slug = string_from_chars(trim_chars(m.project_slug.as_str()).as_slice());
    if slug.unicode_len() == 0 {
        return Ok(());
    }
    let dev_catalog = match effective_dolt_catalog_name(slug.as_str(), Some(hash.as_str()), CoherenceEnv::Dev) {
        Ok(n) => n,
        Err(e) => {
            return Err(e);
        },
    };
    if !eq_ignore_ascii_case(database, dev_catalog.as_str()) {
        return Ok(());
    }
    if database_is_explicitly_allowlisted(env, database) {
        return Ok(());
    }
    let mut v: Vec<char> = Vec::new();
    append_str(&mut v, context);
    append_str(&mut v, ": blocked: refusing database writes — isolated test profile must not target the manifest-bound **dev** catalog (ADR-0004).\n\nCause: resolved `DOLT_DB`=");
    append_str(&mut v, debug_quote(database).as_str());
    append_str(&mut v, " matches dev-tier name ");
    append_str(&mut v, debug_quote(dev_catalog.as_str()).as_str());
    append_str(&mut v, " derived from `COHERENCE_ENV=dev` rules; use the **test** tier or a disposable database.\n\n");
    append_str(&mut v, STANDARD_REMEDIATION_TARGETS);
    append_str(&mut v, "\nFix: export `COHERENCE_ENV=test` (as in `scripts/with-isolated-test-profile`) and avoid overriding `DOLT_DB` with the dev catalog, or use a disposable `coherence_test_*` name / `COHERENCE_TEST_WORLD_DB_ALLOWLIST`.");
    assert(v@ =~= dev_catalog_message(context@, database@, dev_catalog@));
    Err(string_from_chars(v.as_slice()))
}

/// Refusal for a session without the isolated profile.
pub open spec fn profile_message(context: Seq<char>, raw: Seq<char>) -> Seq<char> {
    context
        + ": blocked: refusing database writes for smoke/tests — isolated test-world profile required (ADR-0004).\n\nCause: `COHERENCE_DB_PROFILE` is "@
        + profile_cause_text(raw) + ".\n\n"@ + STANDARD_REMEDIATION_TARGETS@
        + "\nFix: `export COHERENCE_DB_PROFILE=test` and point `DOLT_DB` / `DOLT_SOCKET` (or TCP `DOLT_HOST`/`DOLT_PORT`) at a **disposable** Dolt database, not the curated canonical checkout catalog."@
}

/// Refusal wrapping a failed identity check.
pub open spec fn identity_message(context: Seq<char>, cause: Seq<char>, database: Seq<char>) -> Seq<char> {
    context
        + ": blocked: refusing database writes — resolved connection identity fails isolated test-world policy (ADR-0004).\n\nCause: "@
        + cause + "\nDatabase: "@ + debug_quoted(database) + "\n\n"@ + STANDARD_REMEDIATION_TARGETS@
        + "\nFix: export a disposable `COHERENCE_PROJECT_SLUG`-distinct database name (`DOLT_DB=coherence_test_<uuid>` is typical under user-scoped Dolt) or widen `COHERENCE_TEST_WORLD_DB_ALLOWLIST` deliberately; unset `COHERENCE_DB_PROFILE` is never sufficient alone."@
}

/// The whole policy, checks in order: profile, expected database, dev-tier catalog,
/// identity.
pub open spec fn guard_spec(context: Seq<char>, database: Seq<char>, env: GuardEnv, m: Option<ProjectManifest>) -> Result<(), Seq<char>> {
    let raw = var_text(env.profile);
    if !same_ignoring_ascii_case(trim_seq(raw), "test"@) {
        Err(profile_message(context, raw))
    } else {
        match expectation_spec(env, database) {
            Err(e) => Err(e),
            Ok(()) => match dev_catalog_spec(context, database, env, m) {
                Err(e) => Err(e),
                Ok(()) => match identity_spec(env, database, manifest_user_scoped(m)) {
                    Err(cause) => Err(identity_message(context, cause, database)),
                    Ok(()) => Ok(()),
                },
            },
        }
    }
}

/// `Ok` when this process may run mutating smoke or test workflows against `database`;
/// `context` names the caller in a refusal.
pub fn require_isolated_test_world_for_writes(
    context: &str,
    database: &str,
    env: &GuardEnv,
    manifest: &Option<ProjectManifest>,
) -> (r: Result<(), String>)
    ensures
        match guard_spec(context@, database@, *env, *manifest) {
            Ok(()) => r is Ok,
            Err(m) => r matches Err(e) && e@ == m,
        },
{
    let raw: &str = match &env.profile {
        Some(p) => p.as_str(),
        None => "",
    };
    proof {
        reveal_strlit("");
    }
    assert(raw@ == var_text(env.profile));
    if !profile_allows_writes(raw) {
        let cause = profile_cause_summary(raw);
        let mut v: Vec<char> = Vec::new();
        append_str(&mut v, context);
        append_str(&mut v, ": blocked: refusing database writes for smoke/tests — isolated test-world profile required (ADR-0004).\n\nCause: `COHERENCE_DB_PROFILE` is ");
        append_str(&mut v, cause.as_str());
        append_str(&mut v, ".\n\n");
        append_str(&mut v, STANDARD_REMEDIATION_TARGETS);
        append_str(&mut v, "\nFix: `export COHERENCE_DB_PROFILE=test` and point `DOLT_DB` / `DOLT_SOCKET` (or TCP `DOLT_HOST`/`DOLT_PORT`) at a **disposable** Dolt database, not the curated canonical checkout catalog.");
        assert(v@ =~= profile_message(context@, raw@));
        return Err(string_from_chars(v.as_slice()));
    }
    match check_test_world_expectation(env, database) {
        Err(e) => {
            return Err(e);
        },
        Ok(()) => {},
    }
    match refuse_manifest_bound_dev_catalog_for_test_writes(context, database, env, manifest) {
        Err(e) => {
            return Err(e);
        },
        Ok(()) => {},
    }
    let user_scoped = user_scoped_dolt_from_manifest(manifest);
    match resolved_database_identity_allows_writes(env, database, user_scoped) {
        Ok(()) => Ok(()),
        Err(cause) => {
            let mut v: Vec<char> = Vec::new();
            append_str(&mut v, context);
            append_str(&mut v, ": blocked: refusing database writes — resolved connection identity fails isolated test-world policy (ADR-0004).\n\nCause: ");
            append_str(&mut v, cause.as_str());
            append_str(&mut v, "\nDatabase: ");
            append_str(&mut v, debug_quote(database).as_str());
            append_str(&mut v, "\n\n");
            append_str(&mut v, STANDARD_REMEDIATION_TARGETS);
            append_str(&mut v, "\nFix: export a disposable `COHERENCE_PROJECT_SLUG`-distinct database name (`DOLT_DB=coherence_test_<uuid>` is typical under user-scoped Dolt) or widen `COHERENCE_TEST_WORLD_DB_ALLOWLIST` deliberately; unset `COHERENCE_DB_PROFILE` is never sufficient alone.");
            assert(v@ =~= identity_message(context@, cause@, database@));
            Err(string_from_chars(v.as_slice()))
        },
    }
}

/// What the guard's consent means: writes are allowed only under the isolated profile
/// (`COHERENCE_DB_PROFILE=test`, trimmed, ASCII case aside), against the expected database
/// when one is named, never against the dev-tier catalog that a hash-binding manifest
/// derives (unless allow-listed), and, under the user-scoped layout, never against the
/// canonical project slug and, without one, only against a disposable or allow-listed name.
pub proof fn lemma_guard_consent_means_isolated(
    context: Seq<char>,
    database: Seq<char>,
    env: GuardEnv,
    m: Option<ProjectManifest>,
)
    requires
        guard_spec(context, database, env, m) is Ok,
    ensures
        same_ignoring_ascii_case(trim_seq(var_text(env.profile)), "test"@),
        env.expected_db matches Some(e) ==> trim_seq(e@).len() == 0 || same_ignoring_ascii_case(
            database,
            trim_seq(e@),
        ),
        m matches Some(mm) ==> (mm.project_hash matches Some(h) ==> (trim_seq(h@).len() > 0 && trim_seq(
            mm.project_slug@,
        ).len() > 0 ==> {
            &&& sanitized_segment(trim_seq(mm.project_slug@)).len() > 0
            &&& (same_ignoring_ascii_case(
                database,
                catalog_name_spec(trim_seq(mm.project_slug@), Some(trim_seq(h@)), CoherenceEnv::Dev),
            ) ==> listed(var_text(env.allowlist), database))
        })),
        manifest_user_scoped(m) ==> match slug_of_env(env) {
            Some(slug) => !same_ignoring_ascii_case(database, slug),
            None => has_prefix(database, prefix_of(env)) || listed(var_text(env.allowlist), database),
        },
{
}

/// The expected-database check accepts the resolved database whenever `COHERENCE_TEST_WORLD`
/// is unset or blank, or names that database (trimmed, ASCII case aside); it refuses any
/// other database when a name is given.
pub proof fn lemma_expectation_accepts_named_database(env: GuardEnv, database: Seq<char>)
    ensures
        env.expected_db is None ==> expectation_spec(env, database) is Ok,
        env.expected_db matches Some(e) ==> (trim_seq(e@).len() == 0 ==> expectation_spec(env, database) is Ok),
        env.expected_db matches Some(e) ==> (same_ignoring_ascii_case(database, trim_seq(e@))
            ==> expectation_spec(env, database) is Ok),
        env.expected_db matches Some(e) ==> (trim_seq(e@).len() > 0 && !same_ignoring_ascii_case(
            database,
            trim_seq(e@),
        ) ==> expectation_spec(env, database) is Err),
{
}

/// Under the isolated profile, with no manifest, the guard lets writes through to exactly
/// the database that `COHERENCE_TEST_WORLD` names (trimmed, ASCII case aside).
pub proof fn lemma_guard_allows_expected_database(context: Seq<char>, database: Seq<char>, env: GuardEnv)
    requires
        same_ignoring_ascii_case(trim_seq(var_text(env.profile)), "test"@),
        env.expected_db matches Some(e) && trim_seq(e@).len() > 0 && same_ignoring_ascii_case(
            database,
            trim_seq(e@),
        ),
    ensures
        guard_spec(context, database, env, None) is Ok,
{
    lemma_expectation_accepts_named_database(env, database);
}

} // verus!
