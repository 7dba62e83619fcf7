//! Connection settings for the Dolt SQL server, identifier quoting, and the defaults the
//! smoke commands fill into rows. Connecting and querying are done by the caller.
use vstd::prelude::*;

use crate::models::{AcceptanceCriterion, Spec, slug_of, slug_from_id};
use crate::text::{append_str, ascii_lowercase, join_path, join_path_spec, owned, str_eq, string_from_chars, to_ascii_lowercase};

verus! {

/// How the connection was made.
#[derive(Debug, Clone, Copy, PartialEq, Eq, Structural)]
pub enum ConnectionMode {
    Socket,
    TcpFallback,
}

impl ConnectionMode {
    /// The display text of the mode.
    pub open spec fn text(self) -> Seq<char> {
        match self {
            ConnectionMode::Socket => "socket"@,
            ConnectionMode::TcpFallback => "tcp_fallback"@,
        }
    }

    /// `socket` or `tcp_fallback`.
    pub fn as_str(&self) -> (r: &'static str)
        ensures
            r@ == self.text(),
    {
        match self {
            ConnectionMode::Socket => "socket",
            ConnectionMode::TcpFallback => "tcp_fallback",
        }
    }
}

/// Where and as whom to connect.
#[derive(Debug)]
pub struct ConnectionConfig {
    pub socket_path: String,
    pub host: String,
    pub port: u16,
    pub user: String,
    pub password: Option<String>,
    pub database: String,
}

/// The environment variables the connection settings read, each absent when unset (or not
/// Unicode), and the name of the current directory.
#[derive(Debug)]
pub struct ConnEnv {
    pub coherence_use_user_scoped_dolt: Option<String>,
    pub coherence_dolt_runtime_dir: Option<String>,
    pub xdg_runtime_dir: Option<String>,
    pub home: Option<String>,
    pub dolt_socket: Option<String>,
    pub dolt_host: Option<String>,
    pub dolt_port: Option<String>,
    pub coherence_dolt_tcp_port: Option<String>,
    pub dolt_user: Option<String>,
    pub dolt_password: Option<String>,
    pub dolt_db: Option<String>,
    /// Last component of the current directory, when it has one.
    pub cwd_name: Option<String>,
}

/// Port of the user-scoped server's internal TCP listener.
pub const USER_SCOPED_INTERNAL_TCP_PORT: u16 = 33306;

/// The opt-in values of `COHERENCE_USE_USER_SCOPED_DOLT`.
pub open spec fn opts_in(v: Option<Seq<char>>) -> bool {
    match v {
        Some(s) => s == "1"@ || s == "true"@ || s == "TRUE"@ || s == "yes"@ || s == "YES"@,
        None => false,
    }
}

/// View of an optional string.
pub open spec fn opt_view(o: Option<String>) -> Option<Seq<char>> {
    match o {
        Some(s) => Some(s@),
        None => None,
    }
}

/// Whether the user-scoped server is opted into, given the variable's value.
pub fn user_scoped_dolt_from_env(value: Option<&str>) -> (r: bool)
    ensures
        r == opts_in(match value {
            Some(s) => Some(s@),
            None => None,
        }),
{
    match value {
        Some(s) => str_eq(s, "1") || str_eq(s, "true") || str_eq(s, "TRUE") || str_eq(s, "yes")
            || str_eq(s, "YES"),
        None => false,
    }
}

/// The runtime directory of the user-scoped server.
pub open spec fn runtime_dir_spec(env: ConnEnv) -> Seq<char> {
    match env.coherence_dolt_runtime_dir {
        Some(d) => d@,
        None => match env.xdg_runtime_dir {
            Some(r) => join_path_spec(r@, "coherence"@),
            None => join_path_spec(
                match env.home {
                    Some(h) => h@,
                    None => "/"@,
                },
                ".cache/coherence/run"@,
            ),
        },
    }
}

fn runtime_coherence_dir(env: &ConnEnv) -> (r: String)
    ensures
        r@ == runtime_dir_spec(*env),
{
    match &env.coherence_dolt_runtime_dir {
        Some(d) => d.clone(),
        None => match &env.xdg_runtime_dir {
            Some(r) => join_path(r.as_str(), "coherence"),
            None => match &env.home {
                Some(h) => join_path(h.as_str(), ".cache/coherence/run"),
                None => join_path("/", ".cache/coherence/run"),
            },
        },
    }
}

/// `dolt.sock` in the runtime directory.
pub fn user_scoped_socket_default_path(env: &ConnEnv) -> (r: String)
    ensures
        r@ == join_path_spec(runtime_dir_spec(*env), "dolt.sock"@),
{
    let dir = runtime_coherence_dir(env);
    join_path(dir.as_str(), "dolt.sock")
}

/// Numeric value of a string of decimal digits.
pub open spec fn digits_value(s: Seq<char>) -> int
    decreases s.len(),
{
    if s.len() == 0 {
        0
    } else {
        digits_value(s.drop_last()) * 10 + (s.last() as int - '0' as int)
    }
}

/// Every character is a decimal digit.
pub open spec fn all_digits(s: Seq<char>) -> bool {
    forall|i: int| 0 <= i < s.len() ==> '0' <= #[trigger] s[i] && s[i] <= '9'
}

/// `str::parse::<u16>`: an optional `+`, then at least one digit, the value at most 65535.
pub open spec fn parse_u16_spec(s: Seq<char>) -> Option<u16> {
    let body = if s.len() > 0 && s[0] == '+' {
        s.drop_first()
    } else {
        s
    };
    if body.len() > 0 && all_digits(body) && digits_value(body) <= 65535 {
        Some(digits_value(body) as u16)
    } else {
        None
    }
}

proof fn lemma_digits_value_nonneg(s: Seq<char>)
    requires
        all_digits(s),
    ensures
        digits_value(s) >= 0,
    decreases s.len(),
{
    if s.len() > 0 {
        assert(all_digits(s.drop_last())) by {
            assert forall|i: int| 0 <= i < s.drop_last().len() implies '0' <= #[trigger] s.drop_last()[i]
                && s.drop_last()[i] <= '9' by {
                assert(s.drop_last()[i] == s[i]);
            }
        }
        lemma_digits_value_nonneg(s.drop_last());
    }
}

/// Parses a port number as `str::parse::<u16>` does.
pub fn parse_u16(s: &str) -> (r: Option<u16>)
    ensures
        r == parse_u16_spec(s@),
{
    let n = s.unicode_len();
    let start: usize = if n > 0 && s.get_char(0) == '+' {
        1
    } else {
        0
    };
    let ghost body = if s@.len() > 0 && s@[0] == '+' {
        s@.drop_first()
    } else {
        s@
    };
    assert(body =~= s@.subrange(start as int, n as int));
    if start >= n {
        return None;
    }
    let mut val: u32 = 0;
    let mut i: usize = start;
    while i < n
        invariant
            n == s@.len(),
            start <= i <= n,
            body == s@.subrange(start as int, n as int),
            body == (if s@.len() > 0 && s@[0] == '+' {
                s@.drop_first()
            } else {
                s@
            }),
            all_digits(s@.subrange(start as int, i as int)),
            val as int == digits_value(s@.subrange(start as int, i as int)),
            val <= 65535,
        decreases n - i,
    {
        let c = s.get_char(i);
        let ghost pre = s@.subrange(start as int, i as int);
        assert(s@.subrange(start as int, i + 1) =~= pre.push(c));
        if c < '0' || c > '9' {
            assert(!all_digits(body)) by {
                assert(body[i - start] == s@[i as int]);
            }
            return None;
        }
        let d: u32 = (c as u32) - ('0' as u32);
        if val > 6553 || (val == 6553 && d > 5) {
            proof {
                assert(all_digits(pre.push(c))) by {
                    assert forall|k: int| 0 <= k < pre.push(c).len() implies '0' <= #[trigger] pre.push(c)[k]
                        && pre.push(c)[k] <= '9' by {
                        if k < pre.len() {
                            assert(pre.push(c)[k] == pre[k]);
                        }
                    }
                }
                assert(pre.push(c).drop_last() =~= pre);
                assert(digits_value(pre.push(c)) > 65535);
                assert(body.subrange(0, i + 1 - start) =~= pre.push(c));
                if all_digits(body) {
                    lemma_digits_prefix_bound(body, i + 1 - start);
                }
            }
            return None;
        }
        val = val * 10 + d;
        assert(pre.push(c).drop_last() =~= pre);
        assert(all_digits(s@.subrange(start as int, i + 1))) by {
            let t = s@.subrange(start as int, i + 1);
            assert forall|k: int| 0 <= k < t.len() implies '0' <= #[trigger] t[k] && t[k] <= '9' by {
                if k < pre.len() {
                    assert(t[k] == pre[k]);
                }
            }
        }
        i = i + 1;
    }
    Some(val as u16)
}

proof fn lemma_digits_prefix_bound(s: Seq<char>, k: int)
    requires
        0 <= k <= s.len(),
        all_digits(s),
    ensures
        digits_value(s) >= digits_value(s.subrange(0, k)),
    decreases s.len() - k,
{
    if k < s.len() {
        lemma_digits_prefix_bound(s, k + 1);
        assert(s.subrange(0, k + 1).drop_last() =~= s.subrange(0, k));
        assert(all_digits(s.subrange(0, k))) by {
            assert forall|i: int| 0 <= i < s.subrange(0, k).len() implies '0' <= #[trigger] s.subrange(0, k)[i]
                && s.subrange(0, k)[i] <= '9' by {
                assert(s.subrange(0, k)[i] == s[i]);
            }
        }
        lemma_digits_value_nonneg(s.subrange(0, k));
        assert(s.subrange(0, k + 1)[k] == s[k]);
    } else {
        assert(s.subrange(0, k) =~= s);
    }
}

/// The parsed value of an optional variable.
pub open spec fn parsed_port(v: Option<String>) -> Option<u16> {
    match v {
        Some(s) => parse_u16_spec(s@),
        None => None,
    }
}

/// The settings the environment gives.
pub open spec fn config_of(env: ConnEnv) -> (Seq<char>, Seq<char>, u16, Seq<char>, Option<Seq<char>>, Seq<char>) {
    let user_scoped = opts_in(opt_view(env.coherence_use_user_scoped_dolt));
    let socket = match env.dolt_socket {
        Some(s) => s@,
        None => if user_scoped {
            join_path_spec(runtime_dir_spec(env), "dolt.sock"@)
        } else {
            ".dolt/dolt.sock"@
        },
    };
    let host = match env.dolt_host {
        Some(h) => h@,
        None => "127.0.0.1"@,
    };
    let port = match parsed_port(env.dolt_port) {
        Some(p) => p,
        None => if user_scoped {
            match parsed_port(env.coherence_dolt_tcp_port) {
                Some(p) => p,
                None => USER_SCOPED_INTERNAL_TCP_PORT,
            }
        } else {
            3306u16
        },
    };
    let user = match env.dolt_user {
        Some(u) => u@,
        None => "root"@,
    };
    let database = match env.dolt_db {
        Some(d) => d@,
        None => match env.cwd_name {
            Some(n) => n@,
            None => "dolt"@,
        },
    };
    (socket, host, port, user, opt_view(env.dolt_password), database)
}

fn text_or(v: &Option<String>, fallback: &str) -> (r: String)
    ensures
        r@ == match *v {
            Some(s) => s@,
            None => fallback@,
        },
{
    match v {
        Some(s) => s.clone(),
        None => owned(fallback),
    }
}

fn port_of(v: &Option<String>) -> (r: Option<u16>)
    ensures
        r == parsed_port(*v),
{
    match v {
        Some(s) => parse_u16(s.as_str()),
        None => None,
    }
}

impl ConnectionConfig {
    /// The settings from the environment: explicit `DOLT_*` variables first, then the
    /// user-scoped server's defaults when opted into, else the repo-local ones.
    pub fn from_env(env: &ConnEnv) -> (r: Self)
        ensures
            (r.socket_path@, r.host@, r.port, r.user@, opt_view(r.password), r.database@) == config_of(*env),
    {
        let user_scoped = user_scoped_dolt_from_env(
            match &env.coherence_use_user_scoped_dolt {
                Some(s) => Some(s.as_str()),
                None => None,
            },
        );
        let socket_path = match &env.dolt_socket {
            Some(s) => s.clone(),
            None => if user_scoped {
                user_scoped_socket_default_path(env)
            } else {
                owned(".dolt/dolt.sock")
            },
        };
        let host = text_or(&env.dolt_host, "127.0.0.1");
        let port = match port_of(&env.dolt_port) {
            Some(p) => p,
            None => if user_scoped {
                match port_of(&env.coherence_dolt_tcp_port) {
                    Some(p) => p,
                    None => USER_SCOPED_INTERNAL_TCP_PORT,
                }
            } else {
                3306
            },
        };
        let user = text_or(&env.dolt_user, "root");
        let password = match &env.dolt_password {
            Some(p) => Some(p.clone()),
            None => None,
        };
        let database = match &env.dolt_db {
            Some(d) => d.clone(),
            None => text_or(&env.cwd_name, "dolt"),
        };
        ConnectionConfig { socket_path, host, port, user, password, database }
    }
}

/// The settings for listing the server's databases: the socket from `DOLT_SOCKET` or the
/// user-scoped default, host, user, password and port (3306 unless `DOLT_PORT` parses) from
/// their variables, and no database.
pub open spec fn list_config_of(env: ConnEnv) -> (Seq<char>, Seq<char>, u16, Seq<char>, Option<Seq<char>>, Seq<char>) {
    (
        match env.dolt_socket {
            Some(s) => s@,
            None => join_path_spec(runtime_dir_spec(env), "dolt.sock"@),
        },
        match env.dolt_host {
            Some(h) => h@,
            None => "127.0.0.1"@,
        },
        match parsed_port(env.dolt_port) {
            Some(p) => p,
            None => 3306u16,
        },
        match env.dolt_user {
            Some(u) => u@,
            None => "root"@,
        },
        opt_view(env.dolt_password),
        Seq::empty(),
    )
}

/// The settings for listing the server's databases (see `list_config_of`).
pub fn list_databases_config(env: &ConnEnv) -> (r: ConnectionConfig)
    ensures
        (r.socket_path@, r.host@, r.port, r.user@, opt_view(r.password), r.database@) == list_config_of(*env),
{
    let socket_path = match &env.dolt_socket {
        Some(s) => s.clone(),
        None => user_scoped_socket_default_path(env),
    };
    let port = match port_of(&env.dolt_port) {
        Some(p) => p,
        None => 3306,
    };
    let password = match &env.dolt_password {
        Some(p) => Some(p.clone()),
        None => None,
    };
    ConnectionConfig {
        socket_path,
        host: text_or(&env.dolt_host, "127.0.0.1"),
        port,
        user: text_or(&env.dolt_user, "root"),
        password,
        database: String::new(),
    }
}

/// Escaped body of an identifier: each backtick doubled.
pub open spec fn escaped_body(name: Seq<char>) -> Seq<char>
    decreases name.len(),
{
    if name.len() == 0 {
        Seq::empty()
    } else {
        escaped_body(name.drop_last()) + if name.last() == '`' {
            seq!['`', '`']
        } else {
            seq![name.last()]
        }
    }
}

/// `` `name` `` with each backtick in `name` doubled.
pub fn mysql_quote_identifier(name: &str) -> (r: String)
    ensures
        r@ == seq!['`'] + escaped_body(name@) + seq!['`'],
{
    let n = name.unicode_len();
    let mut body: Vec<char> = Vec::new();
    let mut i: usize = 0;
    while i < n
        invariant
            n == name@.len(),
            i <= n,
            body@ == escaped_body(name@.subrange(0, i as int)),
        decreases n - i,
    {
        let c = name.get_char(i);
        assert(name@.subrange(0, i + 1).drop_last() =~= name@.subrange(0, i as int));
        if c == '`' {
            body.push('`');
            body.push('`');
        } else {
            body.push(c);
        }
        assert(body@ =~= escaped_body(name@.subrange(0, i + 1)));
        i = i + 1;
    }
    assert(name@.subrange(0, n as int) =~= name@);
    let mut out: Vec<char> = Vec::new();
    out.push('`');
    let mut j: usize = 0;
    while j < body.len()
        invariant
            j <= body@.len(),
            out@ == seq!['`'] + body@.subrange(0, j as int),
        decreases body@.len() - j,
    {
        out.push(body[j]);
        assert(body@.subrange(0, j + 1) =~= body@.subrange(0, j as int).push(body@[j as int]));
        j = j + 1;
    }
    out.push('`');
    assert(body@.subrange(0, body@.len() as int) =~= body@);
    assert(out@ =~= seq!['`'] + body@ + seq!['`']);
    string_from_chars(out.as_slice())
}

/// The statement that creates the configured database when the user-scoped server is in
/// use: `None` when it is not; an error when no database is named.
pub fn ensure_database_statement(user_scoped: bool, config: &ConnectionConfig) -> (r: Result<Option<String>, String>)
    ensures
        !user_scoped ==> r == Ok::<Option<String>, String>(None),
        user_scoped && config.database@.len() == 0 ==> (r matches Err(e) && e@
            == "DOLT_DB is empty; cannot ensure database"@),
        user_scoped && config.database@.len() > 0 ==> (r matches Ok(Some(s)) && s@
            == "CREATE DATABASE IF NOT EXISTS "@ + seq!['`'] + escaped_body(config.database@) + seq!['`']),
{
    if !user_scoped {
        return Ok(None);
    }
    if config.database.unicode_len() == 0 {
        return Err(owned("DOLT_DB is empty; cannot ensure database"));
    }
    let ident = mysql_quote_identifier(config.database.as_str());
    let mut out: Vec<char> = Vec::new();
    append_str(&mut out, "CREATE DATABASE IF NOT EXISTS ");
    append_str(&mut out, ident.as_str());
    Ok(Some(string_from_chars(out.as_slice())))
}

/// A smoke spec with its empty fields filled: slug from the lowercased id, a placeholder
/// description, and `m0` timestamps.
pub fn smoke_spec(spec: &Spec) -> (r: Spec)
    ensures
        r.id == spec.id,
        r.title == spec.title,
        r.level == spec.level,
        r.status == spec.status,
        r.slug@ == if spec.slug@.len() == 0 {
            ascii_lowercase(spec.id@)
        } else {
            spec.slug@
        },
        r.description@ == if spec.description@.len() == 0 {
            "m0-smoke spec"@
        } else {
            spec.description@
        },
        r.created_at@ == if spec.created_at@.len() == 0 {
            "m0"@
        } else {
            spec.created_at@
        },
        r.updated_at@ == if spec.updated_at@.len() == 0 {
            "m0"@
        } else {
            spec.updated_at@
        },
{
    let mut n = spec.clone();
    if n.slug.unicode_len() == 0 {
        n.slug = to_ascii_lowercase(n.id.as_str());
    }
    if n.description.unicode_len() == 0 {
        n.description = owned("m0-smoke spec");
    }
    if n.created_at.unicode_len() == 0 {
        n.created_at = owned("m0");
    }
    if n.updated_at.unicode_len() == 0 {
        n.updated_at = owned("m0");
    }
    n
}

/// A smoke criterion with its empty fields filled: slug from the id, a placeholder intent,
/// and `m0` timestamps.
pub fn smoke_acceptance_criterion(ac: &AcceptanceCriterion) -> (r: AcceptanceCriterion)
    ensures
        r.id == ac.id,
        r.spec_id == ac.spec_id,
        r.title == ac.title,
        r.review_mode == ac.review_mode,
        r.risk_level == ac.risk_level,
        r.concerns@ == ac.concerns@,
        r.slug@ == if ac.slug@.len() == 0 {
            slug_of(ac.id@)
        } else {
            ac.slug@
        },
        r.intent@ == if ac.intent@.len() == 0 {
            "m0-smoke intent"@
        } else {
            ac.intent@
        },
        r.created_at@ == if ac.created_at@.len() == 0 {
            "m0"@
        } else {
            ac.created_at@
        },
        r.updated_at@ == if ac.updated_at@.len() == 0 {
            "m0"@
        } else {
            ac.updated_at@
        },
{
    let mut n = ac.clone();
    if n.slug.unicode_len() == 0 {
        n.slug = slug_from_id(n.id.as_str());
    }
    if n.intent.unicode_len() == 0 {
        n.intent = owned("m0-smoke intent");
    }
    if n.created_at.unicode_len() == 0 {
        n.created_at = owned("m0");
    }
    if n.updated_at.unicode_len() == 0 {
        n.updated_at = owned("m0");
    }
    n
}

} // verus!
