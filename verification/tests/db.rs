use coherence_core_db::db::{
    ensure_database_statement, mysql_quote_identifier, parse_u16, smoke_spec,
    user_scoped_dolt_from_env, ConnEnv, ConnectionConfig, ConnectionMode,
};
use coherence_core_db::models::Spec;

#[test]
fn mysql_quote_identifier_escapes_backticks() {
    assert_eq!(mysql_quote_identifier("a"), "`a`");
    assert_eq!(mysql_quote_identifier("a`b"), "`a``b`");
}

fn empty_env() -> ConnEnv {
    ConnEnv {
        coherence_use_user_scoped_dolt: None,
        coherence_dolt_runtime_dir: None,
        xdg_runtime_dir: None,
        home: None,
        dolt_socket: None,
        dolt_host: None,
        dolt_port: None,
        coherence_dolt_tcp_port: None,
        dolt_user: None,
        dolt_password: None,
        dolt_db: None,
        cwd_name: None,
    }
}

#[test]
fn connection_defaults_repo_local() {
    let c = ConnectionConfig::from_env(&empty_env());
    assert_eq!(c.socket_path, ".dolt/dolt.sock");
    assert_eq!(c.host, "127.0.0.1");
    assert_eq!(c.port, 3306);
    assert_eq!(c.user, "root");
    assert_eq!(c.password, None);
    assert_eq!(c.database, "dolt");
}

#[test]
fn connection_user_scoped_defaults() {
    let mut e = empty_env();
    e.coherence_use_user_scoped_dolt = Some("yes".into());
    e.xdg_runtime_dir = Some("/run/user/1000".into());
    e.dolt_port = Some("notaport".into());
    e.cwd_name = Some("proj".into());
    let c = ConnectionConfig::from_env(&e);
    assert_eq!(c.socket_path, "/run/user/1000/coherence/dolt.sock");
    assert_eq!(c.port, 33306);
    assert_eq!(c.database, "proj");
    e.xdg_runtime_dir = None;
    e.home = Some("/home/me/".into());
    e.coherence_dolt_tcp_port = Some("+4000".into());
    let c = ConnectionConfig::from_env(&e);
    assert_eq!(c.socket_path, "/home/me/.cache/coherence/run/dolt.sock");
    assert_eq!(c.port, 4000);
}

#[test]
fn parse_u16_like_std() {
    for s in ["0", "65535", "+7", "007", "65536", "", "+", "-1", " 1", "12a"] {
        assert_eq!(parse_u16(s), s.parse::<u16>().ok(), "input {s:?}");
    }
    assert!(!user_scoped_dolt_from_env(Some("Yes")));
    assert!(user_scoped_dolt_from_env(Some("TRUE")));
    assert!(!user_scoped_dolt_from_env(None));
}

#[test]
fn ensure_database_statement_cases() {
    let mut c = ConnectionConfig::from_env(&empty_env());
    assert_eq!(ensure_database_statement(false, &c).unwrap(), None);
    assert_eq!(
        ensure_database_statement(true, &c).unwrap(),
        Some("CREATE DATABASE IF NOT EXISTS `dolt`".to_string())
    );
    c.database = String::new();
    assert_eq!(
        ensure_database_statement(true, &c).unwrap_err(),
        "DOLT_DB is empty; cannot ensure database"
    );
    assert_eq!(ConnectionMode::TcpFallback.as_str(), "tcp_fallback");
}

#[test]
fn smoke_spec_fills_empty_fields() {
    let mut s = Spec::new("SPEC-X", "t");
    s.slug = String::new();
    let n = smoke_spec(&s);
    assert_eq!(n.slug, "spec-x");
    assert_eq!(n.description, "m0-smoke spec");
    assert_eq!(n.created_at, "m0");
}
