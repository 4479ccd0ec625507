use dbbackup::credentials::{CredentialsSource, credentials_source, parse_port};
use dbbackup::mysql_config::MySQLConnectionConfig;

fn plain() -> MySQLConnectionConfig {
    MySQLConnectionConfig {
        host: None,
        port: None,
        username: None,
        password: None,
        socket: None,
        defaults_file: None,
        backup: None,
    }
}

fn entries(c: &MySQLConnectionConfig) -> Vec<(String, String)> {
    match credentials_source(c) {
        CredentialsSource::Entries(v) => v,
        CredentialsSource::CopyOf(f) => panic!("copy of {}", f),
    }
}

fn pairs(v: &[(&str, &str)]) -> Vec<(String, String)> {
    v.iter().map(|(k, x)| (k.to_string(), x.to_string())).collect()
}

#[test]
fn defaults_fill_missing_settings() {
    assert_eq!(entries(&plain()), pairs(&[("host", "localhost"), ("user", "root"), ("password", "")]));
}

#[test]
fn explicit_settings_are_written() {
    let mut c = plain();
    c.host = Some("db".to_string());
    c.port = Some(3306);
    c.username = Some("testuser".to_string());
    c.password = Some("testpass".to_string());
    c.socket = Some("/tmp/mysql.sock".to_string());
    assert_eq!(
        entries(&c),
        pairs(&[("host", "db"), ("port", "3306"), ("user", "testuser"), ("password", "testpass"), ("socket", "/tmp/mysql.sock")])
    );
}

#[test]
fn defaults_file_is_copied() {
    let mut c = plain();
    c.defaults_file = Some("/etc/my.cnf".to_string());
    match credentials_source(&c) {
        CredentialsSource::CopyOf(f) => assert_eq!(f, "/etc/my.cnf"),
        CredentialsSource::Entries(_) => panic!("expected a copy"),
    }
}

#[test]
fn port_numbers() {
    assert_eq!(parse_port("3306"), Some(3306));
    assert_eq!(parse_port("+80"), Some(80));
    assert_eq!(parse_port("0"), Some(0));
    assert_eq!(parse_port("007"), Some(7));
    assert_eq!(parse_port("65535"), Some(65535));
    assert_eq!(parse_port("65536"), None);
    assert_eq!(parse_port("9999999999999"), None);
    assert_eq!(parse_port("invalid"), None);
    assert_eq!(parse_port(""), None);
    assert_eq!(parse_port("+"), None);
    assert_eq!(parse_port("-1"), None);
    assert_eq!(parse_port("33 06"), None);
}
