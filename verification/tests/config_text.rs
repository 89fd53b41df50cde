use starter_api::config::{Config, EnvVars};
use starter_api::migrations::migration_statements;
use starter_api::text::{format_i64, format_u64, parse_i64, parse_u16, matches_ignore_ascii_case};

fn no_vars() -> EnvVars {
    EnvVars {
        app_url: None,
        app_port: None,
        db_driver: None,
        db_host: None,
        db_port: None,
        db_user: None,
        db_pass: None,
        db_name: None,
        jwt_secret: None,
        jwt_access_expire: None,
        jwt_refresh_expire: None,
        email_verification_required: None,
        mail_host: None,
        mail_port: None,
        mail_user: None,
        mail_pass: None,
        mail_from: None,
        mail_from_name: None,
        google_client_id: None,
        facebook_client_id: None,
        storage_path: None,
    }
}

#[test]
fn config_defaults() {
    let c = Config::from_env(&no_vars());
    assert_eq!(c.app_url, "http://localhost:8000");
    assert_eq!(c.app_port, 8000);
    assert_eq!(c.db_driver, "mysql");
    assert_eq!(c.db_host, "127.0.0.1");
    assert_eq!(c.db_port, 3306);
    assert_eq!(c.db_user, "root");
    assert_eq!(c.db_pass, "");
    assert_eq!(c.db_name, "starter_api");
    assert_eq!(c.jwt_secret, "secret");
    assert_eq!(c.jwt_access_expire, 15);
    assert_eq!(c.jwt_refresh_expire, 10080);
    assert!(!c.email_verification_required);
    assert_eq!(c.mail_host, "");
    assert_eq!(c.mail_port, 587);
    assert_eq!(c.mail_from, "no-reply@example.com");
    assert_eq!(c.mail_from_name, "StarterAPI");
    assert_eq!(c.storage_path, "./storage/photos");
}

#[test]
fn config_reads_values() {
    let mut v = no_vars();
    v.app_port = Some("9000".to_string());
    v.db_port = Some("not a port".to_string());
    v.jwt_access_expire = Some("-30".to_string());
    v.email_verification_required = Some("TrUe".to_string());
    v.mail_port = Some("70000".to_string());
    v.db_driver = Some("postgres".to_string());
    let c = Config::from_env(&v);
    assert_eq!(c.app_port, 9000);
    assert_eq!(c.db_port, 3306);
    assert_eq!(c.jwt_access_expire, -30);
    assert!(c.email_verification_required);
    assert_eq!(c.mail_port, 587);
    assert_eq!(c.db_driver, "postgres");
}

#[test]
fn verification_flag_needs_the_word_true() {
    let mut v = no_vars();
    v.email_verification_required = Some("yes".to_string());
    assert!(!Config::from_env(&v).email_verification_required);
    v.email_verification_required = Some("true ".to_string());
    assert!(!Config::from_env(&v).email_verification_required);
    v.email_verification_required = Some("TRUE".to_string());
    assert!(Config::from_env(&v).email_verification_required);
}

fn with_driver(driver: &str) -> Config {
    let mut v = no_vars();
    v.db_driver = Some(driver.to_string());
    v.db_user = Some("u".to_string());
    v.db_pass = Some("p".to_string());
    v.db_host = Some("db".to_string());
    v.db_port = Some("5432".to_string());
    v.db_name = Some("app".to_string());
    Config::from_env(&v)
}

#[test]
fn database_url_per_driver() {
    assert_eq!(with_driver("postgres").database_url(), "postgres://u:p@db:5432/app");
    assert_eq!(with_driver("postgresql").database_url(), "postgres://u:p@db:5432/app");
    assert_eq!(with_driver("sqlite").database_url(), "sqlite://app.db");
    assert_eq!(with_driver("mysql").database_url(), "mysql://u:p@db:5432/app");
    assert_eq!(with_driver("oracle").database_url(), "mysql://u:p@db:5432/app");
    assert_eq!(Config::from_env(&no_vars()).database_url(), "mysql://root:@127.0.0.1:3306/starter_api");
}

#[test]
fn parse_u16_follows_std() {
    for s in ["0", "8000", "+8000", "65535", "65536", "", "+", "-", "-0", "12a", " 1", "007", "99999999999999999999"] {
        assert_eq!(parse_u16(s), s.parse::<u16>().ok(), "input {:?}", s);
    }
}

#[test]
fn parse_i64_follows_std() {
    for s in ["0", "-0", "+15", "10080", "-9223372036854775808", "9223372036854775807",
              "9223372036854775808", "-9223372036854775809", "", "-", "+", "--1", "1.5", "1e3"] {
        assert_eq!(parse_i64(s), s.parse::<i64>().ok(), "input {:?}", s);
    }
}

#[test]
fn decimal_formatting() {
    let s: String = format_i64(i64::MIN).into_iter().collect();
    assert_eq!(s, "-9223372036854775808");
    let s: String = format_i64(0).into_iter().collect();
    assert_eq!(s, "0");
    let s: String = format_u64(u64::MAX).into_iter().collect();
    assert_eq!(s, "18446744073709551615");
    for x in [-1i64, 7, 10, 12345, i64::MAX] {
        let s: String = format_i64(x).into_iter().collect();
        assert_eq!(s, x.to_string());
        assert_eq!(parse_i64(&s), Some(x));
    }
}

#[test]
fn ascii_case_comparison() {
    assert!(matches_ignore_ascii_case("True", "true"));
    assert!(!matches_ignore_ascii_case("tru", "true"));
}

#[test]
fn migration_script_split() {
    let sql = "CREATE TABLE a (x INT);\n\n  CREATE TABLE b (y INT) ;\n;  ;\nINSERT INTO a VALUES (1)";
    let stmts = migration_statements(sql);
    assert_eq!(stmts, vec!["CREATE TABLE a (x INT)", "CREATE TABLE b (y INT)", "INSERT INTO a VALUES (1)"]);
    let expected: Vec<&str> = sql.split(';').map(|s| s.trim()).filter(|s| !s.is_empty()).collect();
    assert_eq!(stmts, expected);
    assert!(migration_statements("").is_empty());
    assert!(migration_statements(" ;\t;\n").is_empty());
}

#[test]
fn migration_split_trims_unicode_white_space() {
    let mut all = String::new();
    for c in (0u32..0x3100).filter_map(char::from_u32) {
        if c != ';' {
            all.push(c);
        }
    }
    for c in (0u32..0x3100).filter_map(char::from_u32) {
        let sql = format!("{c}x{c};{c}");
        let expected: Vec<&str> = sql.split(';').map(|s| s.trim()).filter(|s| !s.is_empty()).collect();
        assert_eq!(migration_statements(&sql), expected, "character {:?}", c);
    }
    assert_eq!(migration_statements(&all).len(), 1);
}
