//! Application settings and the connection string they describe.
use vstd::prelude::*;
use crate::text::{
    chars_of, decimal, eq_ignore_ascii_case, format_u64, matches_ignore_ascii_case, owned,
    parse_i64, parse_i64_spec, parse_u16, parse_u16_spec, push_all, push_str, str_eq,
    string_from_chars,
};

verus! {

/// Application settings.
#[derive(Clone)]
pub struct Config {
    pub app_url: String,
    pub app_port: u16,
    pub db_driver: String,
    pub db_host: String,
    pub db_port: u16,
    pub db_user: String,
    pub db_pass: String,
    pub db_name: String,
    pub jwt_secret: String,
    pub jwt_access_expire: i64,
    pub jwt_refresh_expire: i64,
    pub email_verification_required: bool,
    pub mail_host: String,
    pub mail_port: u16,
    pub mail_user: String,
    pub mail_pass: String,
    pub mail_from: String,
    pub mail_from_name: String,
    pub google_client_id: String,
    pub facebook_client_id: String,
    pub storage_path: String,
}

/// The raw settings as found in the environment: one entry per variable,
/// `None` where the variable is unset.
#[derive(Clone)]
pub struct EnvVars {
    pub app_url: Option<String>,
    pub app_port: Option<String>,
    pub db_driver: Option<String>,
    pub db_host: Option<String>,
    pub db_port: Option<String>,
    pub db_user: Option<String>,
    pub db_pass: Option<String>,
    pub db_name: Option<String>,
    pub jwt_secret: Option<String>,
    pub jwt_access_expire: Option<String>,
    pub jwt_refresh_expire: Option<String>,
    pub email_verification_required: Option<String>,
    pub mail_host: Option<String>,
    pub mail_port: Option<String>,
    pub mail_user: Option<String>,
    pub mail_pass: Option<String>,
    pub mail_from: Option<String>,
    pub mail_from_name: Option<String>,
    pub google_client_id: Option<String>,
    pub facebook_client_id: Option<String>,
    pub storage_path: Option<String>,
}

/// The variable's text, or `default` when it is unset.
pub open spec fn text_or(v: Option<String>, default: Seq<char>) -> Seq<char> {
    match v {
        Some(s) => s@,
        None => default,
    }
}

/// The variable read as a port number, or `default` when it is unset or not a valid `u16`.
pub open spec fn port_or(v: Option<String>, default: u16) -> u16 {
    match v {
        Some(s) => match parse_u16_spec(s@) {
            Some(p) => p,
            None => default,
        },
        None => default,
    }
}

/// The variable read as an `i64`, or `default` when it is unset or not a valid `i64`.
pub open spec fn number_or(v: Option<String>, default: i64) -> i64 {
    match v {
        Some(s) => match parse_i64_spec(s@) {
            Some(p) => p,
            None => default,
        },
        None => default,
    }
}

/// The variable read as a flag: set, and equal to `true` in any letter case.
pub open spec fn flag(v: Option<String>) -> bool {
    match v {
        Some(s) => eq_ignore_ascii_case(s@, "true"@),
        None => false,
    }
}

fn text_or_default(v: &Option<String>, default: &str) -> (res: String)
    ensures
        res@ == text_or(*v, default@),
{
    match v {
        Some(s) => s.clone(),
        None => owned(default),
    }
}

fn port_or_default(v: &Option<String>, default: u16) -> (res: u16)
    ensures
        res == port_or(*v, default),
{
    match v {
        Some(s) => match parse_u16(s.as_str()) {
            Some(p) => p,
            None => default,
        },
        None => default,
    }
}

fn number_or_default(v: &Option<String>, default: i64) -> (res: i64)
    ensures
        res == number_or(*v, default),
{
    match v {
        Some(s) => match parse_i64(s.as_str()) {
            Some(p) => p,
            None => default,
        },
        None => default,
    }
}

fn flag_of(v: &Option<String>) -> (res: bool)
    ensures
        res == flag(*v),
{
    match v {
        Some(s) => matches_ignore_ascii_case(s.as_str(), "true"),
        None => false,
    }
}

/// The connection string for the configured database: PostgreSQL for the
/// drivers `postgres` and `postgresql`, SQLite for `sqlite`, MySQL otherwise.
pub open spec fn database_url_of(c: Config) -> Seq<char> {
    let driver = c.db_driver@;
    let server = c.db_user@ + ":"@ + c.db_pass@ + "@"@ + c.db_host@ + ":"@ + decimal(
        c.db_port as nat,
    ) + "/"@ + c.db_name@;
    if driver == "postgres"@ || driver == "postgresql"@ {
        "postgres://"@ + server
    } else if driver == "sqlite"@ {
        "sqlite://"@ + c.db_name@ + ".db"@
    } else {
        "mysql://"@ + server
    }
}

impl Config {
    /// The settings described by the environment variables, each with its default.
    pub fn from_env(v: &EnvVars) -> (c: Config)
        ensures
            c.app_url@ == text_or(v.app_url, "http://localhost:8000"@),
            c.app_port == port_or(v.app_port, 8000),
            c.db_driver@ == text_or(v.db_driver, "mysql"@),
            c.db_host@ == text_or(v.db_host, "127.0.0.1"@),
            c.db_port == port_or(v.db_port, 3306),
            c.db_user@ == text_or(v.db_user, "root"@),
            c.db_pass@ == text_or(v.db_pass, ""@),
            c.db_name@ == text_or(v.db_name, "starter_api"@),
            c.jwt_secret@ == text_or(v.jwt_secret, "secret"@),
            c.jwt_access_expire == number_or(v.jwt_access_expire, 15),
            c.jwt_refresh_expire == number_or(v.jwt_refresh_expire, 10080),
            c.email_verification_required == flag(v.email_verification_required),
            c.mail_host@ == text_or(v.mail_host, ""@),
            c.mail_port == port_or(v.mail_port, 587),
            c.mail_user@ == text_or(v.mail_user, ""@),
            c.mail_pass@ == text_or(v.mail_pass, ""@),
            c.mail_from@ == text_or(v.mail_from, "no-reply@example.com"@),
            c.mail_from_name@ == text_or(v.mail_from_name, "StarterAPI"@),
            c.google_client_id@ == text_or(v.google_client_id, ""@),
            c.facebook_client_id@ == text_or(v.facebook_client_id, ""@),
            c.storage_path@ == text_or(v.storage_path, "./storage/photos"@),
    {
        Config {
            app_url: text_or_default(&v.app_url, "http://localhost:8000"),
            app_port: port_or_default(&v.app_port, 8000),
            db_driver: text_or_default(&v.db_driver, "mysql"),
            db_host: text_or_default(&v.db_host, "127.0.0.1"),
            db_port: port_or_default(&v.db_port, 3306),
            db_user: text_or_default(&v.db_user, "root"),
            db_pass: text_or_default(&v.db_pass, ""),
            db_name: text_or_default(&v.db_name, "starter_api"),
            jwt_secret: text_or_default(&v.jwt_secret, "secret"),
            jwt_access_expire: number_or_default(&v.jwt_access_expire, 15),
            jwt_refresh_expire: number_or_default(&v.jwt_refresh_expire, 10080),
            email_verification_required: flag_of(&v.email_verification_required),
            mail_host: text_or_default(&v.mail_host, ""),
            mail_port: port_or_default(&v.mail_port, 587),
            mail_user: text_or_default(&v.mail_user, ""),
            mail_pass: text_or_default(&v.mail_pass, ""),
            mail_from: text_or_default(&v.mail_from, "no-reply@example.com"),
            mail_from_name: text_or_default(&v.mail_from_name, "StarterAPI"),
            google_client_id: text_or_default(&v.google_client_id, ""),
            facebook_client_id: text_or_default(&v.facebook_client_id, ""),
            storage_path: text_or_default(&v.storage_path, "./storage/photos"),
        }
    }

    /// The connection string for this configuration's database.
    pub fn database_url(&self) -> (url: String)
        ensures
            url@ == database_url_of(*self),
    {
        let sqlite = str_eq(self.db_driver.as_str(), "sqlite");
        let postgres = str_eq(self.db_driver.as_str(), "postgres") || str_eq(
            self.db_driver.as_str(),
            "postgresql",
        );
        let mut out: Vec<char>;
        if !postgres && sqlite {
            out = chars_of("sqlite://");
            push_str(&mut out, self.db_name.as_str());
            push_str(&mut out, ".db");
        } else {
            if postgres {
                out = chars_of("postgres://");
            } else {
                out = chars_of("mysql://");
            }
            push_str(&mut out, self.db_user.as_str());
            push_str(&mut out, ":");
            push_str(&mut out, self.db_pass.as_str());
            push_str(&mut out, "@");
            push_str(&mut out, self.db_host.as_str());
            push_str(&mut out, ":");
            let port = format_u64(self.db_port as u64);
            push_all(&mut out, &port);
            push_str(&mut out, "/");
            push_str(&mut out, self.db_name.as_str());
        }
        string_from_chars(&out)
    }
}

} // verus!
