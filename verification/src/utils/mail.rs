//! The account e-mails: who sends them and what they say.
use vstd::prelude::*;
use crate::config::Config;
use crate::text::{chars_of, push_str, string_from_chars};

verus! {

/// A message ready for the mail transport.
pub struct Email {
    pub subject: String,
    pub body: String,
}

/// Mail is sent only when an SMTP host is configured.
pub fn mail_enabled(cfg: &Config) -> (b: bool)
    ensures
        b == (cfg.mail_host@.len() > 0),
{
    !cfg.mail_host.as_str().is_empty()
}

/// The sender: the configured name and address, as `Name <address>`.
pub open spec fn sender_of(cfg: Config) -> Seq<char> {
    cfg.mail_from_name@ + " <"@ + cfg.mail_from@ + ">"@
}

/// The sender of the account e-mails.
pub fn sender(cfg: &Config) -> (s: String)
    ensures
        s@ == sender_of(*cfg),
{
    let mut out = chars_of(cfg.mail_from_name.as_str());
    push_str(&mut out, " <");
    push_str(&mut out, cfg.mail_from.as_str());
    push_str(&mut out, ">");
    string_from_chars(&out)
}

/// The link that verifies an address.
pub open spec fn verification_link_of(app_url: Seq<char>, token: Seq<char>) -> Seq<char> {
    app_url + "/api/v1/auth/verify-email?token="@ + token
}

/// The link that opens a password reset.
pub open spec fn reset_link_of(app_url: Seq<char>, token: Seq<char>) -> Seq<char> {
    app_url + "/api/v1/auth/reset-password?token="@ + token
}

/// The text of the verification e-mail.
pub open spec fn verification_body_of(name: Seq<char>, link: Seq<char>) -> Seq<char> {
    "Hi "@ + name + ",\n\nPlease verify your email by clicking:\n"@ + link
        + "\n\nThis link expires in 24 hours."@
}

/// The text of the password reset e-mail.
pub open spec fn reset_body_of(name: Seq<char>, link: Seq<char>) -> Seq<char> {
    "Hi "@ + name + ",\n\nReset your password by clicking:\n"@ + link
        + "\n\nThis link expires in 1 hour."@
}

/// The e-mail asking `to_name` to verify the address with `token`.
pub fn verification_email(cfg: &Config, to_name: &str, token: &str) -> (m: Email)
    ensures
        m.subject@ == "Verify Your Email"@,
        m.body@ == verification_body_of(to_name@, verification_link_of(cfg.app_url@, token@)),
{
    let mut body = chars_of("Hi ");
    push_str(&mut body, to_name);
    push_str(&mut body, ",\n\nPlease verify your email by clicking:\n");
    push_str(&mut body, cfg.app_url.as_str());
    push_str(&mut body, "/api/v1/auth/verify-email?token=");
    push_str(&mut body, token);
    push_str(&mut body, "\n\nThis link expires in 24 hours.");
    Email { subject: crate::text::owned("Verify Your Email"), body: string_from_chars(&body) }
}

/// The e-mail offering `to_name` a password reset with `token`.
pub fn password_reset_email(cfg: &Config, to_name: &str, token: &str) -> (m: Email)
    ensures
        m.subject@ == "Reset Your Password"@,
        m.body@ == reset_body_of(to_name@, reset_link_of(cfg.app_url@, token@)),
{
    let mut body = chars_of("Hi ");
    push_str(&mut body, to_name);
    push_str(&mut body, ",\n\nReset your password by clicking:\n");
    push_str(&mut body, cfg.app_url.as_str());
    push_str(&mut body, "/api/v1/auth/reset-password?token=");
    push_str(&mut body, token);
    push_str(&mut body, "\n\nThis link expires in 1 hour.");
    Email { subject: crate::text::owned("Reset Your Password"), body: string_from_chars(&body) }
}

} // verus!
