//! Composition of outbound mail requests.
//!
//! The core only composes what the mail collaborator needs; delivery is
//! best-effort and lives outside this crate, and its failure never fails a
//! flow.

use vstd::prelude::*;
use vstd::string::StringExecFns;

verus! {

/// A request to the mail collaborator: recipient, subject, and the
/// placeholder substitutions for its template.
#[derive(Debug)]
pub struct MailRequest {
    pub to: String,
    pub subject: String,
    pub placeholders: Vec<(String, String)>,
}

/// Appends the token to the base url as its `token` query parameter.
pub fn create_verification_link(base_url: &str, token: &str) -> (r: String)
    ensures
        r@ == base_url@ + "?token="@ + token@,
{
    let mut link = base_url.to_owned();
    link.append("?token=");
    link.append(token);
    link
}

/// The account-verification mail: greets the user by name and embeds the
/// verification link for the token.
pub fn verification_email_request(to_email: &str, username: &str, token: &str) -> (r: MailRequest)
    ensures
        r.to@ == to_email@,
        r.subject@ == "Email Verification"@,
        r.placeholders@.len() == 2,
        r.placeholders@[0].0@ == "{{username}}"@,
        r.placeholders@[0].1@ == username@,
        r.placeholders@[1].0@ == "{{verification_link}}"@,
        r.placeholders@[1].1@ == "http://localhost:8000/api/auth/verify-email"@ + "?token="@
            + token@,
{
    let link = create_verification_link("http://localhost:8000/api/auth/verify-email", token);
    let mut placeholders: Vec<(String, String)> = Vec::new();
    placeholders.push((String::from_str("{{username}}"), username.to_owned()));
    placeholders.push((String::from_str("{{verification_link}}"), link));
    MailRequest {
        to: to_email.to_owned(),
        subject: String::from_str("Email Verification"),
        placeholders,
    }
}

/// The welcome mail sent after a successful email verification.
pub fn welcome_email_request(to_email: &str, username: &str) -> (r: MailRequest)
    ensures
        r.to@ == to_email@,
        r.subject@ == "Welcome to Application"@,
        r.placeholders@.len() == 1,
        r.placeholders@[0].0@ == "{{username}}"@,
        r.placeholders@[0].1@ == username@,
{
    let mut placeholders: Vec<(String, String)> = Vec::new();
    placeholders.push((String::from_str("{{username}}"), username.to_owned()));
    MailRequest {
        to: to_email.to_owned(),
        subject: String::from_str("Welcome to Application"),
        placeholders,
    }
}

/// The password-reset mail: embeds the reset link for the token.
pub fn forgot_password_email_request(to_email: &str, reset_link: &str, username: &str) -> (r:
    MailRequest)
    ensures
        r.to@ == to_email@,
        r.subject@ == "Welcome to Application"@,
        r.placeholders@.len() == 2,
        r.placeholders@[0].0@ == "{{username}}"@,
        r.placeholders@[0].1@ == username@,
        r.placeholders@[1].0@ == "{{rest_link}}"@,
        r.placeholders@[1].1@ == reset_link@,
{
    let mut placeholders: Vec<(String, String)> = Vec::new();
    placeholders.push((String::from_str("{{username}}"), username.to_owned()));
    placeholders.push((String::from_str("{{rest_link}}"), reset_link.to_owned()));
    MailRequest {
        to: to_email.to_owned(),
        subject: String::from_str("Welcome to Application"),
        placeholders,
    }
}

} // verus!
