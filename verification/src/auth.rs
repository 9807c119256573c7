//! Bearer-token authentication: the decision whether one request's
//! Authorization header passes, given the resolved authentication
//! settings. Reading headers off the wire is the request handler's
//! business; it hands the header in as a plain value.

use vstd::prelude::*;

use crate::config::AuthConfig;
use crate::text::str_eq;

verus! {

/// The error body returned to an unauthorized caller.
#[derive(Debug, Clone)]
pub struct AuthError {
    pub error: String,
    pub message: String,
}

/// The Authorization header of one request, as the handler observed it:
/// absent, present but not readable as text, or its text.
#[derive(Debug, Clone)]
pub enum HeaderField {
    Missing,
    Malformed,
    Value { text: String },
}

pub open spec fn bearer_prefix() -> Seq<char> {
    "Bearer "@
}

/// Whether a header value carries the bearer scheme.
pub open spec fn has_bearer_prefix(h: Seq<char>) -> bool {
    h.len() >= 7 && h.subrange(0, 7) == bearer_prefix()
}

/// The token after the scheme prefix.
pub open spec fn bearer_token(h: Seq<char>) -> Seq<char> {
    h.subrange(7, h.len() as int)
}

pub open spec fn denied_with(r: Result<(), AuthError>, message: Seq<char>) -> bool {
    r matches Err(a) && a.error@ == "Unauthorized"@ && a.message@ == message
}

fn deny(message: &str) -> (r: AuthError)
    ensures
        r.error@ == "Unauthorized"@,
        r.message@ == message@,
{
    AuthError { error: String::from_str("Unauthorized"), message: message.to_owned() }
}

/// Decides one request: authentication switched off, or no key
/// configured, passes every request; otherwise the header must carry the
/// bearer scheme with exactly the configured key. Each refusal names its
/// reason.
pub fn check_bearer(config: &AuthConfig, header: &HeaderField) -> (r: Result<(), AuthError>)
    ensures
        !config.enabled ==> r is Ok,
        config.enabled && config.api_key is None ==> r is Ok,
        config.enabled && config.api_key is Some && header is Missing ==> denied_with(
            r,
            "Missing Authorization header"@,
        ),
        config.enabled && config.api_key is Some && header is Malformed ==> denied_with(
            r,
            "Invalid Authorization header format"@,
        ),
        config.enabled && config.api_key is Some ==> (header matches HeaderField::Value { text }
            && !has_bearer_prefix(text@) ==> denied_with(
            r,
            "Authorization header must use Bearer token"@,
        )),
        config.enabled ==> (config.api_key matches Some(k) ==> (header matches HeaderField::Value {
            text,
        } && has_bearer_prefix(text@) && bearer_token(text@) != k@ ==> denied_with(
            r,
            "Invalid API key"@,
        ))),
        config.enabled ==> (config.api_key matches Some(k) ==> (header matches HeaderField::Value {
            text,
        } && has_bearer_prefix(text@) && bearer_token(text@) == k@ ==> r is Ok)),
{
    if !config.enabled {
        return Ok(());
    }
    let key = match &config.api_key {
        Some(k) => k,
        None => {
            return Ok(());
        },
    };
    match header {
        HeaderField::Missing => Err(deny("Missing Authorization header")),
        HeaderField::Malformed => Err(deny("Invalid Authorization header format")),
        HeaderField::Value { text } => {
            let n = text.as_str().unicode_len();
            if n < 7 || !str_eq(text.as_str().substring_char(0, 7), "Bearer ") {
                return Err(deny("Authorization header must use Bearer token"));
            }
            let token = text.as_str().substring_char(7, n);
            if str_eq(token, key.as_str()) {
                Ok(())
            } else {
                Err(deny("Invalid API key"))
            }
        },
    }
}

} // verus!
