//! The subscription URL and the backend's reply: which URLs may be fetched,
//! and what each HTTP status of the reply comes to.

use vstd::prelude::*;
use crate::sys::push_char;
use crate::text::{equals_literal, law_trim_idempotent, trim, trim_str};

verus! {

/// The parts of a parsed URL that decide whether it may be fetched.
pub struct UrlParts {
    pub scheme: String,
    pub host: Option<String>,
}

/// Whether `reqwest::Url::parse` accepts `text` as an absolute URL.
pub uninterp spec fn url_parses(text: Seq<char>) -> bool;

/// The scheme (`Url::scheme`) of the URL that `text` parses to.
pub uninterp spec fn url_scheme(text: Seq<char>) -> Seq<char>;

/// The host (`Url::host_str`) of the URL that `text` parses to, if it has one.
pub uninterp spec fn url_host(text: Seq<char>) -> Option<Seq<char>>;

/// The view of an optional string.
pub open spec fn opt_view(s: Option<String>) -> Option<Seq<char>> {
    match s {
        Some(x) => Some(x@),
        None => None,
    }
}

/// Parses `text` with `reqwest::Url::parse` (the `url` crate's parser) and
/// reads the scheme (`Url::scheme`) and the host (`Url::host_str`) of the
/// result. The contract claims only that these are the crate's answers for
/// `text`: success exactly when the parser accepts it, and then its scheme
/// and host.
#[verifier::external_body]
fn parse_url(text: &str) -> (r: Option<UrlParts>)
    ensures
        r is Some <==> url_parses(text@),
        r matches Some(p) ==> p.scheme@ == url_scheme(text@) && opt_view(p.host) == url_host(text@),
{
    match reqwest::Url::parse(text) {
        Ok(u) => Some(UrlParts { scheme: u.scheme().to_string(), host: u.host_str().map(|h| h.to_string()) }),
        Err(_) => None,
    }
}

/// A URL with this scheme and host may be fetched: over https, or over plain
/// http to this machine only (for development against a local backend).
pub open spec fn allowed_origin(scheme: Seq<char>, host: Option<Seq<char>>) -> bool {
    ||| scheme == "https"@
    ||| (scheme == "http"@ && (host == Some("localhost"@) || host == Some("127.0.0.1"@)))
}

/// What checking a subscription URL comes to: the trimmed URL to fetch, or
/// the error the user is shown.
pub open spec fn url_check(url: Seq<char>) -> Result<Seq<char>, Seq<char>> {
    let t = trim(url);
    if !url_parses(t) {
        Err("invalid URL"@)
    } else if allowed_origin(url_scheme(t), url_host(t)) {
        Ok(t)
    } else {
        Err("subscription URL must be https"@)
    }
}

/// White space around a subscription URL never changes what checking it
/// comes to.
pub proof fn law_check_ignores_surrounding_space(url: Seq<char>)
    ensures
        url_check(trim(url)) == url_check(url),
{
    law_trim_idempotent(url);
}

/// A URL that passes the check is fetched over https, or over http from this
/// machine only.
pub proof fn law_checked_urls_are_safe(url: Seq<char>)
    ensures
        url_check(url) matches Ok(u) ==> u == trim(url) && url_parses(u) && allowed_origin(
            url_scheme(u),
            url_host(u),
        ),
{
}

/// Whether a parsed URL may be fetched.
pub fn check_origin(parts: &UrlParts) -> (r: Result<(), String>)
    ensures
        r is Ok <==> allowed_origin(parts.scheme@, opt_view(parts.host)),
        r matches Err(e) ==> e@ == "subscription URL must be https"@,
{
    if equals_literal(&parts.scheme, "https") {
        return Ok(());
    }
    if equals_literal(&parts.scheme, "http") {
        match &parts.host {
            Some(h) => {
                if equals_literal(h, "localhost") || equals_literal(h, "127.0.0.1") {
                    return Ok(());
                }
            },
            None => {},
        }
    }
    Err(String::from_str("subscription URL must be https"))
}

/// Check a subscription URL before anything is fetched from it.
pub fn check_subscription_url(url: &str) -> (r: Result<String, String>)
    ensures
        match (r, url_check(url@)) {
            (Ok(a), Ok(b)) => a@ == b,
            (Err(a), Err(b)) => a@ == b,
            _ => false,
        },
{
    let t = trim_str(url);
    match parse_url(t.as_str()) {
        None => Err(String::from_str("invalid URL")),
        Some(parts) => match check_origin(&parts) {
            Ok(()) => Ok(t),
            Err(e) => Err(e),
        },
    }
}

/// The URL to refresh from: the stored one, else an error.
pub fn refresh_url(stored: Option<String>) -> (r: Result<String, String>)
    ensures
        stored matches Some(u) ==> r == Ok::<String, String>(u),
        stored is None ==> (r matches Err(e) && e@ == "no subscription configured"@),
{
    match stored {
        Some(u) => Ok(u),
        None => Err(String::from_str("no subscription configured")),
    }
}

/// The decimal digit for `d`.
pub open spec fn digit_char(d: nat) -> char {
    (d + 48) as char
}

/// The decimal representation of `n`, without leading zeros.
pub open spec fn decimal(n: nat) -> Seq<char>
    decreases n,
{
    if n < 10 {
        seq![digit_char(n)]
    } else {
        decimal(n / 10).push(digit_char(n % 10))
    }
}

fn push_decimal(s: &mut String, n: u16)
    ensures
        final(s)@ == old(s)@ + decimal(n as nat),
    decreases n,
{
    if n >= 10 {
        push_decimal(s, n / 10);
    }
    let d: u8 = (n % 10) as u8;
    let c = (d + 48u8) as char;
    assert(c == digit_char((n % 10) as nat));
    push_char(s, c);
    assert(old(s)@ + decimal(n as nat) =~= (if n >= 10 { old(s)@ + decimal((n / 10) as nat) } else { old(s)@ }).push(c));
}

/// What to do with the backend's reply to a subscription request.
pub enum ReplyAction {
    /// The reply carries the subscription: read its body.
    ReadPayload,
    /// The request failed; the user is shown this message.
    Fail(String),
}

/// The message for a failed subscription request with this HTTP status, if
/// it failed.
pub open spec fn reply_failure(status: u16) -> Option<Seq<char>> {
    if status == 200 {
        None
    } else if status == 403 {
        Some("subscription expired"@)
    } else if status == 404 {
        Some("subscription not found — check the URL"@)
    } else {
        Some("server error ("@ + decimal(status as nat) + ")"@)
    }
}

/// What the HTTP status of the backend's reply comes to.
pub fn reply_action(status: u16) -> (r: ReplyAction)
    ensures
        match (r, reply_failure(status)) {
            (ReplyAction::ReadPayload, None) => true,
            (ReplyAction::Fail(m), Some(f)) => m@ == f,
            _ => false,
        },
{
    if status == 200 {
        ReplyAction::ReadPayload
    } else if status == 403 {
        ReplyAction::Fail(String::from_str("subscription expired"))
    } else if status == 404 {
        ReplyAction::Fail(String::from_str("subscription not found — check the URL"))
    } else {
        let mut m = String::from_str("server error (");
        push_decimal(&mut m, status);
        ReplyAction::Fail(m.concat(")"))
    }
}

} // verus!
