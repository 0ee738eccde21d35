//! The network edge: a verified construction of the request's URL and
//! session cookie, and trusted wrappers around reqwest's blocking client
//! for the one GET that the store performs.

use vstd::prelude::*;
use vstd::string::*;

use crate::text;
use crate::Error;

verus! {

#[verifier::external_type_specification]
#[verifier::external_body]
pub struct ExClient(reqwest::blocking::Client);

/// The service endpoint for the input of (year, day).
pub open spec fn spec_url(year: int, day: int) -> Seq<char> {
    "https://adventofcode.com/"@ + text::spec_dec(year) + "/day/"@ + text::spec_dec(day)
        + "/input"@
}

/// The cookie-style header value that carries the session token.
pub open spec fn spec_cookie(token: Seq<char>) -> Seq<char> {
    "session="@ + token
}

/// Builds the service endpoint for the input of (year, day).
pub fn build_url(year: usize, day: usize) -> (r: String)
    ensures
        r@ == spec_url(year as int, day as int),
{
    let mut s = String::from_str("https://adventofcode.com/");
    s.append(text::dec_string(year).as_str());
    s.append("/day/");
    s.append(text::dec_string(day).as_str());
    s.append("/input");
    proof {
        assert(s@ =~= spec_url(year as int, day as int));
    }
    s
}

/// Builds the cookie header value that carries the session token.
pub fn build_cookie(token: &str) -> (r: String)
    ensures
        r@ == spec_cookie(token@),
{
    let mut s = String::from_str("session=");
    s.append(token);
    s
}

/// Relies on reqwest's blocking client: `ClientBuilder::timeout` bounds
/// each exchange, and `ClientBuilder::build` either yields a usable client
/// or reports why one could not be set up.
#[verifier::external_body]
pub(crate) fn new_http_client() -> (r: Result<reqwest::blocking::Client, Error>)
    ensures
        r matches Err(e) ==> e == Error::Transport,
{
    reqwest::blocking::Client::builder().timeout(std::time::Duration::from_secs(10)).build().map_err(
        |_| Error::Transport,
    )
}

/// Relies on reqwest's blocking client: `Client::get` prepares a GET of
/// `url`, `RequestBuilder::header` attaches the cookie and client
/// identifier headers, `RequestBuilder::send` performs the exchange,
/// `Response::error_for_status` turns a non-success status into an error
/// for which `Error::is_status` answers true, and `Response::text` yields
/// the body. A failure to complete the exchange is reported as `Transport`,
/// a non-success status as `Remote`; nothing is promised of the body, which
/// depends on the remote service.
#[verifier::external_body]
pub(crate) fn http_get_text(client: &reqwest::blocking::Client, url: &str, cookie: &str) -> (r:
    Result<String, Error>)
    ensures
        (r matches Ok(_)) || (r matches Err(e) && (e == Error::Transport || e == Error::Remote)),
{
    let sent = client
        .get(url)
        .header(reqwest::header::COOKIE, cookie)
        .header(reqwest::header::USER_AGENT, "emergence input cache")
        .send();
    match sent.and_then(|res| res.error_for_status()) {
        Ok(res) => res.text().map_err(|_| Error::Transport),
        Err(e) => Err(if e.is_status() { Error::Remote } else { Error::Transport }),
    }
}

} // verus!
