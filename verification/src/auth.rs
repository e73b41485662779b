//! The login flow: building the authorization URL the browser is sent
//! to, extracting the authorization code from the callback request's
//! URL, and turning the token endpoint's answer into a finished token
//! record. The flow is linear: credentials, browser, callback, code
//! exchange, persisted record; each step here is pure, and the I/O
//! between the steps happens outside the crate.

use vstd::prelude::*;
use vstd::string::StringExecFns;
use vstd::string::StringSliceAdditionalSpecFns;
use crate::client::is_success_status;
use crate::errors::SyncError;
use crate::models::Tokens;

verus! {

/// `?`, the byte that starts a URL's query string.
pub const QUERY_START: u8 = 63;

/// `&`, the byte that separates query parameters.
pub const PARAM_SEP: u8 = 38;

/// `=`, the byte that separates a parameter's key from its value.
pub const KEY_VALUE_SEP: u8 = 61;

/// The bytes of `code`, the parameter the callback carries.
pub open spec fn code_key() -> Seq<u8> {
    seq![99u8, 111u8, 100u8, 101u8]
}

/// The position of the first `c` in `s[start..end]`, or `end` when the
/// range holds none.
pub open spec fn scan_to(s: Seq<u8>, start: int, end: int, c: u8) -> int
    decreases end - start,
{
    if start < 0 || start >= end || end > s.len() {
        end
    } else if s[start] == c {
        start
    } else {
        scan_to(s, start + 1, end, c)
    }
}

/// `scan_to` stays within the range it was given.
pub proof fn lemma_scan_bounds(s: Seq<u8>, start: int, end: int, c: u8)
    requires
        0 <= start <= end <= s.len(),
    ensures
        start <= scan_to(s, start, end, c) <= end,
    decreases end - start,
{
    if start < end && s[start] != c {
        lemma_scan_bounds(s, start + 1, end, c);
    }
}

/// The value of the parameter `s[ps..pe]` if its key is `code`: the
/// bytes after the first `=`, or nothing when there is no `=` or the
/// key is some other parameter's.
pub open spec fn param_code_value(s: Seq<u8>, ps: int, pe: int) -> Option<Seq<u8>> {
    let eq = scan_to(s, ps, pe, KEY_VALUE_SEP);
    if eq >= pe {
        None
    } else if s.subrange(ps, eq) == code_key() {
        Some(s.subrange(eq + 1, pe))
    } else {
        None
    }
}

/// The value of the first `code` parameter among the `&`-separated
/// parameters of `s[start..]`, or nothing when no parameter carries
/// that key.
pub open spec fn code_from(s: Seq<u8>, start: int) -> Option<Seq<u8>>
    decreases s.len() - start,
        via code_from_decreases
{
    if start < 0 || start > s.len() {
        None
    } else {
        let pend = scan_to(s, start, s.len() as int, PARAM_SEP);
        let v = param_code_value(s, start, pend);
        if v is Some {
            v
        } else if pend >= s.len() {
            None
        } else {
            code_from(s, pend + 1)
        }
    }
}

#[via_fn]
proof fn code_from_decreases(s: Seq<u8>, start: int) {
    if 0 <= start <= s.len() {
        lemma_scan_bounds(s, start, s.len() as int, PARAM_SEP);
    }
}

/// The authorization code carried by a callback URL: the value of the
/// first `code` parameter of its query string, or nothing when the URL
/// has no query string or no such parameter.
pub open spec fn extract_code_spec(url: Seq<u8>) -> Option<Seq<u8>> {
    let q = scan_to(url, 0, url.len() as int, QUERY_START);
    if q >= url.len() {
        None
    } else {
        code_from(url, q + 1)
    }
}

/// The position of the first `c` in `s[start..end]`, or `end`.
fn scan_to_exec(s: &[u8], start: usize, end: usize, c: u8) -> (r: usize)
    requires
        start <= end <= s@.len(),
    ensures
        r == scan_to(s@, start as int, end as int, c),
{
    let mut i = start;
    while i < end
        invariant
            start <= i <= end <= s@.len(),
            scan_to(s@, start as int, end as int, c) == scan_to(s@, i as int, end as int, c),
        decreases end - i,
    {
        if s[i] == c {
            return i;
        }
        i = i + 1;
    }
    i
}

/// Whether `s[a..b]` is exactly the bytes of `code`.
fn range_is_code(s: &[u8], a: usize, b: usize) -> (r: bool)
    requires
        a <= b <= s@.len(),
    ensures
        r == (s@.subrange(a as int, b as int) == code_key()),
{
    let ghost range = s@.subrange(a as int, b as int);
    if b - a != 4 {
        proof {
            assert(range.len() != 4);
        }
        return false;
    }
    let r = s[a] == 99 && s[a + 1] == 111 && s[a + 2] == 100 && s[a + 3] == 101;
    proof {
        if r {
            assert(range =~= code_key());
        } else {
            if range == code_key() {
                assert(range[0] == 99 && range[1] == 111 && range[2] == 100 && range[3] == 101);
            }
        }
    }
    r
}

/// A copy of `s[a..b]`.
fn copy_range(s: &[u8], a: usize, b: usize) -> (r: Vec<u8>)
    requires
        a <= b <= s@.len(),
    ensures
        r@ == s@.subrange(a as int, b as int),
{
    let mut r: Vec<u8> = Vec::new();
    let mut i = a;
    while i < b
        invariant
            a <= i <= b <= s@.len(),
            r@ =~= s@.subrange(a as int, i as int),
        decreases b - i,
    {
        r.push(s[i]);
        proof {
            assert(r@ =~= s@.subrange(a as int, i + 1 as int));
        }
        i = i + 1;
    }
    r
}

/// Pulls the authorization code out of the callback request's URL: the
/// value of the first `code` query parameter, as bytes. A URL without
/// a query string or without a `code` parameter is a `MissingAuthCode`
/// failure.
pub fn extract_code_from_request(url: &str) -> (r: Result<Vec<u8>, SyncError>)
    ensures
        match r {
            Ok(code) => extract_code_spec(url.spec_bytes()) == Some(code@),
            Err(e) => e == SyncError::MissingAuthCode && extract_code_spec(url.spec_bytes())
                is None,
        },
{
    let s = url.as_bytes();
    let n = s.len();
    let q = scan_to_exec(s, 0, n, QUERY_START);
    if q >= n {
        return Err(SyncError::MissingAuthCode);
    }
    let mut p: usize = q + 1;
    loop
        invariant
            q + 1 <= p <= n,
            n == s@.len(),
            s@ == url.spec_bytes(),
            q == scan_to(url.spec_bytes(), 0, n as int, QUERY_START),
            q < n,
            code_from(s@, q + 1 as int) == code_from(s@, p as int),
        decreases n - p,
    {
        let pend = scan_to_exec(s, p, n, PARAM_SEP);
        proof {
            lemma_scan_bounds(s@, p as int, n as int, PARAM_SEP);
        }
        let eq = scan_to_exec(s, p, pend, KEY_VALUE_SEP);
        proof {
            lemma_scan_bounds(s@, p as int, pend as int, KEY_VALUE_SEP);
        }
        if eq < pend {
            if range_is_code(s, p, eq) {
                let code = copy_range(s, eq + 1, pend);
                return Ok(code);
            }
        }
        proof {
            assert(param_code_value(s@, p as int, pend as int) is None);
        }
        if pend >= n {
            return Err(SyncError::MissingAuthCode);
        }
        p = pend + 1;
    }
}

/// What `urlencoding::encode` returns for a string: its
/// percent-encoded form, a function of the characters alone.
pub uninterp spec fn url_encoded(s: Seq<char>) -> Seq<char>;

/// Relies on urlencoding::encode: percent-encodes every byte except
/// ASCII alphanumerics and `-`, `_`, `.`, `~`; the result depends on
/// the input characters alone, and an empty input stays empty.
#[verifier::external_body]
fn url_encode(s: &str) -> (r: String)
    ensures
        r@ == url_encoded(s@),
        s@.len() == 0 ==> r@.len() == 0,
{
    urlencoding::encode(s).into_owned()
}

/// The fixed local address the authorization flow redirects back to.
pub fn redirect_uri() -> (r: &'static str)
    ensures
        r@ == redirect_uri_spec(),
{
    "http://localhost:8888/callback"
}

/// The view of the fixed redirect address.
pub open spec fn redirect_uri_spec() -> Seq<char> {
    "http://localhost:8888/callback"@
}

/// The requested scopes, space-separated: library read and modify,
/// playlist read and modify in all visibility levels.
pub fn scopes() -> (r: &'static str)
    ensures
        r@ == scopes_spec(),
{
    "user-library-read user-library-modify playlist-read-private playlist-modify-public playlist-modify-private"
}

/// The view of the requested scopes.
pub open spec fn scopes_spec() -> Seq<char> {
    "user-library-read user-library-modify playlist-read-private playlist-modify-public playlist-modify-private"@
}

/// The authorization URL for a client id: the authorization endpoint
/// with the client id, the fixed response type, and the percent-encoded
/// redirect address and scopes.
pub open spec fn auth_url_spec(client_id: Seq<char>) -> Seq<char> {
    "https://accounts.spotify.com/authorize?client_id="@ + client_id
        + "&response_type=code&redirect_uri="@ + url_encoded(redirect_uri_spec()) + "&scope="@
        + url_encoded(scopes_spec())
}

/// Composes the authorization URL the browser is opened at.
pub fn build_auth_url(client_id: &str) -> (r: String)
    ensures
        r@ == auth_url_spec(client_id@),
{
    let mut url = String::from_str("https://accounts.spotify.com/authorize?client_id=");
    url.append(client_id);
    url.append("&response_type=code&redirect_uri=");
    let enc_redirect = url_encode(redirect_uri());
    url.append(enc_redirect.as_str());
    url.append("&scope=");
    let enc_scopes = url_encode(scopes());
    url.append(enc_scopes.as_str());
    proof {
        assert(url@ =~= auth_url_spec(client_id@));
    }
    url
}

/// Everything the flow needs once the credentials are known: the URL
/// to open and the credentials for the later code exchange.
#[derive(Debug)]
pub struct AuthRequest {
    pub auth_url: String,
    pub client_id: String,
    pub client_secret: String,
}

/// Starts the login flow from the configured credentials: fails fast
/// with `MissingCredentials` when either is absent, and otherwise
/// yields the authorization URL for this client id together with the
/// credentials the code exchange will use.
pub fn begin_login(client_id: Option<String>, client_secret: Option<String>) -> (r: Result<
    AuthRequest,
    SyncError,
>)
    ensures
        match r {
            Ok(req) => client_id matches Some(id) && client_secret matches Some(sec)
                && req.client_id == id && req.client_secret == sec && req.auth_url@
                == auth_url_spec(id@),
            Err(e) => e == SyncError::MissingCredentials && (client_id is None || client_secret
                is None),
        },
{
    match (client_id, client_secret) {
        (Some(id), Some(sec)) => {
            let auth_url = build_auth_url(id.as_str());
            Ok(AuthRequest { auth_url, client_id: id, client_secret: sec })
        },
        _ => Err(SyncError::MissingCredentials),
    }
}

/// Finishes the login flow from the token endpoint's answer: a
/// non-success status, or a success whose body yielded no token
/// record, fails with `TokenExchangeFailed` carrying the answer's
/// text; otherwise the record is completed with its absolute expiry,
/// `now + expires_in` in UTC epoch seconds.
pub fn complete_login(status: u16, tokens: Option<Tokens>, body: String, now: u64) -> (r: Result<
    Tokens,
    SyncError,
>)
    requires
        is_success_status(status) ==> (tokens matches Some(t) ==> now + t.expires_in
            <= u64::MAX),
    ensures
        match r {
            Ok(t2) => is_success_status(status) && (tokens matches Some(t) && t2.access_token
                == t.access_token && t2.refresh_token == t.refresh_token && t2.expires_in
                == t.expires_in && t2.expires_at == Some((now + t.expires_in) as u64)),
            Err(e) => (!is_success_status(status) || tokens is None) && e == (
            SyncError::TokenExchangeFailed { message: body }),
        },
{
    if !(200 <= status && status < 300) {
        return Err(SyncError::TokenExchangeFailed { message: body });
    }
    match tokens {
        None => Err(SyncError::TokenExchangeFailed { message: body }),
        Some(t) => Ok(
            Tokens {
                access_token: t.access_token,
                refresh_token: t.refresh_token,
                expires_in: t.expires_in,
                expires_at: Some(now + t.expires_in),
            },
        ),
    }
}

} // verus!
