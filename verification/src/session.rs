//! Session tokens, how long they last, and the cookie that carries one.

use vstd::prelude::*;

use crate::calls::{outcome, outcome_on};
use crate::encoding::{base64url, base64url_is_injective, encode_base64url};

verus! {

/// The name of the cookie that carries a session token.
pub const SESSION_COOKIE_NAME: &'static str = "redlib_session";

/// How many random bytes a session token is made of.
pub const TOKEN_BYTES: usize = 32;

/// How many seconds a session lasts: seven days.
pub const SESSION_SECONDS: i64 = 7 * 24 * 60 * 60;

/// The earliest time that a cookie's date can show, in seconds since the Unix epoch.
pub const FIRST_COOKIE_TIME: i64 = -377705116800;

/// The latest time that a cookie's date can show, in seconds since the Unix epoch.
pub const LAST_COOKIE_TIME: i64 = 253402300799;

/// Why no session can be opened although the account may have one: the machine fails.
#[derive(Debug, Clone, Copy, PartialEq, Eq, Structural)]
pub enum Fault {
    /// The system gives no random bytes.
    NoRandomBytes,
    /// The clock is so far off that the end of the session is no number of seconds.
    ClockOutOfRange,
}

/// The error of the system's random source.
#[verifier::external_type_specification]
#[verifier::external_body]
pub struct ExRandomError(getrandom::Error);

/// Calls `getrandom` of the `getrandom` crate on a buffer of `n` bytes, and claims that the bytes it
/// gives are that many. They are drawn at random; nothing else is claimed of them, nor of when the
/// call fails.
#[verifier::external_body]
pub(crate) fn random_bytes(n: usize) -> (r: Result<Vec<u8>, getrandom::Error>)
    requires
        n <= isize::MAX,
    ensures
        r matches Ok(bytes) ==> bytes@.len() == n,
{
    let mut bytes: Vec<u8> = vec![0u8; n];
    getrandom::getrandom(bytes.as_mut_slice())?;
    Ok(bytes)
}

/// The token that 32 bytes make.
pub open spec fn session_token(bytes: Seq<u8>) -> Seq<char> {
    base64url(bytes)
}

/// Makes the token of 32 bytes.
pub fn token_of(bytes: &[u8]) -> (r: String)
    requires
        bytes@.len() == TOKEN_BYTES,
    ensures
        r@ == session_token(bytes@),
        r@.len() == 43,
{
    encode_base64url(bytes)
}

/// Random bytes, or the fault of a system that gives none.
pub open spec fn bytes_or_fault(r: Result<Vec<u8>, getrandom::Error>) -> Result<Seq<u8>, Fault> {
    match r {
        Ok(bytes) => Ok(bytes@),
        Err(_) => Err(Fault::NoRandomBytes),
    }
}

/// Whether bytes, or a fault, are what the system's random source gave when it was asked for the
/// bytes of a token.
pub closed spec fn fresh_bytes(drawn: Result<Seq<u8>, Fault>) -> bool {
    exists|r: Result<Vec<u8>, getrandom::Error>| #[trigger]
        call_ensures(random_bytes, (TOKEN_BYTES,), r) && drawn == bytes_or_fault(r)
}

/// Fresh bytes are 32 bytes that the random source gave; a fault means that it gave none.
pub(crate) proof fn fresh_bytes_come_from_the_source(drawn: Result<Seq<u8>, Fault>)
    requires
        fresh_bytes(drawn),
    ensures
        exists|r: Result<Vec<u8>, getrandom::Error>| #[trigger]
            call_ensures(random_bytes, (32usize,), r) && (drawn matches Ok(bytes) ==> r is Ok
                && r->Ok_0@ == bytes) && (drawn is Err ==> r is Err),
{
    let r = choose|r: Result<Vec<u8>, getrandom::Error>| #[trigger]
        call_ensures(random_bytes, (TOKEN_BYTES,), r) && drawn == bytes_or_fault(r);
    assert(call_ensures(random_bytes, (32usize,), r));
}

/// The token of drawn bytes, or the fault of a system that gives none.
pub open spec fn token_of_draw(drawn: Result<Seq<u8>, Fault>) -> Result<Seq<char>, Fault> {
    match drawn {
        Ok(bytes) => Ok(session_token(bytes)),
        Err(fault) => Err(fault),
    }
}

/// Whether a token is that of 32 bytes that the system's random source gave, or the fault of a
/// system that gives none.
pub open spec fn drawn(token: Result<Seq<char>, Fault>) -> bool {
    exists|d: Result<Seq<u8>, Fault>|
        fresh_bytes(d) && token == #[trigger] token_of_draw(d) && match d {
            Ok(bytes) => bytes.len() == TOKEN_BYTES,
            Err(fault) => fault == Fault::NoRandomBytes,
        }
}

/// A token, or a fault, as characters.
pub open spec fn token_text(token: Result<String, Fault>) -> Result<Seq<char>, Fault> {
    match token {
        Ok(t) => Ok(t@),
        Err(f) => Err(f),
    }
}

/// Makes a token of bytes from the system's random source. It fails only where the source does.
pub fn generate_session_token() -> (r: Result<String, Fault>)
    ensures
        drawn(token_text(r)),
        r matches Ok(token) ==> token@.len() == 43,
        r matches Err(fault) ==> fault == Fault::NoRandomBytes,
{
    let bytes = outcome_on(random_bytes, TOKEN_BYTES);
    let ghost d = bytes_or_fault(bytes);
    assert(fresh_bytes(d));
    let r = match bytes {
        Ok(b) => Ok(token_of(b.as_slice())),
        Err(_) => Err(Fault::NoRandomBytes),
    };
    assert(token_text(r) == token_of_draw(d));
    r
}

/// The time in seconds that a reading of the clock stands for; 0 without a reading.
pub open spec fn unix_time(clock: Option<u64>) -> i64 {
    match clock {
        Some(t) => t as i64,
        None => 0,
    }
}

/// Gives the time in seconds that a reading of the clock stands for.
pub fn seconds_of(clock: Option<u64>) -> (r: i64)
    ensures
        r == unix_time(clock),
{
    match clock {
        Some(t) => t as i64,
        None => 0,
    }
}

/// When a session opened at a reading of the clock ends, if that is a number of seconds.
pub open spec fn session_end(clock: Option<u64>) -> Option<i64> {
    if unix_time(clock) + SESSION_SECONDS <= i64::MAX {
        Some((unix_time(clock) + SESSION_SECONDS) as i64)
    } else {
        None
    }
}

/// Computes when a session ends.
pub fn session_end_at(clock: Option<u64>) -> (r: Option<i64>)
    ensures
        r == session_end(clock),
{
    seconds_of(clock).checked_add(SESSION_SECONDS)
}

/// With which requests of other sites a browser sends a cookie along.
#[derive(Debug, Clone, Copy, PartialEq, Eq, Structural)]
pub enum SameSite {
    Strict,
    Lax,
    Unrestricted,
}

/// A cookie that carries a session token.
#[derive(Debug, Clone)]
pub struct SessionCookie {
    pub name: String,
    pub value: String,
    pub path: String,
    pub http_only: bool,
    pub secure: bool,
    pub same_site: SameSite,
    /// When the browser drops it, in seconds since the Unix epoch.
    pub expires: i64,
}

/// A session cookie as characters.
pub struct SessionCookieView {
    pub name: Seq<char>,
    pub value: Seq<char>,
    pub path: Seq<char>,
    pub http_only: bool,
    pub secure: bool,
    pub same_site: SameSite,
    pub expires: i64,
}

impl View for SessionCookie {
    type V = SessionCookieView;

    open spec fn view(&self) -> SessionCookieView {
        SessionCookieView {
            name: self.name@,
            value: self.value@,
            path: self.path@,
            http_only: self.http_only,
            secure: self.secure,
            same_site: self.same_site,
            expires: self.expires,
        }
    }
}

/// The date of a cookie at a time in seconds since the Unix epoch, as the `cookie` crate writes it.
pub uninterp spec fn cookie_date(time: int) -> Seq<char>;

/// Whether a cookie can show a time as its date.
pub open spec fn has_cookie_date(time: int) -> bool {
    FIRST_COOKIE_TIME <= time <= LAST_COOKIE_TIME
}

/// How a cookie's rule on other sites is written.
pub open spec fn same_site_text(rule: SameSite) -> Seq<char> {
    match rule {
        SameSite::Strict => "Strict"@,
        SameSite::Lax => "Lax"@,
        SameSite::Unrestricted => "None"@,
    }
}

/// What a `Set-Cookie` header says of a cookie before its date.
pub open spec fn cookie_without_date(c: SessionCookieView) -> Seq<char> {
    c.name + "="@ + c.value + (if c.http_only {
        "; HttpOnly"@
    } else {
        ""@
    }) + "; SameSite="@ + same_site_text(c.same_site) + (if c.secure {
        "; Secure"@
    } else {
        ""@
    }) + "; Path="@ + c.path
}

/// The value of the `Set-Cookie` header for a cookie.
pub open spec fn cookie_header(c: SessionCookieView) -> Seq<char> {
    cookie_without_date(c) + "; Expires="@ + cookie_date(c.expires as int)
}

/// Calls `OffsetDateTime::now_utc` of the `time` crate and reads its seconds; nothing is claimed of
/// the reading.
#[verifier::external_body]
pub(crate) fn utc_now() -> i64 {
    time::OffsetDateTime::now_utc().unix_timestamp()
}

/// Builds the cookie with `Cookie::build` of the `cookie` crate and writes it out. Claims which
/// parts the text has and in what order, and that its date depends on the time alone.
#[verifier::external_body]
fn write_cookie(c: &SessionCookie) -> (r: String)
    requires
        has_cookie_date(c@.expires as int),
    ensures
        r@ == cookie_without_date(c@) + "; Expires="@ + cookie_date(c@.expires as int),
{
    cookie::Cookie::build((c.name.as_str(), c.value.as_str()))
        .path(c.path.as_str())
        .http_only(c.http_only)
        .secure(c.secure)
        .same_site(match c.same_site {
            SameSite::Strict => cookie::SameSite::Strict,
            SameSite::Lax => cookie::SameSite::Lax,
            SameSite::Unrestricted => cookie::SameSite::None,
        })
        .expires(time::OffsetDateTime::from_unix_timestamp(c.expires).ok())
        .to_string()
}

/// The cookie that carries a token from a time on: sent to every page, kept from scripts, over
/// secure connections only, and dropped when the session ends.
pub open spec fn session_cookie(token: Seq<char>, now: int) -> SessionCookieView {
    SessionCookieView {
        name: SESSION_COOKIE_NAME@,
        value: token,
        path: "/"@,
        http_only: true,
        secure: true,
        same_site: SameSite::Lax,
        expires: (now + SESSION_SECONDS) as i64,
    }
}

/// Makes the session cookie of a token, if its date can be shown.
pub fn session_cookie_at(token: &str, now: i64) -> (r: Option<SessionCookie>)
    ensures
        r is Some <==> has_cookie_date(now + SESSION_SECONDS),
        r matches Some(c) ==> c@ == session_cookie(token@, now as int),
{
    match now.checked_add(SESSION_SECONDS) {
        Some(expires) => {
            if FIRST_COOKIE_TIME <= expires && expires <= LAST_COOKIE_TIME {
                Some(
                    SessionCookie {
                        name: SESSION_COOKIE_NAME.to_owned(),
                        value: token.to_owned(),
                        path: "/".to_owned(),
                        http_only: true,
                        secure: true,
                        same_site: SameSite::Lax,
                        expires,
                    },
                )
            } else {
                None
            }
        },
        None => None,
    }
}

/// Gives the header that sets the session cookie at a time, if its date can be shown.
pub fn set_session_cookie_at(token: &str, now: i64) -> (r: Option<String>)
    ensures
        r is Some <==> has_cookie_date(now + SESSION_SECONDS),
        r matches Some(header) ==> header@ == cookie_header(session_cookie(token@, now as int)),
{
    match session_cookie_at(token, now) {
        Some(c) => Some(write_cookie(&c)),
        None => None,
    }
}

/// Whether a time is one that the system gave as the present.
pub closed spec fn present_time(now: i64) -> bool {
    call_ensures(utc_now, (), now)
}

/// The present time is one that the system gave.
pub(crate) proof fn the_present_time_comes_from_the_system(now: i64)
    requires
        present_time(now),
    ensures
        call_ensures(utc_now, (), now),
{
}

/// Gives the header that sets the session cookie now, if its date can be shown.
pub fn set_session_cookie(token: &str) -> (r: Option<String>)
    ensures
        exists|now: i64| #[trigger]
            present_time(now) && has_cookie_date(now + SESSION_SECONDS) == (r is Some) && (
            r matches Some(header) ==> header@ == cookie_header(
                session_cookie(token@, now as int),
            )),
{
    let now: i64 = outcome(utc_now);
    assert(present_time(now));
    set_session_cookie_at(token, now)
}

/// Different random bytes make different tokens.
pub proof fn tokens_differ(a: Seq<u8>, b: Seq<u8>)
    requires
        a != b,
    ensures
        session_token(a) != session_token(b),
{
    if session_token(a) == session_token(b) {
        base64url_is_injective(a, b);
    }
}

/// A token stands in a cookie and in a URL as it is: letters, digits, `-` and `_` only.
pub proof fn token_is_plain(bytes: Seq<u8>, i: int)
    requires
        0 <= i < session_token(bytes).len(),
    ensures
        ({
            let c = session_token(bytes)[i];
            'A' <= c <= 'Z' || 'a' <= c <= 'z' || '0' <= c <= '9' || c == '-' || c == '_'
        }),
{
    crate::bits::lemma_regroup_fits(crate::encoding::octets(bytes), 8, 6);
    vstd::arithmetic::power2::lemma2_to64();
}

/// A session and the cookie that carries its token end together, seven days after they were made.
pub proof fn cookie_ends_with_session(token: Seq<char>, t: u64)
    requires
        has_cookie_date(t + SESSION_SECONDS),
    ensures
        session_end(Some(t)) == Some(session_cookie(token, t as int).expires),
        session_cookie(token, t as int).expires == t + 604800,
{
}

} // verus!
