//! Time-based one-time passwords: enrolling an account and checking its codes.

use totp_rs::{Algorithm, Secret, TOTP};
use vstd::prelude::*;
use vstd::utf8::encode_utf8;

use crate::calls::outcome;
use crate::clock::{clock_reading, read_clock};
use crate::encoding::{
    base32, base32_bytes, base32_round_trip, decode_base32, encodable, encode_base32,
};
use crate::form::is_digits;
use crate::text::{decimal, join, occurs};

verus! {

/// How many digits a code has.
pub const DIGITS: usize = 6;

/// How many steps a code may lie before or after the current one.
pub const SKEW: u8 = 1;

/// How many seconds a code is current.
pub const STEP: u64 = 30;

/// The service that an authenticator shows beside the account.
pub const ISSUER: &'static str = "Redlib";

/// The code of a secret at a time in seconds, with HMAC-SHA1: what `TOTP::generate` of the
/// `totp-rs` crate gives.
pub uninterp spec fn totp_code(digits: nat, step: nat, secret: Seq<u8>, time: nat) -> Seq<char>;

/// Whether a text has the form of a code: so many decimal digits.
pub open spec fn code_form(digits: nat, code: Seq<char>) -> bool {
    code.len() == digits && is_digits(code)
}

/// Whether a code is that of the step in which `time` lies, or of one at most `skew` steps away.
pub open spec fn totp_accepts(
    digits: nat,
    skew: nat,
    step: nat,
    secret: Seq<u8>,
    code: Seq<char>,
    time: nat,
) -> bool {
    exists|k: int|
        -skew <= k <= skew && code == #[trigger] totp_code(
            digits,
            step,
            secret,
            ((time / step + k) * step) as nat,
        )
}

/// Why codes cannot be made with these parameters, if they cannot: a code has six to eight digits,
/// a secret at least 128 bits, and no colon stands in an issuer or an account.
pub open spec fn totp_refusal(
    digits: nat,
    secret: Seq<u8>,
    issuer: Option<Seq<char>>,
    account: Seq<char>,
) -> Option<Seq<char>> {
    if digits < 6 || digits > 8 {
        Some(
            "Implementations MUST extract a 6-digit code at a minimum and possibly 7 and 8-digit code. "@
                + decimal(digits) + " digits is not allowed"@,
        )
    } else if secret.len() < 16 {
        Some(
            "The length of the shared secret MUST be at least 128 bits. "@ + decimal(
                8 * secret.len(),
            ) + " bits is not enough"@,
        )
    } else if issuer is Some && issuer->0.contains(':') {
        Some("Issuer can't contain a colon. \""@ + issuer->0 + "\" contains a colon"@)
    } else if account.contains(':') {
        Some("Account Name can't contain a colon. \""@ + account + "\" contains a colon"@)
    } else {
        None
    }
}

/// Whether a byte stands for itself in a percent-encoded text.
pub open spec fn unreserved(b: u8) -> bool {
    48 <= b <= 57 || 65 <= b <= 90 || 97 <= b <= 122 || b == 45 || b == 46 || b == 95 || b == 126
}

/// The upper-case hexadecimal digit of a number under 16.
pub open spec fn hex_digit(n: int) -> char {
    if n < 10 {
        (48 + n) as char
    } else {
        (55 + n) as char
    }
}

/// Bytes in percent-encoding.
pub open spec fn percent_encoded(bytes: Seq<u8>) -> Seq<char>
    decreases bytes.len(),
{
    if bytes.len() == 0 {
        seq![]
    } else {
        let b = bytes.last();
        percent_encoded(bytes.drop_last()) + if unreserved(b) {
            seq![b as char]
        } else {
            seq!['%', hex_digit(b as int / 16), hex_digit(b as int % 16)]
        }
    }
}

/// The `otpauth` URL that an authenticator is set up with. Parameters that have their usual value
/// are left out.
pub open spec fn otpauth_url(
    digits: nat,
    step: nat,
    secret: Seq<u8>,
    issuer: Seq<char>,
    account: Seq<char>,
) -> Seq<char> {
    let service = percent_encoded(encode_utf8(issuer));
    "otpauth://totp/"@ + service + ":"@ + percent_encoded(encode_utf8(account)) + "?secret="@
        + base32(secret) + (if digits == 6 {
        ""@
    } else {
        "&digits="@ + decimal(digits)
    }) + "&issuer="@ + service + (if step == 30 {
        ""@
    } else {
        "&period="@ + decimal(step)
    })
}

/// Whether the steps around `time` can be computed without leaving the machine's numbers.
pub open spec fn steps_in_range(skew: nat, step: nat, time: nat) -> bool {
    &&& step > 0
    &&& skew <= time / step
    &&& (time / step + skew) * step <= u64::MAX
}

/// Calls `Secret::generate_secret` of the `totp-rs` crate, and claims that it gives 20 bytes. They
/// are drawn at random; nothing else is claimed of them. The call does not return where the system
/// gives no random bytes.
#[verifier::external_body]
pub(crate) fn random_secret() -> (r: Result<Vec<u8>, String>)
    ensures
        r is Ok,
        r->Ok_0@.len() == 20,
{
    Secret::generate_secret().to_bytes().map_err(|e| e.to_string())
}

/// Calls `TOTP::check` of the `totp-rs` crate on what `TOTP::new` makes of the parameters with
/// HMAC-SHA1. Claims that parameters are refused as `totp_refusal` says, and that a code is
/// accepted where it is that of one of the steps around `time`. Each of these codes is written with
/// the given number of decimal digits.
#[verifier::external_body]
fn totp_check(
    digits: usize,
    skew: u8,
    step: u64,
    secret: &[u8],
    code: &str,
    time: u64,
) -> (r: Result<bool, String>)
    requires
        steps_in_range(skew as nat, step as nat, time as nat),
    ensures
        match totp_refusal(digits as nat, secret@, None, ""@) {
            Some(e) => r matches Err(text) && text@ == e,
            None => r == Ok::<bool, String>(
                exists|k: int|
                    -(skew as int) <= k <= skew && code@ == #[trigger] totp_code(
                        digits as nat,
                        step as nat,
                        secret@,
                        ((time as nat / step as nat + k) * step) as nat,
                    ),
            ),
        },
        r is Ok ==> forall|k: int|
            -(skew as int) <= k <= skew ==> code_form(
                digits as nat,
                #[trigger] totp_code(
                    digits as nat,
                    step as nat,
                    secret@,
                    ((time as nat / step as nat + k) * step) as nat,
                ),
            ),
{
    TOTP::new(Algorithm::SHA1, digits, skew, step, secret.to_vec(), None, String::new())
        .map(|totp| totp.check(code, time))
        .map_err(|e| e.to_string())
}

/// Calls `TOTP::get_url` of the `totp-rs` crate on what `TOTP::new` makes of the parameters with
/// HMAC-SHA1. Claims that parameters are refused as `totp_refusal` says, and that the URL is the one
/// that `otpauth_url` describes.
#[verifier::external_body]
fn totp_url(
    digits: usize,
    skew: u8,
    step: u64,
    secret: &[u8],
    issuer: &str,
    account: &str,
) -> (r: Result<String, String>)
    requires
        encodable(secret@),
    ensures
        match totp_refusal(digits as nat, secret@, Some(issuer@), account@) {
            Some(e) => r matches Err(text) && text@ == e,
            None => r matches Ok(url) && url@ == otpauth_url(
                digits as nat,
                step as nat,
                secret@,
                issuer@,
                account@,
            ),
        },
{
    let issuer = Some(issuer.to_owned());
    TOTP::new(Algorithm::SHA1, digits, skew, step, secret.to_vec(), issuer, account.to_owned())
        .map(|totp| totp.get_url())
        .map_err(|e| e.to_string())
}

/// The secret and the URL that an account is shown to set up an authenticator, or why there are
/// none.
pub open spec fn enrollment(secret: Seq<u8>, username: Seq<char>) -> Result<
    (Seq<char>, Seq<char>),
    Seq<char>,
> {
    match totp_refusal(DIGITS as nat, secret, Some(ISSUER@), username) {
        Some(e) => Err("TOTP creation failed: "@ + e),
        None => Ok(
            (base32(secret), otpauth_url(DIGITS as nat, STEP as nat, secret, ISSUER@, username)),
        ),
    }
}

/// An enrollment as characters.
pub open spec fn enrollment_text(r: Result<(String, String), String>) -> Result<
    (Seq<char>, Seq<char>),
    Seq<char>,
> {
    match r {
        Ok((secret, url)) => Ok((secret@, url@)),
        Err(e) => Err(e@),
    }
}

/// Makes the enrollment of an account from the bytes of its secret.
pub fn totp_enrollment(secret: &[u8], username: &str) -> (r: Result<(String, String), String>)
    requires
        encodable(secret@),
    ensures
        enrollment_text(r) == enrollment(secret@, username@),
{
    match totp_url(DIGITS, SKEW, STEP, secret, ISSUER, username) {
        Ok(url) => Ok((encode_base32(secret), url)),
        Err(e) => Err(join("TOTP creation failed: ", e.as_str())),
    }
}

/// Whether a secret was drawn from the system's random source.
pub closed spec fn fresh_secret(secret: Seq<u8>) -> bool {
    exists|r: Result<Vec<u8>, String>| #[trigger]
        call_ensures(random_secret, (), r) && r is Ok && r->Ok_0@ == secret
}

/// A fresh secret is one that the random source gave.
pub(crate) proof fn a_fresh_secret_comes_from_the_source(secret: Seq<u8>)
    requires
        fresh_secret(secret),
    ensures
        exists|r: Result<Vec<u8>, String>| #[trigger]
            call_ensures(random_secret, (), r) && r is Ok && r->Ok_0@ == secret,
{
}

/// Draws a secret for an account and makes its enrollment.
pub fn generate_totp_secret(username: &str) -> (r: Result<(String, String), String>)
    ensures
        exists|secret: Seq<u8>|
            fresh_secret(secret) && secret.len() == 20 && enrollment_text(r)
                == #[trigger] enrollment(secret, username@),
{
    let drawn = outcome(random_secret);
    assert(fresh_secret(drawn->Ok_0@));
    match drawn {
        Ok(secret) => totp_enrollment(secret.as_slice(), username),
        Err(e) => Err(join("Secret error: ", e.as_str())),
    }
}

/// Whether codes can be checked at a reading of the clock.
pub open spec fn code_time(clock: Option<u64>) -> bool {
    clock matches Some(t) ==> steps_in_range(SKEW as nat, STEP as nat, t as nat)
}

/// The reading at which a code is checked: one at which codes cannot be computed counts as none.
pub open spec fn usable_clock(clock: Option<u64>) -> Option<u64> {
    if code_time(clock) {
        clock
    } else {
        None
    }
}

/// What is said of a code against a secret in base-32 text at a reading of the clock. Without a
/// reading no code is accepted.
pub open spec fn totp_verdict(
    secret: Seq<char>,
    code: Seq<char>,
    clock: Option<u64>,
) -> Result<bool, Seq<char>> {
    match base32_bytes(secret) {
        None => Err("Invalid secret: "@ + "Could not decode base32 secret."@),
        Some(bytes) => match totp_refusal(DIGITS as nat, bytes, None, ""@) {
            Some(e) => Err("TOTP error: "@ + e),
            None => Ok(
                clock is Some && totp_accepts(
                    DIGITS as nat,
                    SKEW as nat,
                    STEP as nat,
                    bytes,
                    code,
                    clock->0 as nat,
                ),
            ),
        },
    }
}

/// An answer on a code, or the text of an error, as characters.
pub open spec fn verdict_text(r: Result<bool, String>) -> Result<bool, Seq<char>> {
    match r {
        Ok(b) => Ok(b),
        Err(e) => Err(e@),
    }
}

/// Checks a code against a secret at a reading of the clock.
pub fn verify_totp_code_at(secret: &str, code: &str, clock: Option<u64>) -> (r: Result<
    bool,
    String,
>)
    requires
        code_time(clock),
    ensures
        verdict_text(r) == totp_verdict(secret@, code@, clock),
        r == Ok::<bool, String>(true) ==> code_form(DIGITS as nat, code@),
{
    let bytes: Vec<u8> = match decode_base32(secret) {
        Ok(bytes) => bytes,
        Err(e) => return Err(join("Invalid secret: ", e.as_str())),
    };
    // Parameters are refused whether or not there is a reading, at any time of the clock.
    let time: u64 = match clock {
        Some(t) => t,
        None => STEP,
    };
    match totp_check(DIGITS, SKEW, STEP, bytes.as_slice(), code, time) {
        Ok(accepted) => Ok(clock.is_some() && accepted),
        Err(e) => Err(join("TOTP error: ", e.as_str())),
    }
}

/// Checks a code against a secret now. A reading of the clock at which codes cannot be computed
/// counts as none.
pub fn verify_totp_code(secret: &str, code: &str) -> (r: Result<bool, String>)
    ensures
        exists|clock: Option<u64>| #[trigger]
            clock_reading(clock) && verdict_text(r) == totp_verdict(
                secret@,
                code@,
                usable_clock(clock),
            ),
        r == Ok::<bool, String>(true) ==> code_form(DIGITS as nat, code@),
{
    let clock: Option<u64> = read_clock();
    verify_totp_code_at(secret, code, code_clock(clock))
}

/// The reading at which codes are checked: one at which they cannot be computed counts as none.
pub fn code_clock(clock: Option<u64>) -> (r: Option<u64>)
    ensures
        r == usable_clock(clock),
{
    match clock {
        Some(t) => {
            let step: u64 = t / STEP;
            if SKEW as u64 <= step && step < u64::MAX / STEP {
                Some(t)
            } else {
                None
            }
        },
        None => None,
    }
}

/// The secret that an enrollment shows stands for the bytes it was made from.
pub proof fn enrolled_secret_reads_back(secret: Seq<u8>, username: Seq<char>)
    requires
        enrollment(secret, username) is Ok,
    ensures
        base32_bytes(enrollment(secret, username)->Ok_0.0) == Some(secret),
{
    base32_round_trip(secret);
}

/// The URL of an enrollment carries the secret that is shown beside it.
pub proof fn enrollment_url_carries_secret(secret: Seq<u8>, username: Seq<char>)
    requires
        enrollment(secret, username) is Ok,
    ensures
        occurs(enrollment(secret, username)->Ok_0.0, enrollment(secret, username)->Ok_0.1),
{
    let url = enrollment(secret, username)->Ok_0.1;
    let service = percent_encoded(encode_utf8(ISSUER@));
    let head = "otpauth://totp/"@ + service + ":"@ + percent_encoded(encode_utf8(username))
        + "?secret="@;
    let n = head.len() as int;
    assert(url.subrange(n, n + base32(secret).len()) =~= base32(secret));
}

/// An account whose name has no colon can be enrolled with any secret of 128 bits or more.
pub proof fn enrollment_succeeds(secret: Seq<u8>, username: Seq<char>)
    requires
        secret.len() >= 16,
        !username.contains(':'),
    ensures
        enrollment(secret, username) is Ok,
{
    reveal_strlit("Redlib");
}

/// An enrolled secret accepts its own code of the current step and of the steps beside it.
pub proof fn enrolled_secret_accepts_its_codes(
    secret: Seq<u8>,
    username: Seq<char>,
    time: u64,
    k: int,
)
    requires
        enrollment(secret, username) is Ok,
        code_time(Some(time)),
        -(SKEW as int) <= k <= SKEW,
    ensures
        totp_verdict(
            enrollment(secret, username)->Ok_0.0,
            totp_code(
                DIGITS as nat,
                STEP as nat,
                secret,
                ((time as nat / STEP as nat + k) * STEP) as nat,
            ),
            Some(time),
        ) == Ok::<bool, Seq<char>>(true),
{
    base32_round_trip(secret);
    reveal_strlit("");
}

} // verus!
