//! What the parts give that accounts are built from: texts, fields, columns, passwords, tokens,
//! cookies and codes.

use std::time::{Duration, SystemTimeError};
use vstd::prelude::*;
use vstd::utf8::encode_utf8;

use crate::clock::{clock_reading, whole_seconds};
use crate::encoding::{base32, base32_bytes, base64url};
use crate::form::{digits_value, field, is_digits, value_or, written_number};
use crate::password::{
    accepts, argon2_phc, argon2_verdict, asks_too_many_lanes, fresh_salt, hash_password,
    hash_password_with_salt, lanes_at, nine_digits_at, report_hash, too_many_lanes, verify_password,
};
use crate::session::{
    cookie_date, fresh_bytes, generate_session_token, present_time, seconds_of, session_cookie_at,
    session_end_at, set_session_cookie, set_session_cookie_at, token_of, Fault, SameSite,
    SessionCookie,
};
use crate::sql::{read_flag, read_integer, read_text, Value};
use crate::text::{characters, contains, decimal, join, text_eq};
use crate::totp::{
    code_clock, generate_totp_secret, percent_encoded, totp_code, totp_enrollment, unreserved,
    verify_totp_code, verify_totp_code_at,
};

verus! {

// ---------------------------------------------------------------------------------------------
// Text
// ---------------------------------------------------------------------------------------------
/// Two texts are the same exactly where they have the same characters.
pub proof fn equal_texts_have_equal_characters(a: &str, b: &str, r: bool)
    requires
        call_ensures(text_eq, (a, b), r),
    ensures
        r <==> a@.len() == b@.len() && forall|i: int| 0 <= i < a@.len() ==> a@[i] == #[trigger] b@[i],
{
    if a@.len() == b@.len() && forall|i: int| 0 <= i < a@.len() ==> a@[i] == #[trigger] b@[i] {
        assert(a@ =~= b@);
    }
}

/// A joined text is the one and then the other.
pub proof fn joined_texts_stand_in_order(a: &str, b: &str, r: String)
    requires
        call_ensures(join, (a, b), r),
    ensures
        r@.len() == a@.len() + b@.len(),
        r@.take(a@.len() as int) == a@,
        r@.skip(a@.len() as int) == b@,
{
    assert(r@.take(a@.len() as int) =~= a@);
    assert(r@.skip(a@.len() as int) =~= b@);
}

/// The characters of a text are all of its characters, in order.
pub proof fn all_characters_are_given(s: &str, r: Vec<char>)
    requires
        call_ensures(characters, (s,), r),
    ensures
        r@.len() == s@.len(),
        forall|i: int| 0 <= i < s@.len() ==> r@[i] == #[trigger] s@[i],
{
}

/// A text contains another exactly where that stands between two parts of it.
pub proof fn a_contained_text_stands_between(hay: &str, needle: &str, r: bool)
    requires
        call_ensures(contains, (hay, needle), r),
    ensures
        r <==> exists|before: Seq<char>, after: Seq<char>|
            hay@ == #[trigger] (before + needle@ + after),
{
    let n = needle@.len();
    if exists|before: Seq<char>, after: Seq<char>| hay@ == #[trigger] (before + needle@ + after) {
        let (before, after) = choose|before: Seq<char>, after: Seq<char>|
            hay@ == #[trigger] (before + needle@ + after);
        let i = before.len() as int;
        assert(hay@.subrange(i, i + n) =~= needle@);
    }
    if r {
        let i = choose|i: int|
            0 <= i <= hay@.len() - n && #[trigger] hay@.subrange(i, i + n) == needle@;
        assert(hay@ =~= hay@.take(i) + needle@ + hay@.skip(i + n));
    }
}

/// The decimal digits of a number stand for that number.
pub proof fn decimal_digits_stand_for_their_number(n: nat)
    ensures
        decimal(n).len() > 0,
        is_digits(decimal(n)),
        digits_value(decimal(n)) == n,
    decreases n,
{
    if n >= 10 {
        decimal_digits_stand_for_their_number(n / 10);
        assert(decimal(n).drop_last() =~= decimal(n / 10));
    } else {
        assert(decimal(n).drop_last() =~= Seq::empty());
        reveal_with_fuel(digits_value, 2);
    }
}

/// A number that is written in decimal digits is read as that number, with a sign or without.
pub proof fn a_written_number_is_read(n: nat)
    requires
        n <= i64::MAX,
    ensures
        written_number(decimal(n)) == Some(n as i64),
        written_number(seq!['+'] + decimal(n)) == Some(n as i64),
        written_number(seq!['-'] + decimal(n)) == Some((-(n as int)) as i64),
{
    decimal_digits_stand_for_their_number(n);
    let d = decimal(n);
    assert('0' <= d[0] <= '9');
    assert((seq!['+'] + d).skip(1) =~= d);
    assert((seq!['-'] + d).skip(1) =~= d);
}

// ---------------------------------------------------------------------------------------------
// Forms
// ---------------------------------------------------------------------------------------------
/// Whether a form gives a field this value: the value of the last pair that bears the name, or
/// another text where no pair does.
pub open spec fn gives(
    pairs: Seq<(Seq<char>, Seq<char>)>,
    name: Seq<char>,
    other: Seq<char>,
    value: Seq<char>,
) -> bool {
    ||| exists|i: int|
        0 <= i < pairs.len() && (#[trigger] pairs[i]).0 == name && pairs[i].1 == value && forall|
            j: int,
        |
            i < j < pairs.len() ==> (#[trigger] pairs[j]).0 != name
    ||| value == other && forall|j: int| 0 <= j < pairs.len() ==> (#[trigger] pairs[j]).0 != name
}

/// The pairs of a form as characters.
pub open spec fn pairs_of(pairs: Seq<(String, String)>) -> Seq<(Seq<char>, Seq<char>)> {
    Seq::new(pairs.len(), |i: int| (pairs[i].0@, pairs[i].1@))
}

pub(crate) proof fn lemma_gives(
    pairs: Seq<(Seq<char>, Seq<char>)>,
    name: Seq<char>,
    other: Seq<char>,
)
    ensures
        gives(pairs, name, other, value_or(pairs, name, other)),
        forall|value: Seq<char>| #[trigger]
            gives(pairs, name, other, value) ==> value == value_or(
                pairs,
                name,
                other,
            ),
    decreases pairs.len(),
{
    if pairs.len() > 0 {
        let init = pairs.drop_last();
        let n = pairs.len() - 1;
        lemma_gives(init, name, other);
        let v = value_or(pairs, name, other);
        if pairs.last().0 == name {
            assert(pairs[n].0 == name && pairs[n].1 == v);
        } else {
            assert(v == value_or(init, name, other));
            assert(gives(init, name, other, v));
            if exists|i: int|
                0 <= i < init.len() && (#[trigger] init[i]).0 == name && init[i].1 == v && forall|
                    j: int,
                |
                    i < j < init.len() ==> (#[trigger] init[j]).0 != name {
                let i = choose|i: int|
                    0 <= i < init.len() && (#[trigger] init[i]).0 == name && init[i].1 == v
                        && forall|j: int| i < j < init.len() ==> (#[trigger] init[j]).0 != name;
                assert(pairs[i].0 == name && pairs[i].1 == v);
                assert forall|j: int| i < j < pairs.len() implies (#[trigger] pairs[j]).0
                    != name by {
                    if j < n {
                        assert(init[j].0 != name);
                    }
                }
            } else {
                assert forall|j: int| 0 <= j < pairs.len() implies (#[trigger] pairs[j]).0
                    != name by {
                    if j < n {
                        assert(init[j].0 != name);
                    }
                }
            }
        }
        assert forall|value: Seq<char>| #[trigger] gives(pairs, name, other, value) implies value
            == v by {
            if exists|i: int|
                0 <= i < pairs.len() && (#[trigger] pairs[i]).0 == name && pairs[i].1 == value
                    && forall|j: int| i < j < pairs.len() ==> (#[trigger] pairs[j]).0 != name {
                let i = choose|i: int|
                    0 <= i < pairs.len() && (#[trigger] pairs[i]).0 == name && pairs[i].1 == value
                        && forall|j: int| i < j < pairs.len() ==> (#[trigger] pairs[j]).0 != name;
                if i < n {
                    assert(pairs[n].0 != name);
                    assert(init[i].0 == name && init[i].1 == value);
                    assert forall|j: int| i < j < init.len() implies (#[trigger] init[j]).0
                        != name by {
                        assert(pairs[j].0 != name);
                    }
                    assert(gives(init, name, other, value));
                }
            } else {
                assert(pairs[n].0 != name);
                assert forall|j: int| 0 <= j < init.len() implies (#[trigger] init[j]).0 != name by {
                    assert(pairs[j].0 != name);
                }
                assert(gives(init, name, other, value));
            }
        }
    }
}

/// A field is read as the form gives it.
pub proof fn a_field_is_read_as_given(
    pairs: &Vec<(String, String)>,
    name: &str,
    other: &str,
    r: String,
)
    requires
        call_ensures(field, (pairs, name, other), r),
    ensures
        gives(pairs_of(pairs@), name@, other@, r@),
{
    lemma_gives(pairs_of(pairs@), name@, other@);
    assert(pairs_of(pairs@) =~= crate::form::pairs_view(pairs@));
}

// ---------------------------------------------------------------------------------------------
// Columns
// ---------------------------------------------------------------------------------------------
/// A text in a column is read as it is, whatever its length; anything else is no text.
pub proof fn a_text_column_is_read(row: &Vec<Value>, column: usize, r: Option<String>)
    requires
        call_ensures(read_text, (row, column), r),
    ensures
        r is Some <==> column < row@.len() && row@[column as int] is Text,
        r is Some ==> r->0@ == row@[column as int]->Text_0@,
{
    let c = crate::sql::cells(row@);
    if column < row@.len() {
        assert(c[column as int] == row@[column as int]@);
    }
}

/// A number in a column is read as it is; anything else is no number.
pub proof fn a_number_column_is_read(row: &Vec<Value>, column: usize, r: Option<i64>)
    requires
        call_ensures(read_integer, (row, column), r),
    ensures
        r is Some <==> column < row@.len() && row@[column as int] is Integer,
        r is Some ==> r->0 == row@[column as int]->Integer_0,
{
    let c = crate::sql::cells(row@);
    if column < row@.len() {
        assert(c[column as int] == row@[column as int]@);
    }
}

/// A flag is a number of 32 bits, and set where it is not zero.
pub proof fn a_flag_column_is_read(row: &Vec<Value>, column: usize, r: Option<bool>)
    requires
        call_ensures(read_flag, (row, column), r),
    ensures
        r is Some <==> column < row@.len() && row@[column as int] is Integer && i32::MIN
            <= row@[column as int]->Integer_0 <= i32::MAX,
        r is Some ==> (r->0 <==> row@[column as int]->Integer_0 != 0),
{
    let c = crate::sql::cells(row@);
    if column < row@.len() {
        assert(c[column as int] == row@[column as int]@);
    }
}

// ---------------------------------------------------------------------------------------------
// Passwords
// ---------------------------------------------------------------------------------------------
/// A password is accepted only where Argon2 accepts it, and wherever it does on a hash whose lanes
/// it can have.
pub proof fn argon2_decides_on_passwords(password: &str, hash: &str, r: bool)
    requires
        call_ensures(verify_password, (password, hash), r),
    ensures
        r ==> argon2_verdict(password@, hash@) == Some(true),
        argon2_verdict(password@, hash@) == Some(true) && !too_many_lanes(hash@) ==> r,
{
}

/// A hash that was made accepts the password it was made of, whatever that is.
pub proof fn a_hash_accepts_its_password(
    password: &str,
    made: Result<String, String>,
    hash: &str,
    r: bool,
)
    requires
        call_ensures(hash_password, (password,), made),
        made is Ok,
        hash@ == made->Ok_0@,
        call_ensures(verify_password, (password, hash), r),
    ensures
        r,
{
}

/// Every password whose length fits in 32 bits gets a hash; one without says why.
pub proof fn every_password_gets_a_hash(password: &str, r: Result<String, String>)
    requires
        call_ensures(hash_password, (password,), r),
    ensures
        encode_utf8(password@).len() <= u32::MAX ==> r is Ok,
        r matches Ok(h) ==> exists|salt: Seq<char>|
            fresh_salt(salt) && salt.len() == 22 && #[trigger] argon2_phc(password@, salt) == Ok::<
                Seq<char>,
                Seq<char>,
            >(h@) && ("$argon2id$v=19$m=19456,t=2,p=1$"@ + salt + "$"@).is_prefix_of(h@),
        r matches Err(e) ==> "Password hashing failed: "@.is_prefix_of(e@),
{
    if let Ok(h) = r {
        let salt = choose|salt: Seq<char>|
            crate::password::fresh_salt(salt) && crate::password::drawn_salt(salt) && Ok::<
                Seq<char>,
                Seq<char>,
            >(h@) == crate::password::hash_report(#[trigger] argon2_phc(password@, salt)) && (
            crate::password::phc_head(salt).is_prefix_of(h@));
        assert(fresh_salt(salt) && salt.len() == 22);
    }
    if let Err(e) = r {
        let salt = choose|salt: Seq<char>|
            crate::password::fresh_salt(salt) && crate::password::drawn_salt(salt) && Err::<
                Seq<char>,
                Seq<char>,
            >(e@) == crate::password::hash_report(#[trigger] argon2_phc(password@, salt));
        let head = "Password hashing failed: "@;
        assert(head =~= e@.subrange(0, head.len() as int));
    }
}

/// With a given salt the hash is what Argon2 makes of the password and the salt, and a failure is
/// told under a heading.
pub proof fn a_salted_hash_is_argon2s(password: &str, salt: &str, r: Result<String, String>)
    requires
        call_ensures(hash_password_with_salt, (password, salt), r),
    ensures
        argon2_phc(password@, salt@) matches Ok(h) ==> r is Ok && r->Ok_0@ == h,
        argon2_phc(password@, salt@) matches Err(e) ==> r is Err && r->Err_0@
            == "Password hashing failed: "@ + e,
{
}

/// A hash is passed on, and a failure told under a heading.
pub proof fn hashing_is_reported(made: Result<String, String>, r: Result<String, String>)
    requires
        call_ensures(report_hash, (made,), r),
    ensures
        made matches Ok(h) ==> r is Ok && r->Ok_0@ == h@,
        made matches Err(e) ==> r is Err && r->Err_0@ == "Password hashing failed: "@ + e@,
{
}

/// Only a verdict that accepts counts as one.
pub proof fn only_acceptance_accepts(verdict: Option<bool>, r: bool)
    requires
        call_ensures(accepts, (verdict,), r),
    ensures
        r <==> verdict is Some && verdict->0,
{
}

/// A hash asks for too many lanes exactly where the number that it gives last has nine digits or
/// more.
pub proof fn the_last_number_of_lanes_counts(
    head: Seq<char>,
    number: Seq<char>,
    tail: Seq<char>,
    hash: &str,
    r: bool,
)
    requires
        call_ensures(asks_too_many_lanes, (hash,), r),
        hash@ == head + seq!['p', '='] + number + tail,
        is_digits(number),
        tail.len() > 0 ==> !('0' <= tail[0] <= '9'),
        forall|j: int|
            0 <= j < tail.len() - 1 ==> !((#[trigger] tail[j]) == 'p' && tail[j + 1] == '='),
        number.len() == 0 && tail.len() > 0 ==> tail[0] != '=',
    ensures
        r <==> number.len() >= 9,
{
    let h = hash@;
    let i = head.len() as int;
    let n = number.len() as int;
    assert(h[i] == 'p' && h[i + 1] == '=');
    assert(lanes_at(h, i));
    assert forall|k: int| 0 <= k < n implies h[i + 2 + k] == #[trigger] number[k] by {}
    assert forall|k: int| 0 <= k < tail.len() implies h[i + 2 + n + k] == #[trigger] tail[k] by {}
    assert forall|j: int| i < j implies !#[trigger] lanes_at(h, j) by {
        if lanes_at(h, j) {
            if j >= i + 2 + n {
                let k = j - (i + 2 + n);
                assert(h[i + 2 + n + k] == tail[k]);
                assert(h[i + 2 + n + (k + 1)] == tail[k + 1]);
                assert(!(tail[k] == 'p' && tail[k + 1] == '='));
            } else if j >= i + 2 {
                let k = j - (i + 2);
                assert('0' <= number[k] <= '9');
            }
        }
    }
    if n >= 9 {
        assert forall|j: int| i + 2 <= j < i + 2 + 9 implies '0' <= #[trigger] h[j] <= '9' by {
            assert(h[i + 2 + (j - i - 2)] == number[j - i - 2]);
        }
        assert(nine_digits_at(h, i + 2));
    } else {
        assert forall|m: int| #[trigger] lanes_at(h, m) && nine_digits_at(h, m + 2) && (forall|
            j: int,
        |
            m < j ==> !#[trigger] lanes_at(h, j)) implies n >= 9 by {
            assert(!(m < i));
            assert(m == i);
            assert(tail.len() > 0);
            assert('0' <= h[i + 2 + n + 0] <= '9');
            assert(h[i + 2 + n + 0] == tail[0]);
        }
    }
}

/// A hash that gives no number of lanes does not ask for too many.
pub proof fn no_number_of_lanes_is_not_too_many(hash: &str, r: bool)
    requires
        call_ensures(asks_too_many_lanes, (hash,), r),
        forall|j: int|
            0 <= j < hash@.len() - 1 ==> !((#[trigger] hash@[j]) == 'p' && hash@[j + 1] == '='),
    ensures
        !r,
{
    if r {
        let i = choose|i: int| #[trigger]
            lanes_at(hash@, i) && nine_digits_at(hash@, i + 2) && forall|j: int|
                i < j ==> !#[trigger] lanes_at(hash@, j);
        assert(hash@[i] == 'p');
    }
}

// ---------------------------------------------------------------------------------------------
// Sessions and cookies
// ---------------------------------------------------------------------------------------------
/// Tokens of different bytes differ, and each has 43 characters.
pub proof fn different_bytes_make_different_tokens(a: &[u8], b: &[u8], of_a: String, of_b: String)
    requires
        a@.len() == 32,
        b@.len() == 32,
        call_ensures(token_of, (a,), of_a),
        call_ensures(token_of, (b,), of_b),
    ensures
        of_a@ == of_b@ <==> a@ == b@,
        of_a@.len() == 43,
        of_a@ == base64url(a@),
{
    if a@ != b@ {
        crate::session::tokens_differ(a@, b@);
    }
}

/// A generated token is that of 32 bytes from the random source; only a source that gives none
/// leaves it without.
pub proof fn a_generated_token_has_32_bytes(r: Result<String, Fault>)
    requires
        call_ensures(generate_session_token, (), r),
    ensures
        r matches Ok(token) ==> token@.len() == 43 && exists|bytes: Seq<u8>|
            fresh_bytes(Ok(bytes)) && bytes.len() == 32 && token@ == #[trigger] base64url(bytes),
        r matches Err(fault) ==> fault == Fault::NoRandomBytes && fresh_bytes(Err(fault)),
{
    let d = choose|d: Result<Seq<u8>, Fault>|
        crate::session::fresh_bytes(d) && crate::session::token_text(r)
            == #[trigger] crate::session::token_of_draw(d) && match d {
            Ok(bytes) => bytes.len() == crate::session::TOKEN_BYTES,
            Err(fault) => fault == Fault::NoRandomBytes,
        };
    if let Ok(token) = r {
        assert(token@ == base64url(d->Ok_0));
    }
}

/// A time since the Unix epoch is read as its whole seconds; a time before it is not read.
pub proof fn a_time_is_read_as_whole_seconds(
    elapsed: Result<Duration, SystemTimeError>,
    r: Option<u64>,
)
    requires
        call_ensures(whole_seconds, (elapsed,), r),
    ensures
        elapsed matches Ok(d) ==> r is Some && call_ensures(Duration::as_secs, (&d,), r->0),
        elapsed is Err ==> r is None,
{
}

/// The time that a reading of the clock is taken as: its seconds as a number of 64 bits with a sign,
/// and zero without a reading.
pub open spec fn time_of(clock: Option<u64>) -> int {
    match clock {
        Some(t) => if t <= i64::MAX {
            t as int
        } else {
            t - 0x1_0000_0000_0000_0000
        },
        None => 0,
    }
}

pub(crate) proof fn lemma_time_of(clock: Option<u64>)
    ensures
        crate::session::unix_time(clock) == time_of(clock),
{
    if let Some(t) = clock {
        assert(t > 0x7fff_ffff_ffff_ffff ==> (t as i64) as int == t - 0x1_0000_0000_0000_0000)
            by (bit_vector);
    }
}

/// A reading of the clock is its seconds; no reading is zero.
pub proof fn a_reading_is_its_seconds(clock: Option<u64>, r: i64)
    requires
        call_ensures(seconds_of, (clock,), r),
    ensures
        r == time_of(clock),
{
    lemma_time_of(clock);
}

/// A session ends 604800 seconds after it is opened, where that is a number of 64 bits.
pub proof fn a_session_ends_after_seven_days(clock: Option<u64>, r: Option<i64>)
    requires
        call_ensures(session_end_at, (clock,), r),
    ensures
        r is Some <==> time_of(clock) + 604800 <= i64::MAX,
        r is Some ==> r->0 == time_of(clock) + 604800,
{
    lemma_time_of(clock);
}

/// The session cookie carries the very token to every page, out of scripts' reach, over secure
/// connections, and is dropped after seven days.
pub proof fn the_cookie_carries_the_token(token: &str, now: i64, r: Option<SessionCookie>)
    requires
        call_ensures(session_cookie_at, (token, now), r),
    ensures
        r is Some <==> -377705116800 <= now + 604800 <= 253402300799,
        r matches Some(c) ==> c.name@ == "redlib_session"@ && c.value@ == token@ && c.path@ == "/"@
            && c.http_only && c.secure && c.same_site == SameSite::Lax && c.expires == now + 604800,
{
}

/// What the header says that sets a session cookie.
pub open spec fn sets_the_cookie(header: Seq<char>, token: Seq<char>, now: int) -> bool {
    header == "redlib_session"@ + "="@ + token + "; HttpOnly"@ + "; SameSite="@ + "Lax"@
        + "; Secure"@ + "; Path="@ + "/"@ + "; Expires="@ + cookie_date(now + 604800)
}

/// The header that sets the cookie says so in full.
pub proof fn the_header_sets_the_cookie(token: &str, now: i64, r: Option<String>)
    requires
        call_ensures(set_session_cookie_at, (token, now), r),
    ensures
        r is Some <==> -377705116800 <= now + 604800 <= 253402300799,
        r matches Some(header) ==> sets_the_cookie(header@, token@, now as int),
{
}

/// The header that sets the cookie now does so from the present time on.
pub proof fn the_header_sets_the_cookie_now(token: &str, r: Option<String>)
    requires
        call_ensures(set_session_cookie, (token,), r),
    ensures
        exists|now: i64| #[trigger]
            present_time(now) && (r is Some <==> -377705116800 <= now + 604800 <= 253402300799) && (
            r is Some ==> sets_the_cookie(r->0@, token@, now as int)),
{
    let now = choose|now: i64| #[trigger]
        present_time(now) && crate::session::has_cookie_date(now + 604800) == (r is Some) && (
        r matches Some(header) ==> header@ == crate::session::cookie_header(
            crate::session::session_cookie(token@, now as int),
        ));
    assert(present_time(now));
}

// ---------------------------------------------------------------------------------------------
// One-time passwords
// ---------------------------------------------------------------------------------------------
/// The code of a secret at the step that lies `k` steps from the one of a time.
pub open spec fn code_near(secret: Seq<u8>, time: u64, k: int) -> Seq<char> {
    totp_code(6, 30, secret, ((time as nat / 30 + k) * 30) as nat)
}

/// A code is accepted exactly where it is that of the current step of 30 seconds or of the one
/// before or after it; a secret that is none is refused with the reason, at any time.
pub proof fn codes_of_three_steps_are_accepted(
    secret: &str,
    code: &str,
    clock: Option<u64>,
    r: Result<bool, String>,
)
    requires
        call_requires(verify_totp_code_at, (secret, code, clock)),
        call_ensures(verify_totp_code_at, (secret, code, clock), r),
        clock matches Some(t) ==> 30 <= t <= u64::MAX - 16,
    ensures
        base32_bytes(secret@) is None ==> r is Err && r->Err_0@ == "Invalid secret: "@
            + "Could not decode base32 secret."@,
        base32_bytes(secret@) is Some && base32_bytes(secret@)->0.len() < 16 ==> r is Err && r->Err_0@
            == "TOTP error: "@ + ("The length of the shared secret MUST be at least 128 bits. "@
            + decimal(8 * base32_bytes(secret@)->0.len()) + " bits is not enough"@),
        (base32_bytes(secret@) is Some && base32_bytes(secret@)->0.len() >= 16) ==> r is Ok,
        r is Ok && clock is None ==> r == Ok::<bool, String>(false),
        r is Ok && clock is Some ==> (r->Ok_0 <==> code@ == code_near(
            base32_bytes(secret@)->0,
            clock->0,
            -1,
        ) || code@ == code_near(base32_bytes(secret@)->0, clock->0, 0) || code@ == code_near(
            base32_bytes(secret@)->0,
            clock->0,
            1,
        )),
{
    reveal_strlit("");
    if r is Ok && clock is Some {
        let b = base32_bytes(secret@)->0;
        let t = clock->0 as nat;
        assert(code_near(b, clock->0, -1) == totp_code(6, 30, b, ((t / 30 + -1) * 30) as nat));
        assert(code_near(b, clock->0, 0) == totp_code(6, 30, b, ((t / 30 + 0) * 30) as nat));
        assert(code_near(b, clock->0, 1) == totp_code(6, 30, b, ((t / 30 + 1) * 30) as nat));
    }
}

/// Codes are checked at the clock's reading, unless it is so near an end of the machine's numbers
/// that they cannot be computed.
pub proof fn codes_are_checked_at_the_reading(clock: Option<u64>, r: Option<u64>)
    requires
        call_ensures(code_clock, (clock,), r),
    ensures
        clock is Some && 30 <= clock->0 <= u64::MAX - 16 ==> r == clock,
        clock is Some && !(30 <= clock->0 <= u64::MAX - 16) ==> r is None,
        clock is None ==> r is None,
{
}

/// A code is checked now as it is at a reading of the clock.
pub proof fn codes_are_checked_now(secret: &str, code: &str, r: Result<bool, String>)
    requires
        call_ensures(verify_totp_code, (secret, code), r),
    ensures
        exists|clock: Option<u64>| #[trigger]
            clock_reading(clock) && forall|usable: Option<u64>, at: Result<bool, String>|
                #![trigger call_ensures(code_clock, (clock,), usable), call_ensures(
                    verify_totp_code_at,
                    (secret, code, usable),
                    at,
                )]
                call_ensures(code_clock, (clock,), usable) && call_requires(
                    verify_totp_code_at,
                    (secret, code, usable),
                ) && call_ensures(verify_totp_code_at, (secret, code, usable), at) ==> (r is Ok
                    <==> at is Ok) && (r is Ok ==> r->Ok_0 == at->Ok_0) && (r is Err ==> r->Err_0@
                    == at->Err_0@),
{
    let clock = choose|clock: Option<u64>| #[trigger]
        clock_reading(clock) && crate::totp::verdict_text(r) == crate::totp::totp_verdict(
            secret@,
            code@,
            crate::totp::usable_clock(clock),
        );
    assert(clock_reading(clock));
}

/// Bytes that stand for themselves are written as they are.
proof fn lemma_plain_is_not_encoded(text: Seq<char>)
    requires
        vstd::utf8::is_ascii_chars(text),
        forall|i: int| 0 <= i < text.len() ==> unreserved((#[trigger] text[i]) as u8),
    ensures
        percent_encoded(encode_utf8(text)) == text,
{
    vstd::utf8::is_ascii_chars_encode_utf8(text);
    let bytes = encode_utf8(text);
    assert forall|i: int| 0 <= i < bytes.len() implies unreserved(#[trigger] bytes[i]) && bytes[i]
        as char == text[i] by {
        assert(text[i] as u8 == bytes[i]);
    }
    lemma_plain_bytes(bytes, text);
}

proof fn lemma_plain_bytes(bytes: Seq<u8>, text: Seq<char>)
    requires
        bytes.len() == text.len(),
        forall|i: int|
            0 <= i < bytes.len() ==> unreserved(#[trigger] bytes[i]) && bytes[i] as char == text[i],
    ensures
        percent_encoded(bytes) == text,
    decreases bytes.len(),
{
    if bytes.len() > 0 {
        lemma_plain_bytes(bytes.drop_last(), text.drop_last());
        let n = bytes.len() - 1;
        assert(unreserved(bytes[n]));
        assert(text =~= text.drop_last() + seq![text.last()]);
    } else {
        assert(text =~= Seq::empty());
    }
}

/// Whether a name is written as it is in a URL: ASCII letters, digits and underscores.
pub open spec fn plain_in_url(name: Seq<char>) -> bool {
    forall|i: int|
        0 <= i < name.len() ==> 'a' <= (#[trigger] name[i]) <= 'z' || 'A' <= name[i] <= 'Z' || '0'
            <= name[i] <= '9' || name[i] == '_'
}

/// The link that sets up an authenticator with a secret in base-32 text.
pub open spec fn setup_link(username: Seq<char>, secret: Seq<char>) -> Seq<char> {
    "otpauth://totp/"@ + "Redlib"@ + ":"@ + percent_encoded(encode_utf8(username)) + "?secret="@
        + secret + "&issuer="@ + "Redlib"@
}

/// A plain name stands in the link as it is.
pub proof fn a_plain_name_stands_in_the_link(username: Seq<char>, secret: Seq<char>)
    requires
        plain_in_url(username),
    ensures
        setup_link(username, secret) == "otpauth://totp/"@ + "Redlib"@ + ":"@ + username
            + "?secret="@ + secret + "&issuer="@ + "Redlib"@,
{
    assert forall|i: int| 0 <= i < username.len() implies unreserved(
        (#[trigger] username[i]) as u8,
    ) by {}
    lemma_plain_is_not_encoded(username);
}

/// What is said where a name has a colon.
pub open spec fn says_colon(username: Seq<char>) -> Seq<char> {
    "TOTP creation failed: "@ + ("Account Name can't contain a colon. \""@ + username
        + "\" contains a colon"@)
}

pub(crate) proof fn lemma_enrollment(secret: Seq<u8>, username: Seq<char>)
    requires
        secret.len() >= 16,
    ensures
        base32_bytes(base32(secret)) == Some(secret),
        secret.len() == 20 ==> base32(secret).len() == 32,
        !username.contains(':') ==> crate::totp::enrollment(secret, username) == Ok::<
            (Seq<char>, Seq<char>),
            Seq<char>,
        >((base32(secret), setup_link(username, base32(secret)))),
        username.contains(':') ==> crate::totp::enrollment(secret, username) == Err::<
            (Seq<char>, Seq<char>),
            Seq<char>,
        >(says_colon(username)),
{
    reveal_strlit("Redlib");
    reveal_strlit("");
    crate::encoding::base32_round_trip(secret);
    let service = "Redlib"@;
    assert forall|i: int| 0 <= i < service.len() implies unreserved(
        (#[trigger] service[i]) as u8,
    ) by {}
    lemma_plain_is_not_encoded(service);
    if !username.contains(':') {
        crate::totp::enrollment_succeeds(secret, username);
        assert(crate::totp::enrollment(secret, username)->Ok_0.1 =~= setup_link(
            username,
            base32(secret),
        ));
    }
}

/// An enrollment shows the base-32 text of the secret, which stands for the very bytes, and the URL
/// that says the service, the account and the same secret.
pub proof fn an_enrollment_shows_the_secret(
    secret: &[u8],
    username: &str,
    r: Result<(String, String), String>,
)
    requires
        call_requires(totp_enrollment, (secret, username)),
        call_ensures(totp_enrollment, (secret, username), r),
    ensures
        r is Ok <==> secret@.len() >= 16 && !username@.contains(':'),
        r matches Ok((shown, link)) ==> shown@ == base32(secret@) && base32_bytes(shown@) == Some(
            secret@,
        ) && link@ == setup_link(username@, shown@),
        secret@.len() >= 16 && username@.contains(':') ==> r is Err && r->Err_0@ == says_colon(
            username@,
        ),
        secret@.len() < 16 ==> r is Err && r->Err_0@ == "TOTP creation failed: "@ + (
        "The length of the shared secret MUST be at least 128 bits. "@ + decimal(8 * secret@.len())
            + " bits is not enough"@),
{
    reveal_strlit("Redlib");
    reveal_strlit("");
    crate::encoding::base32_round_trip(secret@);
    if secret@.len() >= 16 {
        lemma_enrollment(secret@, username@);
    }
}

/// A secret that an enrollment shows accepts its own codes.
pub proof fn an_enrolled_secret_accepts_its_codes(
    secret: &[u8],
    username: &str,
    enrolled: Result<(String, String), String>,
    shown: &str,
    code: &str,
    time: u64,
    k: int,
    r: Result<bool, String>,
)
    requires
        call_requires(totp_enrollment, (secret, username)),
        call_ensures(totp_enrollment, (secret, username), enrolled),
        enrolled matches Ok((s, _)) && s@ == shown@,
        30 <= time <= u64::MAX - 16,
        call_requires(verify_totp_code_at, (shown, code, Some(time))),
        call_ensures(verify_totp_code_at, (shown, code, Some(time)), r),
        -1 <= k <= 1,
        code@ == code_near(secret@, time, k),
    ensures
        r == Ok::<bool, String>(true),
{
    reveal_strlit("");
    crate::encoding::base32_round_trip(secret@);
    codes_of_three_steps_are_accepted(shown, code, Some(time), r);
}

/// A drawn secret has 20 bytes and is shown as an enrollment shows it.
pub proof fn a_drawn_secret_is_shown(username: &str, r: Result<(String, String), String>)
    requires
        call_ensures(generate_totp_secret, (username,), r),
    ensures
        r is Ok <==> !username@.contains(':'),
        r matches Ok((shown, link)) ==> shown@.len() == 32 && (base32_bytes(shown@) matches Some(b)
            && b.len() == 20 && crate::totp::fresh_secret(b)) && link@ == setup_link(
            username@,
            shown@,
        ),
        r matches Err(e) ==> e@ == says_colon(username@),
{
    reveal_strlit("Redlib");
    reveal_strlit("");
    let secret = choose|secret: Seq<u8>|
        crate::totp::fresh_secret(secret) && secret.len() == 20 && crate::totp::enrollment_text(r)
            == #[trigger] crate::totp::enrollment(secret, username@);
    crate::encoding::base32_round_trip(secret);
    lemma_enrollment(secret, username@);
}

} // verus!
