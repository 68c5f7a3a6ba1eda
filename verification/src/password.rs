//! Password hashing and checking with Argon2.

use argon2::password_hash::rand_core::OsRng;
use argon2::password_hash::{PasswordHash, PasswordHasher, PasswordVerifier, Salt, SaltString};
use argon2::Argon2;
use vstd::prelude::*;
use vstd::utf8::encode_utf8;

use crate::calls::outcome;
use crate::encoding::b64;
use crate::text::{characters, join, text_result};

verus! {

/// What Argon2 with its default parameters makes of a password and a salt in B64 text: the hash as
/// a PHC string, or the message of its error.
pub uninterp spec fn argon2_phc(password: Seq<char>, salt: Seq<char>) -> Result<
    Seq<char>,
    Seq<char>,
>;

/// What Argon2 says of a password against a stored hash: nothing where the hash is no PHC string,
/// else whether the password is the one that was hashed.
pub uninterp spec fn argon2_verdict(password: Seq<char>, hash: Seq<char>) -> Option<bool>;

/// Whether a salt is one that can be drawn: the B64 text of 16 bytes.
pub open spec fn drawn_salt(salt: Seq<char>) -> bool {
    exists|bytes: Seq<u8>| bytes.len() == 16 && salt == #[trigger] b64(bytes)
}

/// Whether a password is short enough for Argon2, which counts its bytes in 32 bits.
pub open spec fn hashable(password: Seq<char>) -> bool {
    encode_utf8(password).len() <= u32::MAX
}

/// How a hash begins: the variant of Argon2, its version and its default parameters, and the salt.
pub open spec fn phc_head(salt: Seq<char>) -> Seq<char> {
    "$argon2id$v=19$m=19456,t=2,p=1$"@ + salt + "$"@
}

/// Whether the number of lanes is given from position `i` of a hash on.
pub open spec fn lanes_at(hash: Seq<char>, i: int) -> bool {
    0 <= i < hash.len() - 1 && hash[i] == 'p' && hash[i + 1] == '='
}

/// Whether nine digits stand from position `i` on.
pub open spec fn nine_digits_at(text: Seq<char>, i: int) -> bool {
    &&& 0 <= i <= text.len() - 9
    &&& forall|j: int| i <= j < i + 9 ==> '0' <= #[trigger] text[j] <= '9'
}

/// Whether a hash asks for more lanes than Argon2 can ever have, by a number of nine digits or more
/// where it gives it last.
pub open spec fn too_many_lanes(hash: Seq<char>) -> bool {
    exists|i: int| #[trigger]
        lanes_at(hash, i) && nine_digits_at(hash, i + 2) && forall|j: int|
            i < j ==> !#[trigger] lanes_at(hash, j)
}

/// Whether a password is accepted against a stored hash.
pub open spec fn password_matches(password: Seq<char>, hash: Seq<char>) -> bool {
    !too_many_lanes(hash) && argon2_verdict(password, hash) == Some(true)
}

/// What is told of a hashing attempt: the hash, or the error under a heading.
pub open spec fn hash_report(outcome: Result<Seq<char>, Seq<char>>) -> Result<
    Seq<char>,
    Seq<char>,
> {
    match outcome {
        Ok(hash) => Ok(hash),
        Err(e) => Err("Password hashing failed: "@ + e),
    }
}

/// Calls `SaltString::generate` of the `password-hash` crate on the system's random source, and
/// claims that it gives the B64 text of 16 bytes. They are drawn at random; nothing else is claimed
/// of them. The call does not return where the system gives no random bytes.
#[verifier::external_body]
pub(crate) fn random_salt() -> (r: String)
    ensures
        drawn_salt(r@),
{
    SaltString::generate(&mut OsRng).as_str().to_owned()
}

/// Calls `hash_password` of the `argon2` crate's default hasher on a salt read by `Salt::from_b64`.
/// Claims that the outcome depends on the password and the salt alone; that it is a hash for every
/// salt of 16 bytes and every password whose length fits in 32 bits; and of a hash, that it shows
/// the default parameters, of which one lane is one, and the salt, and that it verifies against the
/// password it was made from.
#[verifier::external_body]
fn argon2_hash(password: &str, salt: &str) -> (r: Result<String, String>)
    ensures
        text_result(r) == argon2_phc(password@, salt@),
        drawn_salt(salt@) && hashable(password@) ==> r is Ok,
        r matches Ok(h) ==> argon2_verdict(password@, h@) == Some(true),
        r matches Ok(h) ==> phc_head(salt@).is_prefix_of(h@) && !too_many_lanes(h@),
{
    Salt::from_b64(salt)
        .and_then(|s| Argon2::default().hash_password(password.as_bytes(), s))
        .map(|h| h.to_string())
        .map_err(|e| e.to_string())
}

/// Calls `verify_password` of the `argon2` crate's default hasher on a hash read by
/// `PasswordHash::new`, and claims that the answer depends on the password and the hash alone. The
/// number of lanes that a hash gives last is multiplied by eight in 32 bits before it is held
/// against its bound, so a number of nine digits or more is left out. The memory that a hash asks
/// for is taken from the machine.
#[verifier::external_body]
fn argon2_verify(password: &str, hash: &str) -> (r: Option<bool>)
    requires
        !too_many_lanes(hash@),
    ensures
        r == argon2_verdict(password@, hash@),
{
    match PasswordHash::new(hash) {
        Ok(h) => Some(Argon2::default().verify_password(password.as_bytes(), &h).is_ok()),
        Err(_) => None,
    }
}

/// Tells the outcome of a hashing attempt.
pub fn report_hash(outcome: Result<String, String>) -> (r: Result<String, String>)
    ensures
        text_result(r) == hash_report(text_result(outcome)),
{
    match outcome {
        Ok(hash) => Ok(hash),
        Err(e) => Err(join("Password hashing failed: ", e.as_str())),
    }
}

/// Whether Argon2's answer accepts the password: a hash that cannot be read accepts none.
pub fn accepts(verdict: Option<bool>) -> (r: bool)
    ensures
        r == (verdict == Some(true)),
{
    match verdict {
        Some(ok) => ok,
        None => false,
    }
}

/// Whether nine digits stand from position `at` on.
fn has_nine_digits(text: &Vec<char>, at: usize) -> (r: bool)
    requires
        at <= text@.len(),
    ensures
        r == nine_digits_at(text@, at as int),
{
    if text.len() - at < 9 {
        return false;
    }
    let mut k: usize = 0;
    while k < 9
        invariant
            k <= 9,
            at + 9 <= text@.len(),
            text@.len() <= usize::MAX,
            forall|j: int| at <= j < at + k ==> '0' <= #[trigger] text@[j] <= '9',
        decreases 9 - k,
    {
        let c: char = text[at + k];
        if c < '0' || c > '9' {
            return false;
        }
        k += 1;
    }
    true
}

/// Whether a hash asks for more lanes than Argon2 can ever have.
pub fn asks_too_many_lanes(hash: &str) -> (r: bool)
    ensures
        r == too_many_lanes(hash@),
{
    let text = characters(hash);
    let mut n: usize = text.len();
    while n > 1
        invariant
            text@ == hash@,
            n <= text@.len(),
            forall|j: int| n - 1 <= j ==> !#[trigger] lanes_at(hash@, j),
        decreases n,
    {
        n -= 1;
        if text[n - 1] == 'p' && text[n] == '=' {
            assert(lanes_at(hash@, n - 1));
            return has_nine_digits(&text, n + 1);
        }
    }
    false
}

/// Hashes a password with a given salt.
pub fn hash_password_with_salt(password: &str, salt: &str) -> (r: Result<String, String>)
    ensures
        text_result(r) == hash_report(argon2_phc(password@, salt@)),
        drawn_salt(salt@) && hashable(password@) ==> r is Ok,
        r matches Ok(h) ==> password_matches(password@, h@) && phc_head(salt@).is_prefix_of(h@),
{
    report_hash(argon2_hash(password, salt))
}

/// Whether a salt was drawn from the system's random source.
pub closed spec fn fresh_salt(salt: Seq<char>) -> bool {
    exists|r: String| call_ensures(random_salt, (), r) && salt == #[trigger] r@
}

/// A fresh salt is one that the random source gave.
pub(crate) proof fn a_fresh_salt_comes_from_the_source(salt: Seq<char>)
    requires
        fresh_salt(salt),
    ensures
        exists|r: String| call_ensures(random_salt, (), r) && salt == #[trigger] r@,
{
}

/// Whether an outcome is that of hashing a password with a fresh random salt.
pub open spec fn freshly_hashed(
    password: Seq<char>,
    outcome: Result<Seq<char>, Seq<char>>,
) -> bool {
    exists|salt: Seq<char>|
        fresh_salt(salt) && drawn_salt(salt) && outcome == hash_report(
            #[trigger] argon2_phc(password, salt),
        ) && (outcome matches Ok(h) ==> phc_head(salt).is_prefix_of(h))
}

/// Hashes a password with a fresh random salt. Every password whose length fits in 32 bits gets a
/// hash, and a hash so made accepts the password.
pub fn hash_password(password: &str) -> (r: Result<String, String>)
    ensures
        freshly_hashed(password@, text_result(r)),
        hashable(password@) ==> r is Ok,
        r matches Ok(h) ==> password_matches(password@, h@),
{
    let salt = outcome(random_salt);
    assert(fresh_salt(salt@));
    hash_password_with_salt(password, salt.as_str())
}

/// Checks a password against a stored hash.
pub fn verify_password(password: &str, hash: &str) -> (r: bool)
    ensures
        r == password_matches(password@, hash@),
{
    if asks_too_many_lanes(hash) {
        return false;
    }
    accepts(argon2_verify(password, hash))
}

/// Every salt that can be drawn has 22 characters.
proof fn lemma_drawn_salt_length(salt: Seq<char>)
    requires
        drawn_salt(salt),
    ensures
        salt.len() == 22,
{
}

/// Hashes made with different drawn salts differ, whatever the passwords.
pub proof fn fresh_hashes_differ(
    first_salt: Seq<char>,
    first: Seq<char>,
    second_salt: Seq<char>,
    second: Seq<char>,
)
    requires
        drawn_salt(first_salt),
        drawn_salt(second_salt),
        first_salt != second_salt,
        phc_head(first_salt).is_prefix_of(first),
        phc_head(second_salt).is_prefix_of(second),
    ensures
        first != second,
{
    lemma_drawn_salt_length(first_salt);
    lemma_drawn_salt_length(second_salt);
    let n = "$argon2id$v=19$m=19456,t=2,p=1$"@.len() as int;
    if first == second {
        assert(phc_head(first_salt) =~= phc_head(second_salt));
        assert(phc_head(first_salt).subrange(n, n + 22) =~= first_salt);
        assert(phc_head(second_salt).subrange(n, n + 22) =~= second_salt);
    }
}

/// Every hash that is made begins by naming the variant of Argon2.
pub proof fn hashes_name_their_variant(salt: Seq<char>, hash: Seq<char>)
    requires
        phc_head(salt).is_prefix_of(hash),
    ensures
        "$argon2id$"@.is_prefix_of(hash),
{
    reveal_strlit("$argon2id$v=19$m=19456,t=2,p=1$");
    reveal_strlit("$argon2id$");
    let head = phc_head(salt);
    assert(head =~= hash.subrange(0, head.len() as int));
    assert("$argon2id$"@ =~= hash.subrange(0, "$argon2id$"@.len() as int)) by {
        assert forall|i: int| 0 <= i < "$argon2id$"@.len() implies "$argon2id$"@[i] == hash[i] by {
            assert(hash[i] == head[i]);
        }
    }
}

} // verus!
