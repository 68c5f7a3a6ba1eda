//! The two text encodings of bytes that accounts use: URL-safe base-64 for session tokens and
//! base-32 for one-time-password secrets.

use base64::Engine;
use vstd::arithmetic::power2::lemma2_to64;
use vstd::prelude::*;

use crate::bits::{field, fits, lemma_regroup_fits, lemma_regroup_reads_back, regroup};

verus! {

/// The most bytes that an encoder is handed: its text is longer than its input and still has to
/// fit in memory.
pub open spec fn encodable(bytes: Seq<u8>) -> bool {
    bytes.len() <= usize::MAX / 4
}

/// Bytes as numbers.
pub open spec fn octets(bytes: Seq<u8>) -> Seq<nat> {
    Seq::new(bytes.len(), |i: int| bytes[i] as nat)
}

/// The character that stands for the six-bit number `n` in URL-safe base-64.
pub open spec fn base64url_char(n: nat) -> char {
    if n < 26 {
        (65 + n) as char
    } else if n < 52 {
        (97 + n - 26) as char
    } else if n < 62 {
        (48 + n - 52) as char
    } else if n == 62 {
        '-'
    } else {
        '_'
    }
}

/// The URL-safe base-64 text of `bytes`, without padding.
pub open spec fn base64url(bytes: Seq<u8>) -> Seq<char> {
    let sextets = regroup(octets(bytes), 8, 6);
    Seq::new(sextets.len(), |i: int| base64url_char(sextets[i]))
}

/// The character that stands for the six-bit number `n` in standard base-64.
pub open spec fn b64_char(n: nat) -> char {
    if n < 62 {
        base64url_char(n)
    } else if n == 62 {
        '+'
    } else {
        '/'
    }
}

/// The standard base-64 text of `bytes`, without padding.
pub open spec fn b64(bytes: Seq<u8>) -> Seq<char> {
    let sextets = regroup(octets(bytes), 8, 6);
    Seq::new(sextets.len(), |i: int| b64_char(sextets[i]))
}

/// The character that stands for the five-bit number `n` in base-32.
pub open spec fn base32_char(n: nat) -> char {
    if n < 26 {
        (65 + n) as char
    } else {
        (50 + n - 26) as char
    }
}

/// Whether `c` is one of the 32 characters `A` to `Z` and `2` to `7`.
pub open spec fn is_base32_char(c: char) -> bool {
    'A' <= c <= 'Z' || '2' <= c <= '7'
}

/// The five-bit number that `c` stands for in base-32.
pub open spec fn base32_digit(c: char) -> nat
    recommends
        is_base32_char(c),
{
    if 'A' <= c <= 'Z' {
        (c as int - 65) as nat
    } else {
        (c as int - 50 + 26) as nat
    }
}

/// The base-32 text of `bytes`, without padding.
pub open spec fn base32(bytes: Seq<u8>) -> Seq<char> {
    let quintets = regroup(octets(bytes), 8, 5);
    Seq::new(quintets.len(), |i: int| base32_char(quintets[i]))
}

/// The bytes that base-32 text stands for; nothing where another character stands in it. Bits left
/// over at the end that make no whole byte are dropped.
pub open spec fn base32_bytes(text: Seq<char>) -> Option<Seq<u8>> {
    if forall|i: int| 0 <= i < text.len() ==> is_base32_char(#[trigger] text[i]) {
        let quintets = Seq::new(text.len(), |i: int| base32_digit(text[i]));
        Some(Seq::new((5 * text.len()) / 8, |j: int| field(quintets, 5, 8 * j, 8) as u8))
    } else {
        None
    }
}

/// Calls `encode` of the `base64` crate's `URL_SAFE_NO_PAD` engine, and claims that it gives the
/// URL-safe base-64 text of the bytes, without padding (RFC 4648, section 5).
#[verifier::external_body]
pub(crate) fn encode_base64url(bytes: &[u8]) -> (r: String)
    requires
        encodable(bytes@),
    ensures
        r@ == base64url(bytes@),
{
    base64::engine::general_purpose::URL_SAFE_NO_PAD.encode(bytes)
}

/// Calls `Secret::to_encoded` of the `totp-rs` crate on raw bytes, and claims that the secret it
/// gives shows as the base-32 text of the bytes, without padding (RFC 4648, section 6).
#[verifier::external_body]
pub(crate) fn encode_base32(bytes: &[u8]) -> (r: String)
    requires
        encodable(bytes@),
    ensures
        r@ == base32(bytes@),
{
    totp_rs::Secret::Raw(bytes.to_vec()).to_encoded().to_string()
}

/// Calls `Secret::to_bytes` of the `totp-rs` crate on encoded text, and claims that it decodes
/// base-32 text without padding and refuses any other text with one fixed message.
#[verifier::external_body]
pub(crate) fn decode_base32(text: &str) -> (r: Result<Vec<u8>, String>)
    ensures
        match base32_bytes(text@) {
            Some(bytes) => r matches Ok(b) && b@ == bytes,
            None => r matches Err(e) && e@ == "Could not decode base32 secret."@,
        },
{
    totp_rs::Secret::Encoded(text.to_owned()).to_bytes().map_err(|e| e.to_string())
}

proof fn lemma_octets_fit(bytes: Seq<u8>)
    ensures
        fits(octets(bytes), 8),
{
    lemma2_to64();
}

/// Different bytes have different URL-safe base-64 texts.
pub proof fn base64url_is_injective(a: Seq<u8>, b: Seq<u8>)
    requires
        base64url(a) == base64url(b),
    ensures
        a == b,
{
    let x = regroup(octets(a), 8, 6);
    let y = regroup(octets(b), 8, 6);
    assert(x.len() == base64url(a).len() && y.len() == base64url(b).len());
    assert(a.len() == b.len());
    lemma2_to64();
    lemma_regroup_fits(octets(a), 8, 6);
    lemma_regroup_fits(octets(b), 8, 6);
    assert forall|i: int| 0 <= i < x.len() implies x[i] == y[i] by {
        assert(base64url(a)[i] == base64url_char(x[i]));
        assert(base64url(b)[i] == base64url_char(y[i]));
        assert(x[i] < 64 && y[i] < 64);
    }
    assert(x =~= y);
    lemma_octets_fit(a);
    lemma_octets_fit(b);
    assert forall|i: int| 0 <= i < a.len() implies a[i] == b[i] by {
        lemma_regroup_reads_back(octets(a), 8, 6, i);
        lemma_regroup_reads_back(octets(b), 8, 6, i);
        assert(octets(a)[i] == octets(b)[i]);
    }
    assert(a =~= b);
}

/// Decoding the base-32 text of some bytes gives those bytes back.
pub proof fn base32_round_trip(bytes: Seq<u8>)
    ensures
        base32_bytes(base32(bytes)) == Some(bytes),
{
    let x = regroup(octets(bytes), 8, 5);
    let text = base32(bytes);
    lemma2_to64();
    lemma_regroup_fits(octets(bytes), 8, 5);
    lemma_octets_fit(bytes);
    assert forall|i: int| 0 <= i < text.len() implies is_base32_char(#[trigger] text[i])
        && base32_digit(text[i]) == x[i] by {
        assert(text[i] == base32_char(x[i]));
        assert(x[i] < 32);
    }
    let quintets = Seq::new(text.len(), |i: int| base32_digit(text[i]));
    assert(quintets =~= x);
    let back = Seq::new((5 * text.len()) / 8, |j: int| field(quintets, 5, 8 * j, 8) as u8);
    assert(back.len() == bytes.len());
    assert forall|j: int| 0 <= j < bytes.len() implies back[j] == bytes[j] by {
        lemma_regroup_reads_back(octets(bytes), 8, 5, j);
        assert(octets(bytes)[j] == bytes[j] as nat);
    }
    assert(back =~= bytes);
}

} // verus!
