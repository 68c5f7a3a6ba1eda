//! Submitted forms: their fields and the values in them.

use vstd::prelude::*;

use crate::text::text_eq;

verus! {

/// The names and values of a form in the `application/x-www-form-urlencoded` syntax, in order.
pub uninterp spec fn form_pairs(body: Seq<u8>) -> Seq<(Seq<char>, Seq<char>)>;

/// Pairs of texts as characters.
pub open spec fn pairs_view(pairs: Seq<(String, String)>) -> Seq<(Seq<char>, Seq<char>)> {
    Seq::new(pairs.len(), |i: int| (pairs[i].0@, pairs[i].1@))
}

/// The value of a field: the last one, where a form gives several.
pub open spec fn value_of(pairs: Seq<(Seq<char>, Seq<char>)>, name: Seq<char>) -> Option<Seq<char>>
    decreases pairs.len(),
{
    if pairs.len() == 0 {
        None
    } else if pairs.last().0 == name {
        Some(pairs.last().1)
    } else {
        value_of(pairs.drop_last(), name)
    }
}

/// The value of a field, or another text where the form has no such field.
pub open spec fn value_or(
    pairs: Seq<(Seq<char>, Seq<char>)>,
    name: Seq<char>,
    other: Seq<char>,
) -> Seq<char> {
    match value_of(pairs, name) {
        Some(v) => v,
        None => other,
    }
}

/// Calls `form_urlencoded::parse` of the `url` crate, and claims that the pairs it gives depend on
/// the bytes alone.
#[verifier::external_body]
pub(crate) fn parse_form(body: &[u8]) -> (r: Vec<(String, String)>)
    ensures
        pairs_view(r@) == form_pairs(body@),
{
    url::form_urlencoded::parse(body).into_owned().collect()
}

/// Gives the value of a field, or another text where the form has no such field.
pub fn field(pairs: &Vec<(String, String)>, name: &str, other: &str) -> (r: String)
    ensures
        r@ == value_or(pairs_view(pairs@), name@, other@),
{
    let ghost all = pairs_view(pairs@);
    let mut n: usize = pairs.len();
    assert(all.take(n as int) =~= all);
    while n > 0
        invariant
            n <= pairs@.len(),
            all == pairs_view(pairs@),
            value_of(all, name@) == value_of(all.take(n as int), name@),
        decreases n,
    {
        n -= 1;
        assert(all.take(n + 1).last() == (pairs@[n as int].0@, pairs@[n as int].1@));
        assert(all.take(n + 1).drop_last() =~= all.take(n as int));
        if text_eq(pairs[n].0.as_str(), name) {
            return pairs[n].1.clone();
        }
    }
    other.to_owned()
}

/// Whether every character is a decimal digit.
pub open spec fn is_digits(s: Seq<char>) -> bool {
    forall|i: int| 0 <= i < s.len() ==> '0' <= #[trigger] s[i] <= '9'
}

/// The number that decimal digits stand for.
pub open spec fn digits_value(s: Seq<char>) -> nat
    decreases s.len(),
{
    if s.len() == 0 {
        0
    } else {
        10 * digits_value(s.drop_last()) + (s.last() as int - 48) as nat
    }
}

/// The number of 64 bits that a text writes: an optional sign, then one digit or more.
pub open spec fn written_number(s: Seq<char>) -> Option<i64> {
    let signed = s.len() > 0 && (s[0] == '-' || s[0] == '+');
    let digits = if signed {
        s.skip(1)
    } else {
        s
    };
    let n: int = if signed && s[0] == '-' {
        -digits_value(digits)
    } else {
        digits_value(digits) as int
    };
    if digits.len() > 0 && is_digits(digits) && i64::MIN <= n <= i64::MAX {
        Some(n as i64)
    } else {
        None
    }
}

/// Calls `str::parse` of the standard library for `i64`, and claims that it reads an optional sign
/// and digits, and refuses any other text and numbers that do not fit.
#[verifier::external_body]
pub(crate) fn parse_number(text: &str) -> (r: Option<i64>)
    ensures
        r == written_number(text@),
{
    text.parse::<i64>().ok()
}

/// A field has a value exactly where some pair of the form bears its name.
pub proof fn field_is_given(pairs: Seq<(Seq<char>, Seq<char>)>, name: Seq<char>)
    ensures
        value_of(pairs, name) is Some <==> exists|i: int|
            0 <= i < pairs.len() && (#[trigger] pairs[i]).0 == name,
    decreases pairs.len(),
{
    if pairs.len() > 0 {
        field_is_given(pairs.drop_last(), name);
        if pairs.last().0 == name {
            assert(pairs[pairs.len() - 1].0 == name);
        } else if value_of(pairs, name) is Some {
            let i = choose|i: int|
                0 <= i < pairs.drop_last().len() && (#[trigger] pairs.drop_last()[i]).0 == name;
            assert(pairs[i].0 == name);
        } else {
            assert forall|i: int| 0 <= i < pairs.len() implies (#[trigger] pairs[i]).0 != name by {
                if i < pairs.len() - 1 {
                    assert(pairs.drop_last()[i] == pairs[i]);
                }
            }
        }
    }
}

/// Of several values of one field the last one counts.
pub proof fn last_value_counts(
    pairs: Seq<(Seq<char>, Seq<char>)>,
    name: Seq<char>,
    value: Seq<char>,
)
    ensures
        value_of(pairs.push((name, value)), name) == Some(value),
        forall|other: Seq<char>|
            other != name ==> #[trigger] value_of(pairs.push((name, value)), other) == value_of(
                pairs,
                other,
            ),
{
    assert(pairs.push((name, value)).drop_last() =~= pairs);
}

} // verus!
