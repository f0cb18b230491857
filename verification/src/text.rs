//! Operations on text that the rest of the library builds on: lower case and
//! containment from the standard library, and the writing of numbers.

use vstd::prelude::*;

verus! {

/// The characters that `str::to_lowercase` yields for a string made of `s`.
pub uninterp spec fn lowercase(s: Seq<char>) -> Seq<char>;

/// `needle` occurs in `hay` as a contiguous run of characters.
pub open spec fn contains_text(hay: Seq<char>, needle: Seq<char>) -> bool {
    exists|i: int|
        0 <= i && i + needle.len() <= hay.len() && #[trigger] hay.subrange(i, i + needle.len())
            == needle
}

/// Calls `str::to_lowercase`. The result is the Unicode lowercase form of the
/// input; the contract only gives it the name [`lowercase`].
#[verifier::external_body]
pub(crate) fn to_lowercase(s: &str) -> (r: String)
    ensures
        r@ == lowercase(s@),
{
    s.to_lowercase()
}

/// Calls `str::contains` with a string pattern: true exactly when the pattern
/// matches a sub-slice of the text.
#[verifier::external_body]
pub(crate) fn str_contains(hay: &str, needle: &str) -> (r: bool)
    ensures
        r == contains_text(hay@, needle@),
{
    hay.contains(needle)
}

/// Calls `String::push`, which appends the character to the string.
#[verifier::external_body]
pub(crate) fn push_char(s: &mut String, c: char)
    ensures
        final(s)@ == old(s)@.push(c),
{
    s.push(c)
}

/// The character of the decimal digit `d`.
pub open spec fn digit_char(d: int) -> char {
    (48 + d) as char
}

/// The decimal form of `n`, without leading zeros.
pub open spec fn decimal_text(n: nat) -> Seq<char>
    decreases n,
{
    if n < 10 {
        seq![digit_char(n as int)]
    } else {
        decimal_text(n / 10).push(digit_char((n % 10) as int))
    }
}

/// Appends the decimal form of `n` to `out`.
pub fn append_decimal(out: &mut String, n: u128)
    ensures
        final(out)@ == old(out)@ + decimal_text(n as nat),
    decreases n,
{
    if n >= 10 {
        append_decimal(out, n / 10);
    }
    let d = (n % 10) as u8;
    push_char(out, (48 + d) as char);
    assert(out@ =~= old(out)@ + decimal_text(n as nat));
}

/// The decimal form of `n`, without leading zeros.
pub fn decimal(n: u64) -> (r: String)
    ensures
        r@ == decimal_text(n as nat),
{
    let mut out = String::new();
    append_decimal(&mut out, n as u128);
    assert(out@ =~= decimal_text(n as nat));
    out
}

/// The decimal form of the whole number `n`: a minus sign before what is below
/// zero, and no leading zeros.
pub open spec fn signed_decimal_text(n: int) -> Seq<char> {
    if n < 0 {
        seq!['-'] + decimal_text((-n) as nat)
    } else {
        decimal_text(n as nat)
    }
}

/// The decimal form of the whole number `n`.
pub fn signed_decimal(n: i128) -> (r: String)
    ensures
        r@ == signed_decimal_text(n as int),
{
    let mut out = String::new();
    if n < 0 {
        push_char(&mut out, '-');
        let magnitude: u128 = (-(n + 1)) as u128 + 1;
        append_decimal(&mut out, magnitude);
        assert(out@ =~= signed_decimal_text(n as int));
    } else {
        append_decimal(&mut out, n as u128);
        assert(out@ =~= signed_decimal_text(n as int));
    }
    out
}

/// Whether two texts hold the same characters.
pub fn str_same(a: &str, b: &str) -> (r: bool)
    ensures
        r == (a@ == b@),
{
    let x = a.to_owned();
    let y = b.to_owned();
    x == y
}

/// Every text contains itself.
pub proof fn lemma_contains_self(hay: Seq<char>)
    ensures
        contains_text(hay, hay),
{
    assert(hay.subrange(0, 0int + hay.len()) =~= hay);
}

} // verus!
