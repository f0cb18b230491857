//! Base64 and data URLs.

use crate::text::push_char;
use vstd::prelude::*;

verus! {

/// The character that stands for the six-bit value `v` in Base64.
pub open spec fn sextet_char(v: int) -> char {
    if v < 26 {
        (65 + v) as char
    } else if v < 52 {
        (97 + (v - 26)) as char
    } else if v < 62 {
        (48 + (v - 52)) as char
    } else if v == 62 {
        '+'
    } else {
        '/'
    }
}

/// The byte at position `i`, or zero past the end.
pub open spec fn byte_or_zero(bytes: Seq<u8>, i: int) -> int {
    if 0 <= i < bytes.len() {
        bytes[i] as int
    } else {
        0
    }
}

/// The number of characters that `n` bytes take in Base64: four for every
/// three bytes, the last group filled up.
pub open spec fn base64_len(n: int) -> int {
    4 * ((n + 2) / 3)
}

/// The character at position `k` of the Base64 form of `bytes`.
///
/// Every group of three bytes gives four characters of six bits each, the
/// first byte in the highest place. A last group of one or two bytes is filled
/// up with zero bits, and `=` stands where no byte contributes.
pub open spec fn base64_at(bytes: Seq<u8>, k: int) -> char {
    let g = k / 4;
    let b0 = byte_or_zero(bytes, 3 * g);
    let b1 = byte_or_zero(bytes, 3 * g + 1);
    let b2 = byte_or_zero(bytes, 3 * g + 2);
    if k % 4 == 0 {
        sextet_char(b0 / 4)
    } else if k % 4 == 1 {
        sextet_char((b0 % 4) * 16 + b1 / 16)
    } else if k % 4 == 2 {
        if 3 * g + 1 < bytes.len() {
            sextet_char((b1 % 16) * 4 + b2 / 64)
        } else {
            '='
        }
    } else {
        if 3 * g + 2 < bytes.len() {
            sextet_char(b2 % 64)
        } else {
            '='
        }
    }
}

/// The Base64 form of `bytes`, with the standard alphabet and padding.
pub open spec fn base64_text(bytes: Seq<u8>) -> Seq<char> {
    Seq::new(base64_len(bytes.len() as int) as nat, |k: int| base64_at(bytes, k))
}

/// What precedes the Base64 text in a data URL of a JPEG image.
pub const JPEG_DATA_URL_PREFIX: &'static str = "data:image/jpeg;base64,";

/// The data URL of a JPEG image with the given bytes.
pub open spec fn jpeg_data_url_text(jpeg: Seq<u8>) -> Seq<char> {
    JPEG_DATA_URL_PREFIX@ + base64_text(jpeg)
}

/// The six-bit value that the character `c` stands for in Base64.
pub open spec fn sextet_value(c: char) -> int {
    let n = c as int;
    if 65 <= n <= 90 {
        n - 65
    } else if 97 <= n <= 122 {
        n - 97 + 26
    } else if 48 <= n <= 57 {
        n - 48 + 52
    } else if c == '+' {
        62
    } else {
        63
    }
}

/// How many of the last characters of a Base64 text are padding.
pub open spec fn padding(text: Seq<char>) -> int {
    if text.len() >= 1 && text[text.len() - 1] == '=' {
        if text.len() >= 2 && text[text.len() - 2] == '=' {
            2
        } else {
            1
        }
    } else {
        0
    }
}

/// The byte at position `i` of what a Base64 text stands for.
pub open spec fn decoded_byte(text: Seq<char>, i: int) -> int {
    let g = i / 3;
    let v0 = sextet_value(text[4 * g]);
    let v1 = sextet_value(text[4 * g + 1]);
    let v2 = sextet_value(text[4 * g + 2]);
    let v3 = sextet_value(text[4 * g + 3]);
    if i % 3 == 0 {
        v0 * 4 + v1 / 16
    } else if i % 3 == 1 {
        (v1 % 16) * 16 + v2 / 4
    } else {
        (v2 % 4) * 64 + v3
    }
}

/// The bytes that a Base64 text stands for: three for every four characters,
/// less the padding.
pub open spec fn base64_bytes(text: Seq<char>) -> Seq<u8> {
    Seq::new(
        (3 * (text.len() / 4) - padding(text)) as nat,
        |i: int| decoded_byte(text, i) as u8,
    )
}

/// A character of the alphabet stands for the value it was chosen for, and is
/// never the padding character.
pub proof fn lemma_sextet_round_trip(v: int)
    requires
        0 <= v < 64,
    ensures
        sextet_value(sextet_char(v)) == v,
        sextet_char(v) != '=',
{
}

/// The four six-bit values of a group of three bytes give the bytes back.
proof fn lemma_group_round_trip(b0: int, b1: int, b2: int)
    requires
        0 <= b0 < 256,
        0 <= b1 < 256,
        0 <= b2 < 256,
    ensures
        ({
            let v0 = b0 / 4;
            let v1 = (b0 % 4) * 16 + b1 / 16;
            let v2 = (b1 % 16) * 4 + b2 / 64;
            let v3 = b2 % 64;
            &&& 0 <= v0 < 64 && 0 <= v1 < 64 && 0 <= v2 < 64 && 0 <= v3 < 64
            &&& v0 * 4 + v1 / 16 == b0
            &&& (v1 % 16) * 16 + v2 / 4 == b1
            &&& (v2 % 4) * 64 + v3 == b2
        }),
{
}

/// The four characters of group `g` stand for the values of its bytes; the
/// third and the fourth are padding where the bytes have run out.
proof fn lemma_group_chars(bytes: Seq<u8>, g: int)
    requires
        0 <= g,
        3 * g < bytes.len(),
    ensures
        ({
            let text = base64_text(bytes);
            let b0 = byte_or_zero(bytes, 3 * g);
            let b1 = byte_or_zero(bytes, 3 * g + 1);
            let b2 = byte_or_zero(bytes, 3 * g + 2);
            &&& 4 * g + 3 < text.len()
            &&& text[4 * g] == sextet_char(b0 / 4)
            &&& text[4 * g + 1] == sextet_char((b0 % 4) * 16 + b1 / 16)
            &&& text[4 * g + 2] == if 3 * g + 1 < bytes.len() {
                sextet_char((b1 % 16) * 4 + b2 / 64)
            } else {
                '='
            }
            &&& text[4 * g + 3] == if 3 * g + 2 < bytes.len() {
                sextet_char(b2 % 64)
            } else {
                '='
            }
        }),
{
    let text = base64_text(bytes);
    assert(text[4 * g] == base64_at(bytes, 4 * g));
    assert(text[4 * g + 1] == base64_at(bytes, 4 * g + 1));
    assert(text[4 * g + 2] == base64_at(bytes, 4 * g + 2));
    assert(text[4 * g + 3] == base64_at(bytes, 4 * g + 3));
}

/// The Base64 form of `bytes` stands for as many bytes as `bytes` has.
proof fn lemma_decoded_len(bytes: Seq<u8>)
    ensures
        3 * (base64_text(bytes).len() / 4) - padding(base64_text(bytes)) == bytes.len(),
{
    let text = base64_text(bytes);
    let n = bytes.len() as int;
    if n > 0 {
        let g = (n - 1) / 3;
        lemma_group_chars(bytes, g);
        let b0 = byte_or_zero(bytes, 3 * g);
        let b1 = byte_or_zero(bytes, 3 * g + 1);
        let b2 = byte_or_zero(bytes, 3 * g + 2);
        lemma_group_round_trip(b0, b1, b2);
        lemma_sextet_round_trip((b1 % 16) * 4 + b2 / 64);
        lemma_sextet_round_trip(b2 % 64);
        assert(text.len() == 4 * g + 4);
    }
}

/// Base64 loses nothing: the bytes that the Base64 form of `bytes` stands for
/// are `bytes` again. So a data URL tells the image bytes it was made of.
pub proof fn lemma_base64_round_trip(bytes: Seq<u8>)
    ensures
        base64_bytes(base64_text(bytes)) == bytes,
        jpeg_data_url_text(bytes).subrange(
            JPEG_DATA_URL_PREFIX@.len() as int,
            jpeg_data_url_text(bytes).len() as int,
        ) == base64_text(bytes),
{
    let text = base64_text(bytes);
    lemma_decoded_len(bytes);
    assert forall|i: int| 0 <= i < bytes.len() implies decoded_byte(text, i) == bytes[i] by {
        let g = i / 3;
        let b0 = byte_or_zero(bytes, 3 * g);
        let b1 = byte_or_zero(bytes, 3 * g + 1);
        let b2 = byte_or_zero(bytes, 3 * g + 2);
        lemma_group_chars(bytes, g);
        lemma_group_round_trip(b0, b1, b2);
        lemma_sextet_round_trip(b0 / 4);
        lemma_sextet_round_trip((b0 % 4) * 16 + b1 / 16);
        lemma_sextet_round_trip((b1 % 16) * 4 + b2 / 64);
        lemma_sextet_round_trip(b2 % 64);
    }
    assert(base64_bytes(text) =~= bytes);
    assert(jpeg_data_url_text(bytes).subrange(
        JPEG_DATA_URL_PREFIX@.len() as int,
        jpeg_data_url_text(bytes).len() as int,
    ) =~= text);
}

/// The character that stands for the six-bit value `v`.
fn sextet(v: u8) -> (c: char)
    requires
        v < 64,
    ensures
        c == sextet_char(v as int),
{
    if v < 26 {
        (65 + v) as char
    } else if v < 52 {
        (97 + (v - 26)) as char
    } else if v < 62 {
        (48 + (v - 52)) as char
    } else if v == 62 {
        '+'
    } else {
        '/'
    }
}

/// Appends the Base64 form of `bytes` to `out`.
fn append_base64(out: &mut String, bytes: &[u8])
    ensures
        final(out)@ == old(out)@ + base64_text(bytes@),
{
    let n = bytes.len();
    let ghost start = out@;
    let ghost want = base64_text(bytes@);
    let mut i: usize = 0;
    while n - i >= 3
        invariant
            i <= n,
            n == bytes.len(),
            i % 3 == 0,
            want == base64_text(bytes@),
            out@.len() == start.len() + 4 * (i / 3),
            out@ == start + want.subrange(0, 4 * (i as int / 3)),
        decreases n - i,
    {
        let b0 = bytes[i];
        let b1 = bytes[i + 1];
        let b2 = bytes[i + 2];
        let ghost g = i as int / 3;
        let ghost before = out@;
        push_char(out, sextet(b0 / 4));
        push_char(out, sextet((b0 % 4) * 16 + b1 / 16));
        push_char(out, sextet((b1 % 16) * 4 + b2 / 64));
        push_char(out, sextet(b2 % 64));
        proof {
            assert(3 * g == i);
            assert(want[4 * g] == base64_at(bytes@, 4 * g));
            assert(want[4 * g + 1] == base64_at(bytes@, 4 * g + 1));
            assert(want[4 * g + 2] == base64_at(bytes@, 4 * g + 2));
            assert(want[4 * g + 3] == base64_at(bytes@, 4 * g + 3));
            assert(out@ =~= start + want.subrange(0, 4 * (g + 1)));
        }
        i += 3;
    }
    let ghost g = i as int / 3;
    if n - i == 1 {
        let b0 = bytes[i];
        push_char(out, sextet(b0 / 4));
        push_char(out, sextet((b0 % 4) * 16));
        push_char(out, '=');
        push_char(out, '=');
        proof {
            assert(3 * g == i);
            assert(want[4 * g] == base64_at(bytes@, 4 * g));
            assert(want[4 * g + 1] == base64_at(bytes@, 4 * g + 1));
            assert(want[4 * g + 2] == base64_at(bytes@, 4 * g + 2));
            assert(want[4 * g + 3] == base64_at(bytes@, 4 * g + 3));
            assert(out@ =~= start + want);
        }
    } else if n - i == 2 {
        let b0 = bytes[i];
        let b1 = bytes[i + 1];
        push_char(out, sextet(b0 / 4));
        push_char(out, sextet((b0 % 4) * 16 + b1 / 16));
        push_char(out, sextet((b1 % 16) * 4));
        push_char(out, '=');
        proof {
            assert(3 * g == i);
            assert(want[4 * g] == base64_at(bytes@, 4 * g));
            assert(want[4 * g + 1] == base64_at(bytes@, 4 * g + 1));
            assert(want[4 * g + 2] == base64_at(bytes@, 4 * g + 2));
            assert(want[4 * g + 3] == base64_at(bytes@, 4 * g + 3));
            assert(out@ =~= start + want);
        }
    } else {
        proof {
            assert(3 * g == n);
            assert(out@ =~= start + want);
        }
    }
}

/// The Base64 form of `bytes`, with the standard alphabet and padding.
pub fn base64_encode(bytes: &[u8]) -> (r: String)
    ensures
        r@ == base64_text(bytes@),
{
    let mut out = String::new();
    append_base64(&mut out, bytes);
    assert(out@ =~= base64_text(bytes@));
    out
}

/// The data URL of a JPEG image with the given bytes.
pub fn jpeg_data_url(jpeg: &[u8]) -> (r: String)
    ensures
        r@ == jpeg_data_url_text(jpeg@),
{
    let mut out = JPEG_DATA_URL_PREFIX.to_owned();
    append_base64(&mut out, jpeg);
    out
}

} // verus!
