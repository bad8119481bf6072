//! Bytes as lowercase hexadecimal, the encoding a byte string travels in on the wire.

use vstd::prelude::*;

use crate::text::chars;

verus! {

/// The digit that stands for a value below sixteen.
pub open spec fn hex_digit(value: int) -> char {
    if value < 10 {
        ((48 + value) as u8) as char
    } else {
        ((87 + value) as u8) as char
    }
}

/// The value a hexadecimal digit of either case stands for.
pub open spec fn hex_value(c: char) -> Option<int> {
    if '0' <= c && c <= '9' {
        Some(c as u8 - 48)
    } else if 'a' <= c && c <= 'f' {
        Some(c as u8 - 87)
    } else if 'A' <= c && c <= 'F' {
        Some(c as u8 - 55)
    } else {
        None
    }
}

/// Two digits for each byte, the higher half first.
pub open spec fn encoded(bytes: Seq<u8>) -> Seq<char>
    decreases bytes.len(),
{
    if bytes.len() == 0 {
        Seq::empty()
    } else {
        encoded(bytes.drop_last()).push(hex_digit(bytes.last() as int / 16)).push(
            hex_digit(bytes.last() as int % 16),
        )
    }
}

/// Whether a text is a run of whole bytes: an even number of digits and nothing else.
pub open spec fn is_encoding(text: Seq<char>) -> bool {
    text.len() % 2 == 0 && forall|i: int| 0 <= i < text.len() ==> hex_value(#[trigger] text[i]) is Some
}

/// The bytes that pairs of digits stand for.
pub open spec fn decoded(text: Seq<char>) -> Seq<u8> {
    Seq::new(
        (text.len() / 2) as nat,
        |i: int|
            (hex_value(text[2 * i])->0 * 16 + hex_value(text[2 * i + 1])->0) as u8,
    )
}

/// The digit that stands for a value below sixteen.
fn digit_of(value: u8) -> (r: char)
    requires
        value < 16,
    ensures
        r == hex_digit(value as int),
{
    if value < 10 {
        (48 + value) as char
    } else {
        (87 + value) as char
    }
}

/// The value a hexadecimal digit of either case stands for.
fn value_of(c: char) -> (r: Option<u8>)
    ensures
        match hex_value(c) {
            Some(value) => r == Some(value as u8) && 0 <= value < 16,
            None => r is None,
        },
{
    if '0' <= c && c <= '9' {
        Some(c as u8 - 48)
    } else if 'a' <= c && c <= 'f' {
        Some(c as u8 - 87)
    } else if 'A' <= c && c <= 'F' {
        Some(c as u8 - 55)
    } else {
        None
    }
}

/// Bytes as lowercase hexadecimal, the `$bytes` encoding of the wire.
pub fn encode_hex(bytes: &[u8]) -> (r: String)
    ensures
        r@ == encoded(bytes@),
{
    let mut text: String = String::new();
    let mut i: usize = 0;
    while i < bytes.len()
        invariant
            i <= bytes.len(),
            text@ == encoded(bytes@.take(i as int)),
        decreases bytes.len() - i,
    {
        text.push(digit_of(bytes[i] / 16));
        text.push(digit_of(bytes[i] % 16));
        i = i + 1;
        assert(bytes@.take(i as int).drop_last() =~= bytes@.take(i - 1));
    }
    assert(bytes@.take(i as int) =~= bytes@);
    text
}

/// Hexadecimal back into bytes, or `None` for anything that is not a whole run of hex digits.
pub fn decode_hex(text: &str) -> (r: Option<Vec<u8>>)
    ensures
        match r {
            Some(bytes) => is_encoding(text@) && bytes@ == decoded(text@),
            None => !is_encoding(text@),
        },
{
    let digits: Vec<char> = chars(text);
    if digits.len() % 2 != 0 {
        return None;
    }
    let mut bytes: Vec<u8> = Vec::new();
    let mut i: usize = 0;
    while i < digits.len()
        invariant
            i <= digits.len(),
            i % 2 == 0,
            digits.len() % 2 == 0,
            digits@ == text@,
            forall|j: int| 0 <= j < i ==> hex_value(#[trigger] digits@[j]) is Some,
            bytes@ == decoded(digits@.take(i as int)),
        decreases digits.len() - i,
    {
        let high: u8 = match value_of(digits[i]) {
            Some(value) => value,
            None => {
                assert(hex_value(text@[i as int]) is None);
                return None;
            },
        };
        let low: u8 = match value_of(digits[i + 1]) {
            Some(value) => value,
            None => {
                assert(hex_value(text@[i + 1]) is None);
                return None;
            },
        };
        bytes.push(high * 16 + low);
        i = i + 2;
        assert(bytes@ =~= decoded(digits@.take(i as int)));
    }
    assert(digits@.take(i as int) =~= digits@);
    Some(bytes)
}

// --- laws -----------------------------------------------------------------------------------------

/// What is encoded decodes to exactly the bytes it was made from, two digits for each.
pub proof fn encoding_round_trips(bytes: Seq<u8>)
    ensures
        encoded(bytes).len() == 2 * bytes.len(),
        is_encoding(encoded(bytes)),
        decoded(encoded(bytes)) == bytes,
    decreases bytes.len(),
{
    if bytes.len() > 0 {
        let start = bytes.drop_last();
        encoding_round_trips(start);
        let text = encoded(bytes);
        let before = encoded(start);
        let last = bytes.last() as int;
        assert(hex_value(hex_digit(last / 16)) == Some(last / 16));
        assert(hex_value(hex_digit(last % 16)) == Some(last % 16));
        assert forall|i: int| 0 <= i < text.len() implies hex_value(#[trigger] text[i]) is Some by {
            if i < before.len() {
                assert(text[i] == before[i]);
            }
        }
        assert forall|i: int| 0 <= i < bytes.len() implies decoded(text)[i] == bytes[i] by {
            if i < start.len() {
                assert(text[2 * i] == before[2 * i]);
                assert(text[2 * i + 1] == before[2 * i + 1]);
                assert(decoded(before)[i] == start[i]);
            }
        }
        assert(decoded(text) =~= bytes);
    } else {
        assert(decoded(encoded(bytes)) =~= bytes);
    }
}

/// Two different byte strings are never encoded alike.
pub proof fn encoding_tells_apart(a: Seq<u8>, b: Seq<u8>)
    requires
        encoded(a) == encoded(b),
    ensures
        a == b,
{
    encoding_round_trips(a);
    encoding_round_trips(b);
}

/// A run of whole bytes in small digits is the encoding of the bytes it stands for.
pub proof fn decoding_round_trips(text: Seq<char>)
    requires
        is_encoding(text),
        forall|i: int| 0 <= i < text.len() ==> !('A' <= #[trigger] text[i] <= 'F'),
    ensures
        encoded(decoded(text)) == text,
    decreases text.len(),
{
    if text.len() > 0 {
        let start = text.take(text.len() - 2);
        decoding_round_trips(start);
        let bytes = decoded(text);
        assert(bytes.drop_last() =~= decoded(start));
        let high = text[text.len() - 2];
        let low = text[text.len() - 1];
        assert(hex_value(high) is Some && hex_value(low) is Some);
        assert(bytes.last() as int / 16 == hex_value(high)->0);
        assert(bytes.last() as int % 16 == hex_value(low)->0);
        assert(hex_digit(hex_value(high)->0) == high);
        assert(hex_digit(hex_value(low)->0) == low);
        assert(encoded(bytes) =~= text);
    } else {
        assert(encoded(decoded(text)) =~= text);
    }
}

}
