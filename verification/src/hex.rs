//! Hexadecimal text: two digits for each byte, the high half first.

use crate::text::chars_of;
use vstd::prelude::*;

verus! {

/// Whether `c` is one of the digits `0`-`9`, `a`-`f` and `A`-`F`.
pub open spec fn is_hex_digit(c: char) -> bool {
    ('0' <= c && c <= '9') || ('a' <= c && c <= 'f') || ('A' <= c && c <= 'F')
}

/// The number, under 16, that the hexadecimal digit `c` stands for.
pub open spec fn hex_digit_value(c: char) -> int {
    if '0' <= c && c <= '9' {
        c as int - 48
    } else if 'a' <= c && c <= 'f' {
        c as int - 87
    } else {
        c as int - 55
    }
}

/// Whether `text` is an even number of hexadecimal digits and nothing else.
pub open spec fn is_hex_text(text: Seq<char>) -> bool {
    &&& text.len() % 2 == 0
    &&& forall|i: int| 0 <= i < text.len() ==> is_hex_digit(#[trigger] text[i])
}

/// The byte that the digits at `2 * i` and `2 * i + 1` of `text` spell.
pub open spec fn hex_byte_at(text: Seq<char>, i: int) -> u8 {
    (16 * hex_digit_value(text[2 * i]) + hex_digit_value(text[2 * i + 1])) as u8
}

/// The bytes that hexadecimal `text` spells, one for each pair of digits.
pub open spec fn hex_decoded(text: Seq<char>) -> Seq<u8> {
    Seq::new((text.len() / 2) as nat, |i: int| hex_byte_at(text, i))
}

/// The lower-case hexadecimal digit for `n`, which is under 16.
pub open spec fn hex_digit_of(n: int) -> char {
    if n < 10 {
        (n + 48) as char
    } else {
        (n + 87) as char
    }
}

/// The digit at place `i` of the hexadecimal text of `bytes`.
pub open spec fn hex_char_at(bytes: Seq<u8>, i: int) -> char {
    if i % 2 == 0 {
        hex_digit_of(bytes[i / 2] as int / 16)
    } else {
        hex_digit_of(bytes[i / 2] as int % 16)
    }
}

/// The lower-case hexadecimal text of `bytes`, two digits for each byte.
pub open spec fn hex_encoded(bytes: Seq<u8>) -> Seq<char> {
    Seq::new(2 * bytes.len(), |i: int| hex_char_at(bytes, i))
}

/// The value of a hexadecimal digit, or `None` for any other character.
pub fn hex_digit(c: char) -> (value: Option<u8>)
    ensures
        value is Some <==> is_hex_digit(c),
        value is Some ==> value->0 == hex_digit_value(c),
{
    if '0' <= c && c <= '9' {
        Some((c as u32 - 48) as u8)
    } else if 'a' <= c && c <= 'f' {
        Some((c as u32 - 87) as u8)
    } else if 'A' <= c && c <= 'F' {
        Some((c as u32 - 55) as u8)
    } else {
        None
    }
}

/// Reads hexadecimal text: the bytes it spells, or `None` where it holds an
/// odd number of characters or one that is no hexadecimal digit.
pub fn decode_hex(text: &str) -> (bytes: Option<Vec<u8>>)
    ensures
        bytes is Some <==> is_hex_text(text@),
        bytes is Some ==> bytes->0@ == hex_decoded(text@),
{
    let chars = chars_of(text);
    if chars.len() % 2 != 0 {
        return None;
    }
    let count: usize = chars.len() / 2;
    let mut out: Vec<u8> = Vec::new();
    let mut i: usize = 0;
    while i < count
        invariant
            chars@ == text@,
            chars.len() == 2 * count,
            i <= count,
            out@.len() == i,
            forall|k: int| 0 <= k < 2 * i ==> is_hex_digit(#[trigger] text@[k]),
            forall|k: int| 0 <= k < i ==> out@[k] == hex_byte_at(text@, k),
        decreases count - i,
    {
        let high = hex_digit(chars[2 * i]);
        let low = hex_digit(chars[2 * i + 1]);
        match (high, low) {
            (Some(h), Some(l)) => {
                out.push(16 * h + l);
            },
            _ => {
                return None;
            },
        }
        i += 1;
    }
    assert(out@ =~= hex_decoded(text@));
    Some(out)
}

/// The one-character text of the lower-case hexadecimal digit for `n`.
fn hex_digit_text(n: u8) -> (text: &'static str)
    requires
        n < 16,
    ensures
        text@ == seq![hex_digit_of(n as int)],
{
    proof {
        reveal_strlit("0");
        reveal_strlit("1");
        reveal_strlit("2");
        reveal_strlit("3");
        reveal_strlit("4");
        reveal_strlit("5");
        reveal_strlit("6");
        reveal_strlit("7");
        reveal_strlit("8");
        reveal_strlit("9");
        reveal_strlit("a");
        reveal_strlit("b");
        reveal_strlit("c");
        reveal_strlit("d");
        reveal_strlit("e");
        reveal_strlit("f");
    }
    let text = match n {
        0 => "0",
        1 => "1",
        2 => "2",
        3 => "3",
        4 => "4",
        5 => "5",
        6 => "6",
        7 => "7",
        8 => "8",
        9 => "9",
        10 => "a",
        11 => "b",
        12 => "c",
        13 => "d",
        14 => "e",
        _ => "f",
    };
    assert(text@ =~= seq![hex_digit_of(n as int)]);
    text
}

/// Writes `bytes` as lower-case hexadecimal text.
pub fn encode_hex(bytes: &[u8]) -> (text: String)
    ensures
        text@ == hex_encoded(bytes@),
{
    let mut text = String::new();
    let mut i: usize = 0;
    while i < bytes.len()
        invariant
            i <= bytes.len(),
            text@.len() == 2 * i,
            forall|k: int| 0 <= k < 2 * i ==> text@[k] == hex_char_at(bytes@, k),
        decreases bytes.len() - i,
    {
        let byte = bytes[i];
        let ghost before = text@;
        text.append(hex_digit_text(byte / 16));
        text.append(hex_digit_text(byte % 16));
        assert(text@ =~= before.push(hex_digit_of(byte as int / 16)).push(
            hex_digit_of(byte as int % 16),
        ));
        i += 1;
    }
    assert(text@ =~= hex_encoded(bytes@));
    text
}

/// What was written as hexadecimal text is read back unchanged: the text of
/// any bytes is hexadecimal text, and it spells those bytes.
pub proof fn lemma_hex_round_trip(bytes: Seq<u8>)
    ensures
        is_hex_text(hex_encoded(bytes)),
        hex_decoded(hex_encoded(bytes)) == bytes,
{
    let text = hex_encoded(bytes);
    assert forall|n: int| 0 <= n < 16 implies is_hex_digit(#[trigger] hex_digit_of(n))
        && hex_digit_value(hex_digit_of(n)) == n by {
        if n < 10 {
            assert(hex_digit_of(n) == (n + 48) as char);
        } else {
            assert(hex_digit_of(n) == (n + 87) as char);
        }
    }
    assert forall|i: int| 0 <= i < text.len() implies is_hex_digit(#[trigger] text[i]) by {
        let byte = bytes[i / 2] as int;
        assert(text[i] == hex_char_at(bytes, i));
        assert(0 <= byte / 16 < 16 && 0 <= byte % 16 < 16);
    }
    assert forall|i: int| 0 <= i < bytes.len() implies hex_byte_at(text, i) == bytes[i] by {
        let byte = bytes[i] as int;
        assert(text[2 * i] == hex_char_at(bytes, 2 * i));
        assert(text[2 * i + 1] == hex_char_at(bytes, 2 * i + 1));
        assert((2 * i) / 2 == i && (2 * i + 1) / 2 == i);
        assert((2 * i) % 2 == 0 && (2 * i + 1) % 2 == 1);
        assert(0 <= byte / 16 < 16 && 0 <= byte % 16 < 16);
        assert(16 * (byte / 16) + byte % 16 == byte);
    }
    assert(hex_decoded(text) =~= bytes);
}

} // verus!
