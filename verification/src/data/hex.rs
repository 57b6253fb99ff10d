//! Numbers as the data files write them: in hexadecimal, behind `0x`.

use vstd::prelude::*;
use vstd::string::*;
use vstd::utf8::*;
use crate::mappings::hex_digit;
use crate::text::string_from_utf8;

verus! {

/// The ASCII code of a hexadecimal digit, in lower case.
pub open spec fn digit_code(digit: nat) -> u8 {
    if digit < 10 {
        (0x30 + digit) as u8
    } else {
        (0x61 + digit - 10) as u8
    }
}

/// The ASCII codes of the hexadecimal digits of a number, without leading
/// zeros.
pub open spec fn hex_codes(value: nat) -> Seq<u8>
    decreases value,
{
    if value < 16 {
        seq![digit_code(value)]
    } else {
        hex_codes(value / 16).push(digit_code(value % 16))
    }
}

/// The text of a number: `0x` and its hexadecimal digits.
pub open spec fn spec_serialize(value: u32) -> Seq<char> {
    (seq![0x30u8, 0x78u8] + hex_codes(value as nat)).map_values(|code: u8| code as char)
}

/// The codes of the digits of a number are ASCII.
proof fn lemma_hex_codes_ascii(value: nat)
    ensures
        forall|i: int| 0 <= i < hex_codes(value).len() ==> #[trigger] hex_codes(value)[i] < 0x80,
    decreases value,
{
    if value >= 16 {
        lemma_hex_codes_ascii(value / 16);
        assert forall|i: int| 0 <= i < hex_codes(value).len() implies #[trigger] hex_codes(
            value,
        )[i] < 0x80 by {
            if i < hex_codes(value / 16).len() {
                assert(hex_codes(value)[i] == hex_codes(value / 16)[i]);
            }
        }
    }
}

/// Appends the hexadecimal digits of a number.
fn push_digits(value: u32, out: &mut Vec<u8>)
    ensures
        final(out)@ == old(out)@ + hex_codes(value as nat),
    decreases value,
{
    if value >= 16 {
        push_digits(value / 16, out);
    }
    let digit: u8 = (value % 16) as u8;
    let code: u8 = if digit < 10 {
        0x30 + digit
    } else {
        0x61 + digit - 10
    };
    out.push(code);
    assert(out@ =~= old(out)@ + hex_codes(value as nat));
}

/// Writes a number in hexadecimal behind `0x`.
pub fn serialize(value: u32) -> (text: String)
    ensures
        text@ == spec_serialize(value),
{
    broadcast use {encode_utf8_decode_utf8, encode_utf8_valid_utf8, is_ascii_chars_encode_utf8};

    let mut codes: Vec<u8> = Vec::new();
    codes.push(0x30);
    codes.push(0x78);
    push_digits(value, &mut codes);
    proof {
        let chars = spec_serialize(value);
        lemma_hex_codes_ascii(value as nat);
        assert(codes@ =~= seq![0x30u8, 0x78u8] + hex_codes(value as nat));
        assert forall|i: int| 0 <= i < chars.len() implies '\0' <= #[trigger] chars[i]
            <= '\u{7f}' && chars[i] as u8 == codes@[i] by {
            let code: u8 = codes@[i];
            assert(code < 0x80);
            assert(chars[i] == code as char);
        }
        assert(is_ascii_chars(chars));
        assert(codes@ =~= encode_utf8(chars));
    }
    match string_from_utf8(codes) {
        Some(text) => text,
        None => String::new(),
    }
}

/// A text without the `0x` that it starts with, as often as it starts with
/// one.
pub open spec fn strip_prefixes(text: Seq<u8>) -> Seq<u8>
    decreases text.len(),
{
    if text.len() >= 2 && text[0] == 0x30 && text[1] == 0x78 {
        strip_prefixes(text.skip(2))
    } else {
        text
    }
}

/// The number that the first `n` bytes of `text` are the hexadecimal digits
/// of, in either case, if they all are digits.
pub open spec fn hex_value(text: Seq<u8>, n: nat) -> Option<nat>
    decreases n,
{
    if n == 0 {
        Some(0)
    } else {
        match hex_value(text, (n - 1) as nat) {
            None => None,
            Some(front) => match hex_digit(text[n - 1]) {
                None => None,
                Some(digit) => Some(16 * front + digit as nat),
            },
        }
    }
}

/// The number that a text stands for: behind any `0x` at its start and an
/// optional `+`, at least one hexadecimal digit and nothing else, and the
/// number fits 32 bits.
pub open spec fn spec_deserialize(text: Seq<u8>) -> Option<u32> {
    let stripped = strip_prefixes(text);
    let digits = if stripped.len() > 0 && stripped[0] == 0x2b {
        stripped.skip(1)
    } else {
        stripped
    };
    if digits.len() == 0 {
        None
    } else {
        match hex_value(digits, digits.len()) {
            Some(value) => if value <= u32::MAX {
                Some(value as u32)
            } else {
                None
            },
            None => None,
        }
    }
}

/// A text that has a byte which is no digit stands for no number, however
/// long.
proof fn lemma_hex_value_stays_none(text: Seq<u8>, k: nat, n: nat)
    requires
        k <= n,
        hex_value(text, k) is None,
    ensures
        hex_value(text, n) is None,
    decreases n,
{
    if n > k {
        lemma_hex_value_stays_none(text, k, (n - 1) as nat);
    }
}

/// More digits do not make a number smaller.
proof fn lemma_hex_value_grows(text: Seq<u8>, k: nat, n: nat)
    requires
        k <= n,
        hex_value(text, k) is Some,
        hex_value(text, n) is Some,
    ensures
        hex_value(text, k)->0 <= hex_value(text, n)->0,
    decreases n,
{
    if n > k {
        if hex_value(text, (n - 1) as nat) is None {
            lemma_hex_value_stays_none(text, (n - 1) as nat, n);
        }
        lemma_hex_value_grows(text, k, (n - 1) as nat);
    }
}

/// The value of a hexadecimal digit, in either case.
fn digit_value(c: u8) -> (digit: Option<u8>)
    ensures
        digit == hex_digit(c),
{
    if 0x41 <= c && c <= 0x46 {
        Some(c - 0x41 + 10)
    } else if 0x61 <= c && c <= 0x66 {
        Some(c - 0x61 + 10)
    } else if 0x30 <= c && c <= 0x39 {
        Some(c - 0x30)
    } else {
        None
    }
}

/// Reads a number in hexadecimal, with or without `0x` in front.
pub fn deserialize(text: &str) -> (value: Option<u32>)
    ensures
        value == spec_deserialize(encode_utf8(text@)),
{
    broadcast use {
        vstd::seq_lib::lemma_seq_skip_of_skip,
        vstd::seq_lib::lemma_seq_skip_nothing,
    };

    let bytes = text.as_bytes();
    let mut start: usize = 0;
    while bytes.len() - start >= 2 && bytes[start] == 0x30 && bytes[start + 1] == 0x78
        invariant
            start <= bytes@.len(),
            strip_prefixes(bytes@) == strip_prefixes(bytes@.skip(start as int)),
        decreases bytes@.len() - start,
    {
        proof {
            let here = bytes@.skip(start as int);
            assert(here[0] == bytes@[start as int] && here[1] == bytes@[start + 1]);
            assert(here.skip(2) == bytes@.skip(start + 2));
        }
        start += 2;
    }
    proof {
        let here = bytes@.skip(start as int);
        if here.len() >= 2 {
            assert(here[0] == bytes@[start as int] && here[1] == bytes@[start + 1]);
        }
        assert(strip_prefixes(here) == here);
    }
    let ghost stripped = bytes@.skip(start as int);
    if start < bytes.len() && bytes[start] == 0x2b {
        assert(stripped[0] == bytes@[start as int]);
        assert(stripped.skip(1) == bytes@.skip(start + 1));
        start += 1;
    } else {
        proof {
            if stripped.len() > 0 {
                assert(stripped[0] == bytes@[start as int]);
            }
        }
    }
    let ghost digits = bytes@.skip(start as int);
    if start == bytes.len() {
        return None;
    }
    let mut value: u64 = 0;
    let mut k: usize = start;
    while k < bytes.len()
        invariant
            start <= k <= bytes@.len(),
            digits == bytes@.skip(start as int),
            bytes@ == encode_utf8(text@),
            spec_deserialize(bytes@) == match hex_value(digits, digits.len()) {
                Some(all) => if all <= u32::MAX {
                    Some(all as u32)
                } else {
                    None
                },
                None => None,
            },
            hex_value(digits, (k - start) as nat) == Some(value as nat),
            value <= u32::MAX,
        decreases bytes@.len() - k,
    {
        assert(digits[k - start] == bytes@[k as int]);
        match digit_value(bytes[k]) {
            None => {
                proof {
                    assert(hex_value(digits, (k - start + 1) as nat) is None);
                    lemma_hex_value_stays_none(digits, (k - start + 1) as nat, digits.len());
                }
                return None;
            },
            Some(digit) => {
                let next: u64 = 16 * value + digit as u64;
                assert(hex_value(digits, (k - start + 1) as nat) == Some(next as nat));
                if next > 0xffff_ffff {
                    proof {
                        if hex_value(digits, digits.len()) is Some {
                            lemma_hex_value_grows(digits, (k - start + 1) as nat, digits.len());
                        }
                    }
                    return None;
                }
                value = next;
            },
        }
        k += 1;
    }
    Some(value as u32)
}

} // verus!
