//! Readers for the primitive values of the bytecode: raw little-endian
//! integers, variable-length integers and length-prefixed strings.

use vstd::prelude::*;
use vstd::utf8::*;
use crate::cursor::{pow256, Cursor};
use crate::avm2::{Parse, ParseError, Parsed};
use crate::ieee::F64;
use crate::text::string_from_utf8;

verus! {

/// The failure of a reader that needs `needed` bytes and finds `input`.
pub open spec fn short<T>(input: Seq<u8>, needed: usize) -> Parsed<T> {
    Parsed {
        rest: input,
        result: Err(ParseError::InsufficientBytes { remaining: input.len() as usize, needed }),
    }
}

/// What reading one byte does.
#[verifier::opaque]
pub open spec fn spec_byte(input: Seq<u8>) -> Parsed<u8> {
    if input.len() >= 1 {
        Parsed { rest: input.skip(1), result: Ok(input[0]) }
    } else {
        short(input, 1)
    }
}

impl Parse for u8 {
    open spec fn spec_parse(input: Seq<u8>) -> Parsed<u8> {
        spec_byte(input)
    }

    fn parse_avm2(input: &mut Cursor) -> (r: Result<u8, ParseError>) {
        reveal(spec_byte);
        if input.remaining() >= 1 {
            Ok(input.get_u8())
        } else {
            Err(ParseError::InsufficientBytes { remaining: input.remaining(), needed: 1 })
        }
    }
}

/// The 16-bit number whose little-endian bytes start `input`.
pub open spec fn le_u16(input: Seq<u8>) -> u16 {
    (input[0] as int + 256 * (input[1] as int)) as u16
}

/// What reading a raw 16-bit number does.
#[verifier::opaque]
pub open spec fn spec_le_u16(input: Seq<u8>) -> Parsed<u16> {
    if input.len() >= 2 {
        Parsed { rest: input.skip(2), result: Ok(le_u16(input)) }
    } else {
        short(input, 2)
    }
}

impl Parse for u16 {
    open spec fn spec_parse(input: Seq<u8>) -> Parsed<u16> {
        spec_le_u16(input)
    }

    fn parse_avm2(input: &mut Cursor) -> (r: Result<u16, ParseError>) {
        reveal(spec_le_u16);
        if input.remaining() >= 2 {
            let lo: u8 = input.peek(0);
            let hi: u8 = input.peek(1);
            input.advance(2);
            Ok(lo as u16 + 256 * (hi as u16))
        } else {
            Err(ParseError::InsufficientBytes { remaining: input.remaining(), needed: 2 })
        }
    }
}

/// The number whose little-endian base-256 digits are the first `n` bytes of
/// `input`.
pub open spec fn le_value(input: Seq<u8>, n: nat) -> nat
    decreases n,
{
    if n == 0 {
        0
    } else {
        input[0] as nat + 256 * le_value(input.skip(1), (n - 1) as nat)
    }
}

/// What reading a raw 64-bit floating-point number does.
#[verifier::opaque]
pub open spec fn spec_le_f64(input: Seq<u8>) -> Parsed<F64> {
    if input.len() >= 8 {
        Parsed { rest: input.skip(8), result: Ok(F64 { bits: le_value(input, 8) as u64 }) }
    } else {
        short(input, 8)
    }
}

impl Parse for F64 {
    open spec fn spec_parse(input: Seq<u8>) -> Parsed<F64> {
        spec_le_f64(input)
    }

    fn parse_avm2(input: &mut Cursor) -> (r: Result<F64, ParseError>) {
        reveal(spec_le_f64);
        if input.remaining() >= 8 {
            let mut bits: u64 = 0;
            let mut k: usize = 8;
            assert(input@.skip(8).len() == input@.len() - 8);
            while k > 0
                invariant
                    k <= 8,
                    input@.len() >= 8,
                    input@ == old(input)@,
                    bits == le_value(input@.skip(k as int), (8 - k) as nat),
                    bits < pow256((8 - k) as nat),
                decreases k,
            {
                k -= 1;
                let b: u8 = input.peek(k);
                proof {
                    assert(input@.skip(k as int).skip(1) =~= input@.skip(k + 1));
                    reveal_with_fuel(pow256, 9);
                }
                bits = b as u64 + 256 * bits;
            }
            proof {
                assert(input@.skip(0) =~= input@);
            }
            input.advance(8);
            Ok(F64 { bits })
        } else {
            Err(ParseError::InsufficientBytes { remaining: input.remaining(), needed: 8 })
        }
    }
}

/// Whether the byte at offset `k` exists and has its high bit set, so that the
/// variable-length integer goes on after it.
pub open spec fn continued(input: Seq<u8>, k: int) -> bool {
    k < input.len() && input[k] >= 128
}

/// The number of bytes of the variable-length integer that starts `input`: one
/// more than the number of leading bytes with the high bit set, and at most 5.
#[verifier::opaque]
pub open spec fn varint_len(input: Seq<u8>) -> nat {
    if !continued(input, 0) {
        1
    } else if !continued(input, 1) {
        2
    } else if !continued(input, 2) {
        3
    } else if !continued(input, 3) {
        4
    } else {
        5
    }
}

/// The number whose base-128 digits, lowest first, are the low seven bits of
/// the first `n` bytes of `input`.
pub open spec fn varint_sum(input: Seq<u8>, n: nat) -> nat
    decreases n,
{
    if n == 0 {
        0
    } else {
        (input[0] % 128) as nat + 128 * varint_sum(input.skip(1), (n - 1) as nat)
    }
}

/// The value of a variable-length integer of `n` bytes: the lower 32 bits of
/// [`varint_sum`].
#[verifier::opaque]
pub open spec fn varint_value(input: Seq<u8>, n: nat) -> u32 {
    (varint_sum(input, n) % 0x1_0000_0000) as u32
}

/// 128 to the power `n`.
pub open spec fn pow128(n: nat) -> nat
    decreases n,
{
    if n == 0 {
        1
    } else {
        128 * pow128((n - 1) as nat)
    }
}

/// What reading a variable-length integer does. The encoding is shared by
/// the unsigned 30-bit, unsigned 32-bit and signed 32-bit integers of the
/// bytecode.
#[verifier::opaque]
pub open spec fn spec_varint(input: Seq<u8>) -> Parsed<u32> {
    let len = varint_len(input);
    if input.len() < len {
        short(input, len as usize)
    } else {
        Parsed { rest: input.skip(len as int), result: Ok(varint_value(input, len)) }
    }
}

impl Parse for u32 {
    open spec fn spec_parse(input: Seq<u8>) -> Parsed<u32> {
        spec_varint(input)
    }

    fn parse_avm2(input: &mut Cursor) -> (r: Result<u32, ParseError>) {
        reveal(spec_varint);
        reveal(varint_len);
        reveal(varint_value);
        let remaining = input.remaining();
        let mut len: usize = 1;
        while len < 5 && len <= remaining && input.peek(len - 1) >= 128
            invariant
                1 <= len <= 5,
                remaining == input@.len(),
                input@ == old(input)@,
                forall|k: int| 0 <= k < len - 1 ==> continued(input@, k),
            decreases 5 - len,
        {
            len += 1;
        }
        assert(len == varint_len(input@));
        if remaining < len {
            assert(input@.skip(0) =~= input@);
            return Err(ParseError::InsufficientBytes { remaining, needed: len });
        }
        let mut value: u64 = 0;
        let mut k: usize = len;
        while k > 0
            invariant
                k <= len <= 5,
                len <= input@.len(),
                input@ == old(input)@,
                value == varint_sum(input@.skip(k as int), (len - k) as nat),
                value < pow128((len - k) as nat),
            decreases k,
        {
            k -= 1;
            let b: u8 = input.peek(k);
            proof {
                assert(input@.skip(k as int).skip(1) =~= input@.skip(k + 1));
                reveal_with_fuel(pow128, 6);
            }
            value = (b % 128) as u64 + 128 * value;
        }
        proof {
            assert(input@.skip(0) =~= input@);
        }
        input.advance(len);
        Ok((value % 0x1_0000_0000) as u32)
    }
}

/// The signed number with the same 32 bits as `v`.
pub open spec fn reinterpret(v: u32) -> i32 {
    if v < 0x8000_0000 {
        v as i32
    } else {
        (v - 0x1_0000_0000) as i32
    }
}

/// What reading a signed variable-length integer does.
#[verifier::opaque]
pub open spec fn spec_signed_varint(input: Seq<u8>) -> Parsed<i32> {
    let word = spec_varint(input);
    Parsed {
        rest: word.rest,
        result: match word.result {
            Ok(v) => Ok(reinterpret(v)),
            Err(e) => Err(e),
        },
    }
}

impl Parse for i32 {
    open spec fn spec_parse(input: Seq<u8>) -> Parsed<i32> {
        spec_signed_varint(input)
    }

    fn parse_avm2(input: &mut Cursor) -> (r: Result<i32, ParseError>) {
        reveal(spec_signed_varint);
        let v: u32 = u32::parse_avm2(input)?;
        if v < 0x8000_0000 {
            Ok(v as i32)
        } else {
            Ok((v - 0x8000_0000) as i32 + i32::MIN)
        }
    }
}

/// The smaller of two lengths.
pub open spec fn min_len(a: nat, b: nat) -> nat {
    if a <= b {
        a
    } else {
        b
    }
}

/// What reading a string does. A string is a variable-length byte count
/// followed by that many bytes of UTF-8. Where fewer bytes are left than the
/// count says, the string is made of those that are left.
#[verifier::opaque]
pub open spec fn spec_string(input: Seq<u8>) -> Parsed<Seq<char>> {
    let count = spec_varint(input);
    match count.result {
        Err(e) => Parsed { rest: count.rest, result: Err(e) },
        Ok(n) => {
            let taken = min_len(n as nat, count.rest.len());
            let bytes = count.rest.take(taken as int);
            Parsed {
                rest: count.rest.skip(taken as int),
                result: if valid_utf8(bytes) {
                    Ok(decode_utf8(bytes))
                } else {
                    Err(ParseError::InvalidUtf8)
                },
            }
        },
    }
}

impl Parse for String {
    open spec fn spec_parse(input: Seq<u8>) -> Parsed<Seq<char>> {
        spec_string(input)
    }

    fn parse_avm2(input: &mut Cursor) -> (r: Result<String, ParseError>) {
        reveal(spec_string);
        let n: u32 = u32::parse_avm2(input)?;
        let remaining = input.remaining();
        let taken: usize = if (n as usize) <= remaining {
            n as usize
        } else {
            remaining
        };
        let ghost rest = input@;
        let bytes = input.take(taken);
        match string_from_utf8(bytes) {
            Some(s) => Ok(s),
            None => Err(ParseError::InvalidUtf8),
        }
    }
}

} // verus!
