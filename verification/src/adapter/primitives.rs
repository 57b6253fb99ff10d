//! The binary form of integers, floating-point numbers and booleans: their
//! bytes, most significant first.

use vstd::prelude::*;
use crate::adapter::{
    lemma_add_assoc, lemma_add_empty, lemma_skip_first, wrote, Adapter, Error, Written,
};
use crate::cursor::{done, pow256, then, Cursor, Read};
use crate::ieee::{F32, F64};

verus! {

broadcast use {
    lemma_add_assoc,
    lemma_add_empty,
    lemma_skip_first,
};

/// The number whose big-endian base-256 digits are the first `n` bytes of
/// `bytes`.
pub open spec fn be_value(bytes: Seq<u8>, n: nat) -> nat
    decreases n,
{
    if n == 0 {
        0
    } else {
        256 * be_value(bytes, (n - 1) as nat) + bytes[n - 1] as nat
    }
}

/// The `width` lowest base-256 digits of `value`, most significant first.
pub open spec fn be_bytes(value: nat, width: nat) -> Seq<u8>
    decreases width,
{
    if width == 0 {
        Seq::empty()
    } else {
        be_bytes(value / 256, (width - 1) as nat).push((value % 256) as u8)
    }
}

/// The encoding of a number has as many bytes as asked for.
pub proof fn lemma_be_bytes_len(value: nat, width: nat)
    ensures
        be_bytes(value, width).len() == width,
    decreases width,
{
    if width > 0 {
        lemma_be_bytes_len(value / 256, (width - 1) as nat);
    }
}

/// The value of the first `n` bytes does not depend on what follows them.
pub proof fn lemma_be_value_prefix(a: Seq<u8>, b: Seq<u8>, n: nat)
    requires
        n <= a.len(),
        n <= b.len(),
        forall|k: int| 0 <= k < n ==> a[k] == b[k],
    ensures
        be_value(a, n) == be_value(b, n),
    decreases n,
{
    if n > 0 {
        lemma_be_value_prefix(a, b, (n - 1) as nat);
    }
}

/// The value of `n` bytes is below 256 to the power `n`.
pub proof fn lemma_be_value_bound(bytes: Seq<u8>, n: nat)
    ensures
        be_value(bytes, n) < pow256(n),
    decreases n,
{
    if n > 0 {
        lemma_be_value_bound(bytes, (n - 1) as nat);
    }
}

/// A number that fits `width` bytes is the value of its encoding.
pub proof fn lemma_be_value_of_bytes(value: nat, width: nat)
    requires
        value < pow256(width),
    ensures
        be_value(be_bytes(value, width), width) == value,
    decreases width,
{
    if width > 0 {
        let front = be_bytes(value / 256, (width - 1) as nat);
        let all = be_bytes(value, width);
        lemma_be_bytes_len(value / 256, (width - 1) as nat);
        lemma_be_value_of_bytes(value / 256, (width - 1) as nat);
        lemma_be_value_prefix(all, front, (width - 1) as nat);
    }
}

/// What decoding an unsigned number of `width` bytes does.
#[verifier::opaque]
pub open spec fn spec_get_uint(input: Seq<u8>, width: nat) -> Read<nat, Error> {
    if input.len() < width {
        Read {
            rest: input,
            result: Err(
                Error::InsufficientBytes { remaining: input.len() as usize, needed: width as usize },
            ),
        }
    } else {
        Read { rest: input.skip(width as int), result: Ok(be_value(input, width)) }
    }
}

/// Decoding the encoding of a number that fits `width` bytes gives the number.
pub proof fn lemma_uint_round_trip(value: nat, width: nat, rest: Seq<u8>)
    requires
        value < pow256(width),
    ensures
        spec_get_uint(be_bytes(value, width) + rest, width) == (Read::<nat, Error> {
            rest,
            result: Ok(value),
        }),
{
    reveal(spec_get_uint);
    lemma_be_bytes_len(value, width);
    lemma_be_value_of_bytes(value, width);
    lemma_be_value_prefix(be_bytes(value, width) + rest, be_bytes(value, width), width);
}

/// Decodes an unsigned number of `width` bytes.
pub fn get_uint(bytes: &mut Cursor, width: usize) -> (r: Result<u128, Error>)
    requires
        1 <= width <= 16,
    ensures
        old(bytes)@.len() < width ==> r == Err::<u128, Error>(
            Error::InsufficientBytes { remaining: old(bytes)@.len() as usize, needed: width },
        ) && final(bytes)@ == old(bytes)@,
        old(bytes)@.len() >= width ==> r == Ok::<u128, Error>(
            be_value(old(bytes)@, width as nat) as u128,
        ) && final(bytes)@ == old(bytes)@.skip(width as int),
        r is Ok ==> r->Ok_0 < pow256(width as nat),
        r is Ok ==> r->Ok_0 == be_value(old(bytes)@, width as nat),
{
    let remaining = bytes.remaining();
    if remaining < width {
        return Err(Error::InsufficientBytes { remaining, needed: width });
    }
    let mut value: u128 = 0;
    let mut k: usize = 0;
    while k < width
        invariant
            k <= width <= 16,
            width <= bytes@.len(),
            bytes@ == old(bytes)@,
            value == be_value(bytes@, k as nat),
            value < pow256(k as nat),
        decreases width - k,
    {
        let b: u8 = bytes.peek(k);
        proof {
            reveal_with_fuel(pow256, 17);
        }
        value = 256 * value + b as u128;
        k += 1;
    }
    bytes.advance(width);
    Ok(value)
}

/// Encodes an unsigned number in `width` bytes.
pub fn put_uint(buffer: &mut Vec<u8>, value: u128, width: usize)
    requires
        1 <= width <= 16,
    ensures
        final(buffer)@ == old(buffer)@ + be_bytes(value as nat, width as nat),
{
    let mut digits: [u8; 16] = [0u8; 16];
    let mut left: u128 = value;
    let mut k: usize = 0;
    while k < width
        invariant
            k <= width <= 16,
            be_bytes(value as nat, width as nat) == be_bytes(left as nat, (width - k) as nat)
                + digits@.subrange(16 - k, 16),
        decreases width - k,
    {
        let ghost before = digits@;
        digits[15 - k] = (left % 256) as u8;
        proof {
            let front = be_bytes((left / 256) as nat, (width - k - 1) as nat);
            assert(be_bytes(left as nat, (width - k) as nat) == front.push((left % 256) as u8));
            assert(front.push((left % 256) as u8) + before.subrange(16 - k, 16) =~= front
                + digits@.subrange(16 - k - 1, 16));
        }
        left = left / 256;
        k += 1;
    }
    let mut m: usize = 16 - width;
    while m < 16
        invariant
            16 - width <= m <= 16,
            width <= 16,
            buffer@ == old(buffer)@ + digits@.subrange(16 - width, m as int),
            be_bytes(value as nat, width as nat) == digits@.subrange(16 - width, 16),
        decreases 16 - m,
    {
        buffer.push(digits[m]);
        assert(digits@.subrange(16 - width, m + 1) =~= digits@.subrange(16 - width, m as int).push(
            digits@[m as int],
        ));
        assert(old(buffer)@ + digits@.subrange(16 - width, m + 1) =~= (old(buffer)@
            + digits@.subrange(16 - width, m as int)).push(digits@[m as int]));
        m += 1;
    }
}

impl Adapter for u8 {
    #[verifier::opaque]
    open spec fn spec_get(input: Seq<u8>) -> Read<u8, Error> {
        then(spec_get_uint(input, 1), |value: nat, rest: Seq<u8>| done(value as u8, rest))
    }

    #[verifier::opaque]
    open spec fn spec_put(value: u8) -> Written {
        wrote(be_bytes(value as nat, 1))
    }

    open spec fn round_trips(value: u8, rest: Seq<u8>) -> bool {
        true
    }

    fn get_be(bytes: &mut Cursor) -> (r: Result<u8, Error>) {
        reveal(<u8 as Adapter>::spec_get);
        reveal(spec_get_uint);
        let value: u128 = get_uint(bytes, 1)?;
        proof {
            reveal_with_fuel(pow256, 17);
        }
        Ok(value as u8)
    }

    fn put_be(&self, buffer: &mut Vec<u8>) -> (r: Result<(), Error>) {
        reveal(<u8 as Adapter>::spec_put);
        put_uint(buffer, *self as u128, 1);
        Ok(())
    }

    proof fn lemma_round_trip(value: u8, rest: Seq<u8>) {
        reveal(<u8 as Adapter>::spec_get);
        reveal(<u8 as Adapter>::spec_put);
        reveal_with_fuel(pow256, 17);
        lemma_be_bytes_len(value as nat, 1);
        lemma_uint_round_trip(value as nat, 1, rest);
    }
}

impl Adapter for u16 {
    #[verifier::opaque]
    open spec fn spec_get(input: Seq<u8>) -> Read<u16, Error> {
        then(spec_get_uint(input, 2), |value: nat, rest: Seq<u8>| done(value as u16, rest))
    }

    #[verifier::opaque]
    open spec fn spec_put(value: u16) -> Written {
        wrote(be_bytes(value as nat, 2))
    }

    open spec fn round_trips(value: u16, rest: Seq<u8>) -> bool {
        true
    }

    fn get_be(bytes: &mut Cursor) -> (r: Result<u16, Error>) {
        reveal(<u16 as Adapter>::spec_get);
        reveal(spec_get_uint);
        let value: u128 = get_uint(bytes, 2)?;
        proof {
            reveal_with_fuel(pow256, 17);
        }
        Ok(value as u16)
    }

    fn put_be(&self, buffer: &mut Vec<u8>) -> (r: Result<(), Error>) {
        reveal(<u16 as Adapter>::spec_put);
        put_uint(buffer, *self as u128, 2);
        Ok(())
    }

    proof fn lemma_round_trip(value: u16, rest: Seq<u8>) {
        reveal(<u16 as Adapter>::spec_get);
        reveal(<u16 as Adapter>::spec_put);
        reveal_with_fuel(pow256, 17);
        lemma_be_bytes_len(value as nat, 2);
        lemma_uint_round_trip(value as nat, 2, rest);
    }
}

impl Adapter for u32 {
    #[verifier::opaque]
    open spec fn spec_get(input: Seq<u8>) -> Read<u32, Error> {
        then(spec_get_uint(input, 4), |value: nat, rest: Seq<u8>| done(value as u32, rest))
    }

    #[verifier::opaque]
    open spec fn spec_put(value: u32) -> Written {
        wrote(be_bytes(value as nat, 4))
    }

    open spec fn round_trips(value: u32, rest: Seq<u8>) -> bool {
        true
    }

    fn get_be(bytes: &mut Cursor) -> (r: Result<u32, Error>) {
        reveal(<u32 as Adapter>::spec_get);
        reveal(spec_get_uint);
        let value: u128 = get_uint(bytes, 4)?;
        proof {
            reveal_with_fuel(pow256, 17);
        }
        Ok(value as u32)
    }

    fn put_be(&self, buffer: &mut Vec<u8>) -> (r: Result<(), Error>) {
        reveal(<u32 as Adapter>::spec_put);
        put_uint(buffer, *self as u128, 4);
        Ok(())
    }

    proof fn lemma_round_trip(value: u32, rest: Seq<u8>) {
        reveal(<u32 as Adapter>::spec_get);
        reveal(<u32 as Adapter>::spec_put);
        reveal_with_fuel(pow256, 17);
        lemma_be_bytes_len(value as nat, 4);
        lemma_uint_round_trip(value as nat, 4, rest);
    }
}

impl Adapter for u64 {
    #[verifier::opaque]
    open spec fn spec_get(input: Seq<u8>) -> Read<u64, Error> {
        then(spec_get_uint(input, 8), |value: nat, rest: Seq<u8>| done(value as u64, rest))
    }

    #[verifier::opaque]
    open spec fn spec_put(value: u64) -> Written {
        wrote(be_bytes(value as nat, 8))
    }

    open spec fn round_trips(value: u64, rest: Seq<u8>) -> bool {
        true
    }

    fn get_be(bytes: &mut Cursor) -> (r: Result<u64, Error>) {
        reveal(<u64 as Adapter>::spec_get);
        reveal(spec_get_uint);
        let value: u128 = get_uint(bytes, 8)?;
        proof {
            reveal_with_fuel(pow256, 17);
        }
        Ok(value as u64)
    }

    fn put_be(&self, buffer: &mut Vec<u8>) -> (r: Result<(), Error>) {
        reveal(<u64 as Adapter>::spec_put);
        put_uint(buffer, *self as u128, 8);
        Ok(())
    }

    proof fn lemma_round_trip(value: u64, rest: Seq<u8>) {
        reveal(<u64 as Adapter>::spec_get);
        reveal(<u64 as Adapter>::spec_put);
        reveal_with_fuel(pow256, 17);
        lemma_be_bytes_len(value as nat, 8);
        lemma_uint_round_trip(value as nat, 8, rest);
    }
}

impl Adapter for u128 {
    #[verifier::opaque]
    open spec fn spec_get(input: Seq<u8>) -> Read<u128, Error> {
        then(spec_get_uint(input, 16), |value: nat, rest: Seq<u8>| done(value as u128, rest))
    }

    #[verifier::opaque]
    open spec fn spec_put(value: u128) -> Written {
        wrote(be_bytes(value as nat, 16))
    }

    open spec fn round_trips(value: u128, rest: Seq<u8>) -> bool {
        true
    }

    fn get_be(bytes: &mut Cursor) -> (r: Result<u128, Error>) {
        reveal(<u128 as Adapter>::spec_get);
        reveal(spec_get_uint);
        let value: u128 = get_uint(bytes, 16)?;
        proof {
            reveal_with_fuel(pow256, 17);
        }
        Ok(value as u128)
    }

    fn put_be(&self, buffer: &mut Vec<u8>) -> (r: Result<(), Error>) {
        reveal(<u128 as Adapter>::spec_put);
        put_uint(buffer, *self as u128, 16);
        Ok(())
    }

    proof fn lemma_round_trip(value: u128, rest: Seq<u8>) {
        reveal(<u128 as Adapter>::spec_get);
        reveal(<u128 as Adapter>::spec_put);
        reveal_with_fuel(pow256, 17);
        lemma_be_bytes_len(value as nat, 16);
        lemma_uint_round_trip(value as nat, 16, rest);
    }
}

impl Adapter for i8 {
    #[verifier::opaque]
    open spec fn spec_get(input: Seq<u8>) -> Read<i8, Error> {
        then(spec_get_uint(input, 1), |value: nat, rest: Seq<u8>|
            done(if value < 0x80 {
                value as i8
            } else {
                (value - 0x100) as i8
            }, rest))
    }

    #[verifier::opaque]
    open spec fn spec_put(value: i8) -> Written {
        wrote(be_bytes(if value >= 0 {
            value as nat
        } else {
            (value + 0x100) as nat
        }, 1))
    }

    open spec fn round_trips(value: i8, rest: Seq<u8>) -> bool {
        true
    }

    fn get_be(bytes: &mut Cursor) -> (r: Result<i8, Error>) {
        reveal(<i8 as Adapter>::spec_get);
        reveal(spec_get_uint);
        let value: u128 = get_uint(bytes, 1)?;
        proof {
            reveal_with_fuel(pow256, 17);
        }
        if value < 0x80 {
            Ok(value as i8)
        } else {
            Ok((value as i128 - 0x100) as i8)
        }
    }

    fn put_be(&self, buffer: &mut Vec<u8>) -> (r: Result<(), Error>) {
        reveal(<i8 as Adapter>::spec_put);
        let bits: u128 = if *self >= 0 {
            *self as u128
        } else {
            (*self as i128 + 0x100) as u128
        };
        put_uint(buffer, bits, 1);
        Ok(())
    }

    proof fn lemma_round_trip(value: i8, rest: Seq<u8>) {
        reveal(<i8 as Adapter>::spec_get);
        reveal(<i8 as Adapter>::spec_put);
        reveal_with_fuel(pow256, 17);
        let bits: nat = if value >= 0 {
            value as nat
        } else {
            (value + 0x100) as nat
        };
        lemma_be_bytes_len(bits, 1);
        lemma_uint_round_trip(bits, 1, rest);
    }
}

impl Adapter for i16 {
    #[verifier::opaque]
    open spec fn spec_get(input: Seq<u8>) -> Read<i16, Error> {
        then(spec_get_uint(input, 2), |value: nat, rest: Seq<u8>|
            done(if value < 0x8000 {
                value as i16
            } else {
                (value - 0x1_0000) as i16
            }, rest))
    }

    #[verifier::opaque]
    open spec fn spec_put(value: i16) -> Written {
        wrote(be_bytes(if value >= 0 {
            value as nat
        } else {
            (value + 0x1_0000) as nat
        }, 2))
    }

    open spec fn round_trips(value: i16, rest: Seq<u8>) -> bool {
        true
    }

    fn get_be(bytes: &mut Cursor) -> (r: Result<i16, Error>) {
        reveal(<i16 as Adapter>::spec_get);
        reveal(spec_get_uint);
        let value: u128 = get_uint(bytes, 2)?;
        proof {
            reveal_with_fuel(pow256, 17);
        }
        if value < 0x8000 {
            Ok(value as i16)
        } else {
            Ok((value as i128 - 0x1_0000) as i16)
        }
    }

    fn put_be(&self, buffer: &mut Vec<u8>) -> (r: Result<(), Error>) {
        reveal(<i16 as Adapter>::spec_put);
        let bits: u128 = if *self >= 0 {
            *self as u128
        } else {
            (*self as i128 + 0x1_0000) as u128
        };
        put_uint(buffer, bits, 2);
        Ok(())
    }

    proof fn lemma_round_trip(value: i16, rest: Seq<u8>) {
        reveal(<i16 as Adapter>::spec_get);
        reveal(<i16 as Adapter>::spec_put);
        reveal_with_fuel(pow256, 17);
        let bits: nat = if value >= 0 {
            value as nat
        } else {
            (value + 0x1_0000) as nat
        };
        lemma_be_bytes_len(bits, 2);
        lemma_uint_round_trip(bits, 2, rest);
    }
}

impl Adapter for i32 {
    #[verifier::opaque]
    open spec fn spec_get(input: Seq<u8>) -> Read<i32, Error> {
        then(spec_get_uint(input, 4), |value: nat, rest: Seq<u8>|
            done(if value < 0x8000_0000 {
                value as i32
            } else {
                (value - 0x1_0000_0000) as i32
            }, rest))
    }

    #[verifier::opaque]
    open spec fn spec_put(value: i32) -> Written {
        wrote(be_bytes(if value >= 0 {
            value as nat
        } else {
            (value + 0x1_0000_0000) as nat
        }, 4))
    }

    open spec fn round_trips(value: i32, rest: Seq<u8>) -> bool {
        true
    }

    fn get_be(bytes: &mut Cursor) -> (r: Result<i32, Error>) {
        reveal(<i32 as Adapter>::spec_get);
        reveal(spec_get_uint);
        let value: u128 = get_uint(bytes, 4)?;
        proof {
            reveal_with_fuel(pow256, 17);
        }
        if value < 0x8000_0000 {
            Ok(value as i32)
        } else {
            Ok((value as i128 - 0x1_0000_0000) as i32)
        }
    }

    fn put_be(&self, buffer: &mut Vec<u8>) -> (r: Result<(), Error>) {
        reveal(<i32 as Adapter>::spec_put);
        let bits: u128 = if *self >= 0 {
            *self as u128
        } else {
            (*self as i128 + 0x1_0000_0000) as u128
        };
        put_uint(buffer, bits, 4);
        Ok(())
    }

    proof fn lemma_round_trip(value: i32, rest: Seq<u8>) {
        reveal(<i32 as Adapter>::spec_get);
        reveal(<i32 as Adapter>::spec_put);
        reveal_with_fuel(pow256, 17);
        let bits: nat = if value >= 0 {
            value as nat
        } else {
            (value + 0x1_0000_0000) as nat
        };
        lemma_be_bytes_len(bits, 4);
        lemma_uint_round_trip(bits, 4, rest);
    }
}

impl Adapter for i64 {
    #[verifier::opaque]
    open spec fn spec_get(input: Seq<u8>) -> Read<i64, Error> {
        then(spec_get_uint(input, 8), |value: nat, rest: Seq<u8>|
            done(if value < 0x8000_0000_0000_0000 {
                value as i64
            } else {
                (value - 0x1_0000_0000_0000_0000) as i64
            }, rest))
    }

    #[verifier::opaque]
    open spec fn spec_put(value: i64) -> Written {
        wrote(be_bytes(if value >= 0 {
            value as nat
        } else {
            (value + 0x1_0000_0000_0000_0000) as nat
        }, 8))
    }

    open spec fn round_trips(value: i64, rest: Seq<u8>) -> bool {
        true
    }

    fn get_be(bytes: &mut Cursor) -> (r: Result<i64, Error>) {
        reveal(<i64 as Adapter>::spec_get);
        reveal(spec_get_uint);
        let value: u128 = get_uint(bytes, 8)?;
        proof {
            reveal_with_fuel(pow256, 17);
        }
        if value < 0x8000_0000_0000_0000 {
            Ok(value as i64)
        } else {
            Ok((value as i128 - 0x1_0000_0000_0000_0000) as i64)
        }
    }

    fn put_be(&self, buffer: &mut Vec<u8>) -> (r: Result<(), Error>) {
        reveal(<i64 as Adapter>::spec_put);
        let bits: u128 = if *self >= 0 {
            *self as u128
        } else {
            (*self as i128 + 0x1_0000_0000_0000_0000) as u128
        };
        put_uint(buffer, bits, 8);
        Ok(())
    }

    proof fn lemma_round_trip(value: i64, rest: Seq<u8>) {
        reveal(<i64 as Adapter>::spec_get);
        reveal(<i64 as Adapter>::spec_put);
        reveal_with_fuel(pow256, 17);
        let bits: nat = if value >= 0 {
            value as nat
        } else {
            (value + 0x1_0000_0000_0000_0000) as nat
        };
        lemma_be_bytes_len(bits, 8);
        lemma_uint_round_trip(bits, 8, rest);
    }
}

impl Adapter for i128 {
    #[verifier::opaque]
    open spec fn spec_get(input: Seq<u8>) -> Read<i128, Error> {
        then(spec_get_uint(input, 16), |value: nat, rest: Seq<u8>|
            done(if value < 0x8000_0000_0000_0000_0000_0000_0000_0000 {
                value as i128
            } else {
                (value - 0x1_0000_0000_0000_0000_0000_0000_0000_0000) as i128
            }, rest))
    }

    #[verifier::opaque]
    open spec fn spec_put(value: i128) -> Written {
        wrote(be_bytes(if value >= 0 {
            value as nat
        } else {
            (value + 0x1_0000_0000_0000_0000_0000_0000_0000_0000) as nat
        }, 16))
    }

    open spec fn round_trips(value: i128, rest: Seq<u8>) -> bool {
        true
    }

    fn get_be(bytes: &mut Cursor) -> (r: Result<i128, Error>) {
        reveal(<i128 as Adapter>::spec_get);
        reveal(spec_get_uint);
        let value: u128 = get_uint(bytes, 16)?;
        proof {
            reveal_with_fuel(pow256, 17);
        }
        if value < 0x8000_0000_0000_0000_0000_0000_0000_0000 {
            Ok(value as i128)
        } else {
            Ok((value - 0x8000_0000_0000_0000_0000_0000_0000_0000) as i128 + i128::MIN)
        }
    }

    fn put_be(&self, buffer: &mut Vec<u8>) -> (r: Result<(), Error>) {
        reveal(<i128 as Adapter>::spec_put);
        let bits: u128 = if *self >= 0 {
            *self as u128
        } else {
            (*self - i128::MIN) as u128 + 0x8000_0000_0000_0000_0000_0000_0000_0000
        };
        put_uint(buffer, bits, 16);
        Ok(())
    }

    proof fn lemma_round_trip(value: i128, rest: Seq<u8>) {
        reveal(<i128 as Adapter>::spec_get);
        reveal(<i128 as Adapter>::spec_put);
        reveal_with_fuel(pow256, 17);
        let bits: nat = if value >= 0 {
            value as nat
        } else {
            (value + 0x1_0000_0000_0000_0000_0000_0000_0000_0000) as nat
        };
        lemma_be_bytes_len(bits, 16);
        lemma_uint_round_trip(bits, 16, rest);
    }
}

impl Adapter for F32 {
    #[verifier::opaque]
    open spec fn spec_get(input: Seq<u8>) -> Read<F32, Error> {
        then(spec_get_uint(input, 4), |value: nat, rest: Seq<u8>|
            done(F32 { bits: value as u32 }, rest))
    }

    #[verifier::opaque]
    open spec fn spec_put(value: F32) -> Written {
        wrote(be_bytes(value.bits as nat, 4))
    }

    open spec fn round_trips(value: F32, rest: Seq<u8>) -> bool {
        true
    }

    fn get_be(bytes: &mut Cursor) -> (r: Result<F32, Error>) {
        reveal(<F32 as Adapter>::spec_get);
        reveal(spec_get_uint);
        let value: u128 = get_uint(bytes, 4)?;
        proof {
            reveal_with_fuel(pow256, 17);
        }
        Ok(F32 { bits: value as u32 })
    }

    fn put_be(&self, buffer: &mut Vec<u8>) -> (r: Result<(), Error>) {
        reveal(<F32 as Adapter>::spec_put);
        put_uint(buffer, self.bits as u128, 4);
        Ok(())
    }

    proof fn lemma_round_trip(value: F32, rest: Seq<u8>) {
        reveal(<F32 as Adapter>::spec_get);
        reveal(<F32 as Adapter>::spec_put);
        reveal_with_fuel(pow256, 17);
        lemma_be_bytes_len(value.bits as nat, 4);
        lemma_uint_round_trip(value.bits as nat, 4, rest);
    }
}

impl Adapter for F64 {
    #[verifier::opaque]
    open spec fn spec_get(input: Seq<u8>) -> Read<F64, Error> {
        then(spec_get_uint(input, 8), |value: nat, rest: Seq<u8>|
            done(F64 { bits: value as u64 }, rest))
    }

    #[verifier::opaque]
    open spec fn spec_put(value: F64) -> Written {
        wrote(be_bytes(value.bits as nat, 8))
    }

    open spec fn round_trips(value: F64, rest: Seq<u8>) -> bool {
        true
    }

    fn get_be(bytes: &mut Cursor) -> (r: Result<F64, Error>) {
        reveal(<F64 as Adapter>::spec_get);
        reveal(spec_get_uint);
        let value: u128 = get_uint(bytes, 8)?;
        proof {
            reveal_with_fuel(pow256, 17);
        }
        Ok(F64 { bits: value as u64 })
    }

    fn put_be(&self, buffer: &mut Vec<u8>) -> (r: Result<(), Error>) {
        reveal(<F64 as Adapter>::spec_put);
        put_uint(buffer, self.bits as u128, 8);
        Ok(())
    }

    proof fn lemma_round_trip(value: F64, rest: Seq<u8>) {
        reveal(<F64 as Adapter>::spec_get);
        reveal(<F64 as Adapter>::spec_put);
        reveal_with_fuel(pow256, 17);
        lemma_be_bytes_len(value.bits as nat, 8);
        lemma_uint_round_trip(value.bits as nat, 8, rest);
    }
}

/// A boolean is one byte: 1 for true and 0 for false when written, and true
/// for every byte but 0 when read.
impl Adapter for bool {
    #[verifier::opaque]
    open spec fn spec_get(input: Seq<u8>) -> Read<bool, Error> {
        then(spec_get_uint(input, 1), |value: nat, rest: Seq<u8>| done(value != 0, rest))
    }

    #[verifier::opaque]
    open spec fn spec_put(value: bool) -> Written {
        wrote(be_bytes(if value {
            1nat
        } else {
            0nat
        }, 1))
    }

    open spec fn round_trips(value: bool, rest: Seq<u8>) -> bool {
        true
    }

    fn get_be(bytes: &mut Cursor) -> (r: Result<bool, Error>) {
        reveal(<bool as Adapter>::spec_get);
        reveal(spec_get_uint);
        let value: u128 = get_uint(bytes, 1)?;
        Ok(value != 0)
    }

    fn put_be(&self, buffer: &mut Vec<u8>) -> (r: Result<(), Error>) {
        reveal(<bool as Adapter>::spec_put);
        let byte: u128 = if *self {
            1
        } else {
            0
        };
        put_uint(buffer, byte, 1);
        Ok(())
    }

    proof fn lemma_round_trip(value: bool, rest: Seq<u8>) {
        reveal(<bool as Adapter>::spec_get);
        reveal(<bool as Adapter>::spec_put);
        reveal_with_fuel(pow256, 17);
        let byte: nat = if value {
            1
        } else {
            0
        };
        lemma_be_bytes_len(byte, 1);
        lemma_uint_round_trip(byte, 1, rest);
    }
}

} // verus!
