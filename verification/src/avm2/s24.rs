//! The signed 24-bit integer of branch offsets.

use vstd::prelude::*;
use crate::cursor::Cursor;
use crate::avm2::primitives::short;
use crate::avm2::{Parse, ParseError, Parsed};

verus! {

/// A signed 24-bit integer, kept as its three bytes.
#[derive(Debug, Clone, Copy)]
pub struct S24(pub [u8; 3]);

impl DeepView for S24 {
    type V = Seq<u8>;

    open spec fn deep_view(&self) -> Seq<u8> {
        self.0@
    }
}

/// The number is looked at, not taken: the three bytes stay unread.
impl Parse for S24 {
    open spec fn spec_parse(input: Seq<u8>) -> Parsed<Seq<u8>> {
        if input.len() >= 3 {
            Parsed { rest: input, result: Ok(input.take(3)) }
        } else {
            short(input, 3)
        }
    }

    fn parse_avm2(input: &mut Cursor) -> (r: Result<S24, ParseError>) {
        if input.remaining() >= 3 {
            let bytes: [u8; 3] = [input.peek(0), input.peek(1), input.peek(2)];
            assert(bytes@ =~= input@.take(3));
            Ok(S24(bytes))
        } else {
            Err(ParseError::InsufficientBytes { remaining: input.remaining(), needed: 3 })
        }
    }
}

} // verus!
