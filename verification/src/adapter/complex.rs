//! The binary form of an optional value.

use vstd::prelude::*;
use crate::adapter::{
    lemma_add_assoc, lemma_add_empty, lemma_skip_first, wrote, Adapter, Error, Written,
};
use crate::cursor::{done, then, Cursor, Read};

verus! {

broadcast use {
    lemma_add_assoc,
    lemma_add_empty,
    lemma_skip_first,
};

/// An absent value is written as nothing at all, and a value is read exactly
/// when bytes are left. An option is therefore the last thing in its buffer.
impl<T: Adapter> Adapter for Option<T> {
    open spec fn spec_get(input: Seq<u8>) -> Read<Option<T::V>, Error> {
        if input.len() > 0 {
            then(T::spec_get(input), |value: T::V, rest: Seq<u8>| done(Some(value), rest))
        } else {
            done(None, input)
        }
    }

    open spec fn spec_put(value: Option<T::V>) -> Written {
        match value {
            Some(v) => T::spec_put(v),
            None => wrote(Seq::empty()),
        }
    }

    open spec fn round_trips(value: Option<T::V>, rest: Seq<u8>) -> bool {
        match value {
            Some(v) => T::round_trips(v, rest) && T::spec_put(v).bytes.len() + rest.len() > 0,
            None => rest.len() == 0,
        }
    }

    fn get_be(bytes: &mut Cursor) -> (r: Result<Option<T>, Error>) {
        if bytes.has_remaining() {
            let value = T::get_be(bytes)?;
            Ok(Some(value))
        } else {
            Ok(None)
        }
    }

    fn put_be(&self, buffer: &mut Vec<u8>) -> (r: Result<(), Error>) {
        match self {
            Some(v) => v.put_be(buffer),
            None => Ok(()),
        }
    }

    proof fn lemma_round_trip(value: Option<T::V>, rest: Seq<u8>) {
        match value {
            Some(v) => {
                T::lemma_round_trip(v, rest);
            },
            None => {},
        }
    }
}

} // verus!
