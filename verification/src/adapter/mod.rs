//! Conversion of values to and from the big-endian binary form of the game
//! protocol.
//!
//! Decoding is specified as in [`crate::cursor`]: a function from the unread
//! bytes to a [`Read`]. Encoding is specified by a function from the model of
//! a value to a [`Written`]: the bytes that reach the buffer, also when the
//! encoder fails half way, and how it ends. [`Adapter::lemma_round_trip`] is
//! the law that ties the two together.

use vstd::prelude::*;
use crate::cursor::{agrees, Cursor, Read};

pub mod complex;
pub mod primitives;
pub mod rle;

verus! {

/// What is wrong with data that could not be converted.
#[derive(Debug, Clone, Copy, PartialEq, Eq, Structural)]
pub enum InvalidData {
    /// The length of a value does not fit the type of its length prefix.
    LengthFromUsize { len: usize },
    /// A decoded length does not fit the index type of this machine.
    LengthToUsize,
    /// A byte is not the wire form of any stat type.
    UnknownStatType { byte: u8 },
    /// A text was given for a stat whose type calls for a number.
    StatNotString { stat_type: u8 },
    /// A number was given for a stat whose type calls for a text.
    StatNotInteger { stat_type: u8 },
}

impl InvalidData {
    /// What is wrong, in words.
    pub fn message(&self) -> (text: &'static str)
        ensures
            text@ == match *self {
                InvalidData::LengthFromUsize { .. } => "cannot cast length from usize"@,
                InvalidData::LengthToUsize => "cannot cast length to usize"@,
                InvalidData::UnknownStatType { .. } => "unknown stat type"@,
                InvalidData::StatNotString { .. } => "stats of this type are not strings"@,
                InvalidData::StatNotInteger { .. } => "stats of this type are not integers"@,
            },
    {
        match self {
            InvalidData::LengthFromUsize { .. } => "cannot cast length from usize",
            InvalidData::LengthToUsize => "cannot cast length to usize",
            InvalidData::UnknownStatType { .. } => "unknown stat type",
            InvalidData::StatNotString { .. } => "stats of this type are not strings",
            InvalidData::StatNotInteger { .. } => "stats of this type are not integers",
        }
    }
}

/// Failures that come from outside the conversion itself.
#[derive(Debug, Clone, Copy, PartialEq, Eq, Structural)]
pub enum OtherError {
    /// The bytes of a text are not UTF-8.
    InvalidUtf8,
}

/// Why a value could not be converted.
#[derive(Debug, Clone, Copy, PartialEq, Eq, Structural)]
pub enum Error {
    /// Fewer bytes were left in the buffer than the value needs.
    InsufficientBytes { remaining: usize, needed: usize },
    /// The data is not valid.
    InvalidData(InvalidData),
    /// A failure of another kind.
    Other(OtherError),
}

/// What an encoder does: the bytes it appends to the buffer, also when it
/// fails, and how it ends.
pub struct Written {
    pub bytes: Seq<u8>,
    pub result: Result<(), Error>,
}

/// An encoder that writes `bytes` and succeeds.
pub open spec fn wrote(bytes: Seq<u8>) -> Written {
    Written { bytes, result: Ok(()) }
}

/// An encoder that writes nothing and fails with `error`.
pub open spec fn refused(error: Error) -> Written {
    Written { bytes: Seq::empty(), result: Err(error) }
}

/// Two encoders in a row: the second runs only where the first succeeded.
pub open spec fn also(first: Written, second: Written) -> Written {
    match first.result {
        Err(_) => first,
        Ok(_) => Written { bytes: first.bytes + second.bytes, result: second.result },
    }
}

/// The buffer held `before`, holds `after`, and the encoder ended with `r`, as
/// `w` describes.
pub open spec fn appended(r: Result<(), Error>, before: Seq<u8>, after: Seq<u8>, w: Written) -> bool {
    &&& after == before + w.bytes
    &&& match r {
        Ok(_) => w.result is Ok,
        Err(e) => w.result == Err::<(), Error>(e),
    }
}

/// Appending in two steps is appending the whole.
pub broadcast proof fn lemma_add_assoc(a: Seq<u8>, b: Seq<u8>, c: Seq<u8>)
    ensures
        #[trigger] ((a + b) + c) == a + (b + c),
{
    assert((a + b) + c =~= a + (b + c));
}

/// Appending nothing changes nothing.
pub broadcast proof fn lemma_add_empty(a: Seq<u8>)
    ensures
        #[trigger] (a + Seq::<u8>::empty()) == a,
        #[trigger] (Seq::<u8>::empty() + a) == a,
{
    assert(a + Seq::<u8>::empty() =~= a);
    assert(Seq::<u8>::empty() + a =~= a);
}

/// What is left of two runs of bytes after the first is skipped is the
/// second.
pub broadcast proof fn lemma_skip_first(a: Seq<u8>, b: Seq<u8>)
    ensures
        #[trigger] (a + b).skip(a.len() as int) == b,
{
    assert((a + b).skip(a.len() as int) =~= b);
}

/// A type with a binary form in the game protocol.
pub trait Adapter: Sized + DeepView {
    /// What decoding a value of this type does on `input`.
    spec fn spec_get(input: Seq<u8>) -> Read<Self::V, Error>;

    /// What encoding `value` does.
    spec fn spec_put(value: Self::V) -> Written;

    /// Whether `value`, encoded and followed by `rest`, decodes to itself. It
    /// does for every type but those that hold an option: an option decodes to
    /// a value exactly when bytes are left, so it must come last.
    spec fn round_trips(value: Self::V, rest: Seq<u8>) -> bool;

    /// Decodes one value, moving `bytes` past what was read.
    fn get_be(bytes: &mut Cursor) -> (r: Result<Self, Error>)
        ensures
            agrees(r, final(bytes)@, Self::spec_get(old(bytes)@)),
    ;

    /// Encodes the value at the end of `buffer`, which grows as needed.
    fn put_be(&self, buffer: &mut Vec<u8>) -> (r: Result<(), Error>)
        ensures
            appended(r, old(buffer)@, final(buffer)@, Self::spec_put(self.deep_view())),
    ;

    /// Decoding what was encoded gives the value back and leaves unread
    /// exactly what follows its encoding.
    proof fn lemma_round_trip(value: Self::V, rest: Seq<u8>)
        requires
            Self::spec_put(value).result is Ok,
            Self::round_trips(value, rest),
        ensures
            Self::spec_get(Self::spec_put(value).bytes + rest) == (Read::<Self::V, Error> {
                rest,
                result: Ok(value),
            }),
    ;
}

} // verus!
