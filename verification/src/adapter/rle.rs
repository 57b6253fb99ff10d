//! The binary form of values of variable length: a length prefix followed by
//! that many elements.

use std::marker::PhantomData;
use vstd::prelude::*;
use vstd::utf8::*;
use crate::adapter::{
    also, appended, lemma_add_assoc, lemma_add_empty, lemma_skip_first, refused, wrote, Adapter,
    Error, InvalidData, OtherError, Written,
};
use crate::cursor::{agrees, done, fail, then, Cursor, Read};
use crate::text::string_from_utf8;

verus! {

broadcast use {
    lemma_add_assoc,
    lemma_add_empty,
    lemma_skip_first,
};

/// An integer type that can stand in front of a value as its length.
pub trait LengthPrefix: Adapter {
    /// The prefix that says `len`, if the type can hold it.
    spec fn spec_from_len(len: nat) -> Option<Self::V>;

    /// The length that a prefix says.
    spec fn spec_to_len(prefix: Self::V) -> nat;

    /// The prefix that says `len`.
    fn from_usize(len: usize) -> (prefix: Option<Self>)
        ensures
            prefix.deep_view() == Self::spec_from_len(len as nat),
    ;

    /// The length that the prefix says, if this machine can index so far.
    fn to_usize(&self) -> (len: Option<usize>)
        ensures
            match len {
                Some(n) => n == Self::spec_to_len(self.deep_view()),
                None => Self::spec_to_len(self.deep_view()) > usize::MAX,
            },
    ;

    /// A prefix says the length it was made from, can always be written, and
    /// reads back whatever follows it.
    proof fn lemma_prefix(len: nat)
        requires
            Self::spec_from_len(len) is Some,
        ensures
            Self::spec_to_len(Self::spec_from_len(len)->0) == len,
            Self::spec_put(Self::spec_from_len(len)->0).result is Ok,
            forall|rest: Seq<u8>| #[trigger]
                Self::round_trips(Self::spec_from_len(len)->0, rest),
    ;
}

impl LengthPrefix for u8 {
    open spec fn spec_from_len(len: nat) -> Option<u8> {
        if len <= 0xff {
            Some(len as u8)
        } else {
            None
        }
    }

    open spec fn spec_to_len(prefix: u8) -> nat {
        prefix as nat
    }

    fn from_usize(len: usize) -> (prefix: Option<u8>) {
        if len <= 0xff {
            Some(len as u8)
        } else {
            None
        }
    }

    fn to_usize(&self) -> (len: Option<usize>) {
        Some(*self as usize)
    }

    proof fn lemma_prefix(len: nat) {
        reveal(<u8 as Adapter>::spec_put);
    }
}

impl LengthPrefix for u16 {
    open spec fn spec_from_len(len: nat) -> Option<u16> {
        if len <= 0xffff {
            Some(len as u16)
        } else {
            None
        }
    }

    open spec fn spec_to_len(prefix: u16) -> nat {
        prefix as nat
    }

    fn from_usize(len: usize) -> (prefix: Option<u16>) {
        if len <= 0xffff {
            Some(len as u16)
        } else {
            None
        }
    }

    fn to_usize(&self) -> (len: Option<usize>) {
        Some(*self as usize)
    }

    proof fn lemma_prefix(len: nat) {
        reveal(<u16 as Adapter>::spec_put);
    }
}

impl LengthPrefix for u32 {
    open spec fn spec_from_len(len: nat) -> Option<u32> {
        if len <= 0xffff_ffff {
            Some(len as u32)
        } else {
            None
        }
    }

    open spec fn spec_to_len(prefix: u32) -> nat {
        prefix as nat
    }

    fn from_usize(len: usize) -> (prefix: Option<u32>) {
        if len <= 0xffff_ffff {
            Some(len as u32)
        } else {
            None
        }
    }

    fn to_usize(&self) -> (len: Option<usize>) {
        Some(*self as usize)
    }

    proof fn lemma_prefix(len: nat) {
        reveal(<u32 as Adapter>::spec_put);
    }
}

impl LengthPrefix for u64 {
    open spec fn spec_from_len(len: nat) -> Option<u64> {
        if len <= 0xffff_ffff_ffff_ffff {
            Some(len as u64)
        } else {
            None
        }
    }

    open spec fn spec_to_len(prefix: u64) -> nat {
        prefix as nat
    }

    fn from_usize(len: usize) -> (prefix: Option<u64>) {
        Some(len as u64)
    }

    fn to_usize(&self) -> (len: Option<usize>) {
        if *self <= usize::MAX as u64 {
            Some(*self as usize)
        } else {
            None
        }
    }

    proof fn lemma_prefix(len: nat) {
        reveal(<u64 as Adapter>::spec_put);
    }
}

/// What decoding `n` values in a row does: the first failure ends the run.
#[verifier::opaque]
pub open spec fn spec_get_many<T: Adapter>(input: Seq<u8>, n: nat) -> Read<Seq<T::V>, Error>
    decreases n,
{
    if n == 0 {
        Read { rest: input, result: Ok(Seq::empty()) }
    } else {
        let front = spec_get_many::<T>(input, (n - 1) as nat);
        match front.result {
            Err(_) => front,
            Ok(items) => {
                let last = T::spec_get(front.rest);
                Read {
                    rest: last.rest,
                    result: match last.result {
                        Ok(v) => Ok(items.push(v)),
                        Err(e) => Err(e),
                    },
                }
            },
        }
    }
}

/// Once a run has failed, asking for more values changes nothing.
pub proof fn lemma_get_many_failed<T: Adapter>(input: Seq<u8>, k: nat, n: nat)
    requires
        k <= n,
        spec_get_many::<T>(input, k).result is Err,
    ensures
        spec_get_many::<T>(input, n) == spec_get_many::<T>(input, k),
    decreases n,
{
    reveal_with_fuel(spec_get_many, 2);
    if n > k {
        lemma_get_many_failed::<T>(input, k, (n - 1) as nat);
    }
}

/// What encoding the first `n` of `items` in a row does: the first failure
/// ends the run.
#[verifier::opaque]
pub open spec fn spec_put_many<T: Adapter>(items: Seq<T::V>, n: nat) -> Written
    decreases n,
{
    if n == 0 {
        wrote(Seq::empty())
    } else {
        also(spec_put_many::<T>(items, (n - 1) as nat), T::spec_put(items[n - 1]))
    }
}

/// Once a run has failed, encoding more values changes nothing.
pub proof fn lemma_put_many_failed<T: Adapter>(items: Seq<T::V>, k: nat, n: nat)
    requires
        k <= n,
        spec_put_many::<T>(items, k).result is Err,
    ensures
        spec_put_many::<T>(items, n) == spec_put_many::<T>(items, k),
    decreases n,
{
    reveal_with_fuel(spec_put_many, 2);
    if n > k {
        lemma_put_many_failed::<T>(items, k, (n - 1) as nat);
    }
}

/// A run that was encoded without failure, followed by `rest`, decodes to
/// itself.
pub proof fn lemma_many_round_trip<T: Adapter>(items: Seq<T::V>, n: nat, rest: Seq<u8>)
    requires
        n <= items.len(),
        spec_put_many::<T>(items, n).result is Ok,
        forall|i: int, tail: Seq<u8>| 0 <= i < n ==> #[trigger] T::round_trips(items[i], tail),
    ensures
        spec_get_many::<T>(spec_put_many::<T>(items, n).bytes + rest, n) == (Read::<
            Seq<T::V>,
            Error,
        > { rest, result: Ok(items.take(n as int)) }),
    decreases n,
{
    reveal_with_fuel(spec_get_many, 2);
    reveal_with_fuel(spec_put_many, 2);
    if n == 0 {
        assert(items.take(0) =~= Seq::<T::V>::empty());
    } else {
        let front = spec_put_many::<T>(items, (n - 1) as nat);
        let last = T::spec_put(items[n - 1]);
        assert(front.result is Ok);
        lemma_many_round_trip::<T>(items, (n - 1) as nat, last.bytes + rest);
        assert(T::round_trips(items[n - 1], rest));
        T::lemma_round_trip(items[n - 1], rest);
        assert(items.take(n as int) =~= items.take(n - 1).push(items[n - 1]));
    }
}

/// Decodes `count` values in a row.
pub fn get_many<T: Adapter>(bytes: &mut Cursor, count: usize) -> (r: Result<Vec<T>, Error>)
    ensures
        agrees(r, final(bytes)@, spec_get_many::<T>(old(bytes)@, count as nat)),
{
    reveal_with_fuel(spec_get_many, 2);
    let mut out: Vec<T> = Vec::new();
    let mut k: usize = 0;
    assert(out.deep_view() =~= Seq::<T::V>::empty());
    while k < count
        invariant
            k <= count,
            k == out@.len(),
            spec_get_many::<T>(old(bytes)@, k as nat).result == Ok::<Seq<T::V>, Error>(
                out.deep_view(),
            ),
            bytes@ == spec_get_many::<T>(old(bytes)@, k as nat).rest,
        decreases count - k,
    {
        proof {
            reveal_with_fuel(spec_get_many, 2);
        }
        let ghost items = out.deep_view();
        match T::get_be(bytes) {
            Ok(v) => {
                out.push(v);
                assert(out.deep_view() =~= items.push(v.deep_view()));
            },
            Err(e) => {
                proof {
                    lemma_get_many_failed::<T>(old(bytes)@, (k + 1) as nat, count as nat);
                }
                return Err(e);
            },
        }
        k += 1;
    }
    Ok(out)
}

/// Encodes `items` in a row.
pub fn put_many<T: Adapter>(items: &Vec<T>, buffer: &mut Vec<u8>) -> (r: Result<(), Error>)
    ensures
        appended(
            r,
            old(buffer)@,
            final(buffer)@,
            spec_put_many::<T>(items.deep_view(), items@.len()),
        ),
{
    reveal_with_fuel(spec_put_many, 2);
    let mut k: usize = 0;
    while k < items.len()
        invariant
            k <= items@.len(),
            spec_put_many::<T>(items.deep_view(), k as nat).result is Ok,
            buffer@ == old(buffer)@ + spec_put_many::<T>(items.deep_view(), k as nat).bytes,
        decreases items@.len() - k,
    {
        proof {
            reveal_with_fuel(spec_put_many, 2);
        }
        assert(items.deep_view()[k as int] == items@[k as int].deep_view());
        match items[k].put_be(buffer) {
            Ok(()) => {},
            Err(e) => {
                proof {
                    lemma_put_many_failed::<T>(items.deep_view(), (k + 1) as nat, items@.len());
                }
                return Err(e);
            },
        }
        k += 1;
    }
    Ok(())
}

/// A value that is written behind its length. `S` is the type of the length
/// prefix, 16 bits wide unless said otherwise.
#[derive(Debug, PartialEq, Eq)]
pub struct RLE<T, S = u16> {
    inner: T,
    marker: PhantomData<S>,
}

impl<T: DeepView, S> DeepView for RLE<T, S> {
    type V = T::V;

    closed spec fn deep_view(&self) -> T::V {
        self.inner.deep_view()
    }
}

impl<T, S> RLE<T, S> {
    /// The value that the wrapper holds.
    pub closed spec fn inner(self) -> T {
        self.inner
    }

    /// Wraps `inner`.
    pub fn new(inner: T) -> (wrapped: Self)
        ensures
            wrapped.inner() == inner,
    {
        RLE { inner, marker: PhantomData }
    }

    /// Gives the wrapped value back.
    pub fn unwrap(self) -> (inner: T)
        ensures
            inner == self.inner(),
    {
        self.inner
    }

    /// Borrows the wrapped value.
    pub fn as_ref(&self) -> (inner: &T)
        ensures
            *inner == self.inner(),
    {
        &self.inner
    }
}

impl<T: Clone, S> Clone for RLE<T, S> {
    fn clone(&self) -> (copy: Self) {
        RLE { inner: self.inner.clone(), marker: PhantomData }
    }
}

/// The model of a wrapper is the model of what it holds.
pub broadcast proof fn lemma_rle_view<T: DeepView, S>(wrapped: RLE<T, S>)
    ensures
        #[trigger] wrapped.deep_view() == wrapped.inner().deep_view(),
{
}

/// What decoding a length-prefixed sequence does.
#[verifier::opaque]
pub open spec fn spec_get_sequence<T: Adapter, S: LengthPrefix>(input: Seq<u8>) -> Read<
    Seq<T::V>,
    Error,
> {
    then(S::spec_get(input), |prefix: S::V, rest: Seq<u8>|
        if S::spec_to_len(prefix) > usize::MAX {
            fail(Error::InvalidData(InvalidData::LengthToUsize), rest)
        } else {
            spec_get_many::<T>(rest, S::spec_to_len(prefix))
        })
}

/// What encoding a length-prefixed sequence does. A sequence whose length
/// does not fit the prefix is refused before anything is written.
#[verifier::opaque]
pub open spec fn spec_put_sequence<T: Adapter, S: LengthPrefix>(items: Seq<T::V>) -> Written {
    match S::spec_from_len(items.len()) {
        None => refused(Error::InvalidData(InvalidData::LengthFromUsize { len: items.len() as usize })),
        Some(prefix) => also(S::spec_put(prefix), spec_put_many::<T>(items, items.len())),
    }
}

impl<T: Adapter, S: LengthPrefix> Adapter for RLE<Vec<T>, S> {
    open spec fn spec_get(input: Seq<u8>) -> Read<Seq<T::V>, Error> {
        spec_get_sequence::<T, S>(input)
    }

    open spec fn spec_put(value: Seq<T::V>) -> Written {
        spec_put_sequence::<T, S>(value)
    }

    open spec fn round_trips(value: Seq<T::V>, rest: Seq<u8>) -> bool {
        &&& value.len() <= usize::MAX
        &&& forall|i: int, tail: Seq<u8>|
            0 <= i < value.len() ==> #[trigger] T::round_trips(value[i], tail)
    }

    fn get_be(bytes: &mut Cursor) -> (r: Result<Self, Error>) {
        reveal(spec_get_sequence);
        assert(Self::spec_get(bytes@) == spec_get_sequence::<T, S>(bytes@));
        let prefix = S::get_be(bytes)?;
        match prefix.to_usize() {
            Some(len) => {
                let items = get_many::<T>(bytes, len)?;
                Ok(RLE::new(items))
            },
            None => Err(Error::InvalidData(InvalidData::LengthToUsize)),
        }
    }

    fn put_be(&self, buffer: &mut Vec<u8>) -> (r: Result<(), Error>) {
        reveal(spec_put_sequence);
        match S::from_usize(self.inner.len()) {
            Some(prefix) => {
                prefix.put_be(buffer)?;
                put_many::<T>(&self.inner, buffer)
            },
            None => Err(Error::InvalidData(InvalidData::LengthFromUsize { len: self.inner.len() })),
        }
    }

    proof fn lemma_round_trip(value: Seq<T::V>, rest: Seq<u8>) {
        reveal(spec_get_sequence);
        reveal(spec_put_sequence);
        let prefix = S::spec_from_len(value.len())->0;
        let body = spec_put_many::<T>(value, value.len());
        S::lemma_prefix(value.len());
        assert(S::round_trips(prefix, body.bytes + rest));
        S::lemma_round_trip(prefix, body.bytes + rest);
        lemma_many_round_trip::<T>(value, value.len(), rest);
        assert(value.take(value.len() as int) =~= value);
    }
}

/// Reading `n` single bytes takes the next `n` bytes as they are.
pub proof fn lemma_get_many_bytes(input: Seq<u8>, n: nat)
    requires
        n <= input.len(),
    ensures
        spec_get_many::<u8>(input, n) == (Read::<Seq<u8>, Error> {
            rest: input.skip(n as int),
            result: Ok(input.take(n as int)),
        }),
    decreases n,
{
    broadcast use {
        vstd::seq_lib::lemma_seq_skip_of_skip,
        vstd::seq_lib::lemma_seq_skip_nothing,
    };

    reveal_with_fuel(spec_get_many, 2);
    reveal(<u8 as Adapter>::spec_get);
    reveal(crate::adapter::primitives::spec_get_uint);
    if n == 0 {
        assert(input.take(0) =~= Seq::<u8>::empty());
    } else {
        lemma_get_many_bytes(input, (n - 1) as nat);
        reveal_with_fuel(crate::adapter::primitives::be_value, 2);
        assert(input.take(n as int) =~= input.take(n - 1).push(input[n - 1]));
    }
}

/// Writing single bytes writes them as they are.
pub proof fn lemma_put_many_bytes(items: Seq<u8>, n: nat)
    requires
        n <= items.len(),
    ensures
        spec_put_many::<u8>(items, n) == wrote(items.take(n as int)),
    decreases n,
{
    reveal_with_fuel(spec_put_many, 2);
    reveal(<u8 as Adapter>::spec_put);
    if n == 0 {
        assert(items.take(0) =~= Seq::<u8>::empty());
    } else {
        lemma_put_many_bytes(items, (n - 1) as nat);
        reveal_with_fuel(crate::adapter::primitives::be_bytes, 2);
        assert(crate::adapter::primitives::be_bytes(items[n - 1] as nat, 1) =~= seq![items[n - 1]]);
        assert(items.take(n as int) =~= items.take(n - 1) + seq![items[n - 1]]);
    }
}

/// What decoding a length-prefixed text does: the bytes are read as a
/// length-prefixed sequence and must be UTF-8.
#[verifier::opaque]
pub open spec fn spec_get_text<S: LengthPrefix>(input: Seq<u8>) -> Read<Seq<char>, Error> {
    then(spec_get_sequence::<u8, S>(input), |bytes: Seq<u8>, rest: Seq<u8>|
        if valid_utf8(bytes) {
            done(decode_utf8(bytes), rest)
        } else {
            fail(Error::Other(OtherError::InvalidUtf8), rest)
        })
}

/// What encoding a length-prefixed text does: the length is the number of
/// bytes of its UTF-8 form.
#[verifier::opaque]
pub open spec fn spec_put_text<S: LengthPrefix>(text: Seq<char>) -> Written {
    match S::spec_from_len(encode_utf8(text).len()) {
        None => refused(
            Error::InvalidData(InvalidData::LengthFromUsize { len: encode_utf8(text).len() as usize }),
        ),
        Some(prefix) => also(S::spec_put(prefix), wrote(encode_utf8(text))),
    }
}

impl<S: LengthPrefix> Adapter for RLE<String, S> {
    open spec fn spec_get(input: Seq<u8>) -> Read<Seq<char>, Error> {
        spec_get_text::<S>(input)
    }

    open spec fn spec_put(value: Seq<char>) -> Written {
        spec_put_text::<S>(value)
    }

    open spec fn round_trips(value: Seq<char>, rest: Seq<u8>) -> bool {
        encode_utf8(value).len() <= usize::MAX
    }

    fn get_be(bytes: &mut Cursor) -> (r: Result<Self, Error>) {
        reveal(spec_get_text);
        let raw = RLE::<Vec<u8>, S>::get_be(bytes)?;
        let data: Vec<u8> = raw.unwrap();
        assert(data.deep_view() =~= data@);
        match string_from_utf8(data) {
            Some(text) => Ok(RLE::new(text)),
            None => Err(Error::Other(OtherError::InvalidUtf8)),
        }
    }

    fn put_be(&self, buffer: &mut Vec<u8>) -> (r: Result<(), Error>) {
        reveal(spec_put_text);
        let data = self.inner.as_str().as_bytes();
        assert(data@ == encode_utf8(self.deep_view()));
        match S::from_usize(data.len()) {
            Some(prefix) => {
                assert(S::spec_from_len(data@.len()) == Some(prefix.deep_view()));
                prefix.put_be(buffer)?;
                assert(buffer@ == old(buffer)@ + S::spec_put(prefix.deep_view()).bytes);
                buffer.extend_from_slice(data);
                assert(buffer@ == old(buffer)@ + (S::spec_put(prefix.deep_view()).bytes + data@));
                Ok(())
            },
            None => Err(Error::InvalidData(InvalidData::LengthFromUsize { len: data.len() })),
        }
    }

    proof fn lemma_round_trip(value: Seq<char>, rest: Seq<u8>) {
        broadcast use {encode_utf8_decode_utf8, encode_utf8_valid_utf8};

        reveal(spec_get_text);
        reveal(spec_put_text);
        reveal(spec_get_sequence);
        let data = encode_utf8(value);
        let prefix = S::spec_from_len(data.len())->0;
        S::lemma_prefix(data.len());
        assert(S::round_trips(prefix, data + rest));
        S::lemma_round_trip(prefix, data + rest);
        lemma_get_many_bytes(data + rest, data.len());
        assert((data + rest).take(data.len() as int) =~= data);
    }
}

} // verus!
