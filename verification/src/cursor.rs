//! A read position over a borrowed run of bytes.
//!
//! The view of a [`Cursor`] is the sequence of bytes that have not been read
//! yet; every read is stated as what it does to that sequence.

use vstd::prelude::*;

verus! {

/// A borrowed byte buffer together with the position of the next unread byte.
pub struct Cursor<'a> {
    data: &'a [u8],
    pos: usize,
}

impl<'a> View for Cursor<'a> {
    type V = Seq<u8>;

    closed spec fn view(&self) -> Seq<u8> {
        if self.pos <= self.data@.len() {
            self.data@.skip(self.pos as int)
        } else {
            Seq::empty()
        }
    }
}

impl<'a> Cursor<'a> {
    /// A cursor at the start of `data`.
    pub fn new(data: &'a [u8]) -> (cursor: Self)
        ensures
            cursor@ == data@,
    {
        let cursor = Cursor { data, pos: 0 };
        assert(data@.skip(0) =~= data@);
        cursor
    }

    /// The number of unread bytes.
    pub fn remaining(&self) -> (n: usize)
        ensures
            n == self@.len(),
    {
        if self.pos <= self.data.len() {
            self.data.len() - self.pos
        } else {
            0
        }
    }

    /// Whether any byte is left to read.
    pub fn has_remaining(&self) -> (b: bool)
        ensures
            b == (self@.len() > 0),
    {
        self.remaining() > 0
    }

    /// The unread byte at offset `k`, which stays unread.
    pub fn peek(&self, k: usize) -> (b: u8)
        requires
            k < self@.len(),
        ensures
            b == self@[k as int],
    {
        let len = self.data.len();
        assert(self.pos + k < len);
        self.data[self.pos + k]
    }

    /// Skips `n` bytes.
    pub fn advance(&mut self, n: usize)
        requires
            n <= old(self)@.len(),
        ensures
            final(self)@ == old(self)@.skip(n as int),
    {
        if n > 0 {
            let len = self.data.len();
            assert(self.pos + n <= len);
            assert(self.data@.skip(self.pos as int).skip(n as int) =~= self.data@.skip(self.pos + n));
            self.pos = self.pos + n;
        } else {
            assert(self@.skip(0) =~= self@);
        }
    }

    /// Reads one byte.
    pub fn get_u8(&mut self) -> (b: u8)
        requires
            old(self)@.len() >= 1,
        ensures
            b == old(self)@[0],
            final(self)@ == old(self)@.skip(1),
    {
        let b = self.peek(0);
        self.advance(1);
        b
    }

    /// Reads the next `n` bytes into a vector.
    pub fn take(&mut self, n: usize) -> (out: Vec<u8>)
        requires
            n <= old(self)@.len(),
        ensures
            out@ == old(self)@.take(n as int),
            final(self)@ == old(self)@.skip(n as int),
    {
        let mut out: Vec<u8> = Vec::new();
        let mut k: usize = 0;
        while k < n
            invariant
                k <= n,
                n <= self@.len(),
                self@ == old(self)@,
                out@ == self@.take(k as int),
            decreases n - k,
        {
            out.push(self.peek(k));
            assert(self@.take(k + 1) =~= self@.take(k as int).push(self@[k as int]));
            k += 1;
        }
        self.advance(n);
        out
    }
}

/// What a reader does on given input: the bytes it leaves unread, also when
/// it fails, and the value or the error it ends with.
pub struct Read<T, E> {
    pub rest: Seq<u8>,
    pub result: Result<T, E>,
}

/// The outcome `r` of an executable reader that left `after` unread is the
/// one that `p` describes.
pub open spec fn agrees<T: DeepView, E>(r: Result<T, E>, after: Seq<u8>, p: Read<T::V, E>) -> bool {
    &&& after == p.rest
    &&& match r {
        Ok(v) => p.result == Ok::<T::V, E>(v.deep_view()),
        Err(e) => p.result == Err::<T::V, E>(e),
    }
}

/// A reader that leaves `rest` as it is and yields `value`.
pub open spec fn done<T, E>(value: T, rest: Seq<u8>) -> Read<T, E> {
    Read { rest, result: Ok(value) }
}

/// A reader that leaves `rest` as it is and fails with `error`.
pub open spec fn fail<T, E>(error: E, rest: Seq<u8>) -> Read<T, E> {
    Read { rest, result: Err(error) }
}

/// Two readers in a row: where `first` yielded a value, `next` runs on that
/// value and on the bytes that `first` left.
pub open spec fn then<A, B, E>(first: Read<A, E>, next: spec_fn(A, Seq<u8>) -> Read<B, E>) -> Read<
    B,
    E,
> {
    match first.result {
        Err(e) => Read { rest: first.rest, result: Err(e) },
        Ok(a) => next(a, first.rest),
    }
}

/// 256 to the power `n`.
pub open spec fn pow256(n: nat) -> nat
    decreases n,
{
    if n == 0 {
        1
    } else {
        256 * pow256((n - 1) as nat)
    }
}

} // verus!
