//! A reader for the bytecode container embedded in the game client.
//!
//! Every reader is specified by a function from the unread bytes to a
//! [`Parsed`] value: the bytes that the reader leaves unread, and the model of
//! the value it yields or the error it fails with. The executable readers are proved to
//! agree with those functions, see [`agrees`].

use vstd::prelude::*;
use crate::cursor::{agrees, then, Cursor, Read};

pub mod abcfile;
pub mod class;
pub mod constants;
pub mod metadata;
pub mod methods;
pub mod primitives;
pub mod s24;
pub mod traits;

verus! {

/// The enumerations whose wire form is one byte with a fixed set of values.
#[derive(Debug, Clone, Copy, PartialEq, Eq, Structural)]
pub enum FlagType {
    NamespaceKind,
    MultinameKind,
    OptionDetailKind,
    TraitKind,
    ConstantKind,
}

impl FlagType {
    /// The name of the enumeration, as it is written in error messages.
    pub fn name(self) -> (s: &'static str)
        ensures
            s@ == match self {
                FlagType::NamespaceKind => "NamespaceKind"@,
                FlagType::MultinameKind => "MultinameKind"@,
                FlagType::OptionDetailKind => "OptionDetailKind"@,
                FlagType::TraitKind => "TraitKind"@,
                FlagType::ConstantKind => "ConstantKind"@,
            },
    {
        match self {
            FlagType::NamespaceKind => "NamespaceKind",
            FlagType::MultinameKind => "MultinameKind",
            FlagType::OptionDetailKind => "OptionDetailKind",
            FlagType::TraitKind => "TraitKind",
            FlagType::ConstantKind => "ConstantKind",
        }
    }
}

/// Why a value could not be read from the bytecode.
#[derive(Debug, Clone, Copy, PartialEq, Eq, Structural)]
pub enum ParseError {
    /// Fewer bytes were left than the value needs.
    InsufficientBytes { remaining: usize, needed: usize },
    /// A byte is not one of the values of the enumeration it was read for.
    InvalidFlag { byte: u8, flag_type: FlagType },
    /// The bytes of a string are not UTF-8.
    InvalidUtf8,
}

/// Why a name or a slot could not be resolved through the constant pool.
#[derive(Debug, Clone, Copy, PartialEq, Eq, Structural)]
pub enum LinkError {
    /// The multiname is not a qualified name.
    NotQName,
    /// The trait is not a slot or a constant.
    NotSlot,
    /// An index points past the end of its table.
    MissingConstant,
}

/// The outcome `r` of an executable resolution is the one that `model`
/// describes.
pub open spec fn linked<T: DeepView>(r: Result<T, LinkError>, model: Result<T::V, LinkError>) -> bool {
    match r {
        Ok(v) => model == Ok::<T::V, LinkError>(v.deep_view()),
        Err(e) => model == Err::<T::V, LinkError>(e),
    }
}

/// What a reader of the bytecode does on given input.
pub type Parsed<T> = Read<T, ParseError>;

/// A type that can be read from the bytecode.
pub trait Parse: Sized + DeepView {
    /// What reading a value of this type does on `input`.
    spec fn spec_parse(input: Seq<u8>) -> Parsed<Self::V>;

    /// Reads one value, moving `input` past the bytes that were used.
    fn parse_avm2(input: &mut Cursor) -> (r: Result<Self, ParseError>)
        ensures
            agrees(r, final(input)@, Self::spec_parse(old(input)@)),
    ;
}

/// What reading `n` values in a row does: the values are read one after the
/// other and the first failure ends the run.
#[verifier::opaque]
pub open spec fn spec_many<T: Parse>(input: Seq<u8>, n: nat) -> Parsed<Seq<T::V>>
    decreases n,
{
    if n == 0 {
        Parsed { rest: input, result: Ok(Seq::empty()) }
    } else {
        let front = spec_many::<T>(input, (n - 1) as nat);
        match front.result {
            Err(_) => front,
            Ok(items) => {
                let last = T::spec_parse(front.rest);
                Parsed {
                    rest: last.rest,
                    result: match last.result {
                        Ok(v) => Ok(items.push(v)),
                        Err(e) => Err(e),
                    },
                }
            },
        }
    }
}

/// Once a run has failed, asking for more values changes nothing.
pub proof fn lemma_many_failed<T: Parse>(input: Seq<u8>, k: nat, n: nat)
    requires
        k <= n,
        spec_many::<T>(input, k).result is Err,
    ensures
        spec_many::<T>(input, n) == spec_many::<T>(input, k),
    decreases n,
{
    reveal_with_fuel(spec_many, 2);
    if n > k {
        lemma_many_failed::<T>(input, k, (n - 1) as nat);
    }
}

/// What reading a count and then that many values does.
#[verifier::opaque]
pub open spec fn spec_counted<T: Parse>(input: Seq<u8>) -> Parsed<Seq<T::V>> {
    then(u32::spec_parse(input), |count: u32, rest: Seq<u8>|
        spec_many::<T>(rest, count as nat))
}

/// Reads a count and then that many values.
pub fn parse_counted<T: Parse>(input: &mut Cursor) -> (r: Result<Vec<T>, ParseError>)
    ensures
        agrees(r, final(input)@, spec_counted::<T>(old(input)@)),
{
    reveal(spec_counted);
    let count: u32 = u32::parse_avm2(input)?;
    parse_many::<T>(input, count as usize)
}

/// Reads `count` values in a row.
pub fn parse_many<T: Parse>(input: &mut Cursor, count: usize) -> (r: Result<Vec<T>, ParseError>)
    ensures
        agrees(r, final(input)@, spec_many::<T>(old(input)@, count as nat)),
{
    reveal_with_fuel(spec_many, 2);
    let mut out: Vec<T> = Vec::new();
    let mut k: usize = 0;
    assert(out.deep_view() =~= Seq::<T::V>::empty());
    while k < count
        invariant
            k <= count,
            k == out@.len(),
            spec_many::<T>(old(input)@, k as nat).result == Ok::<Seq<T::V>, ParseError>(out.deep_view()),
            input@ == spec_many::<T>(old(input)@, k as nat).rest,
        decreases count - k,
    {
        proof {
            reveal_with_fuel(spec_many, 2);
        }
        let ghost items = out.deep_view();
        match T::parse_avm2(input) {
            Ok(v) => {
                out.push(v);
                assert(out.deep_view() =~= items.push(v.deep_view()));
            },
            Err(e) => {
                proof {
                    lemma_many_failed::<T>(old(input)@, (k + 1) as nat, count as nat);
                }
                return Err(e);
            },
        }
        k += 1;
    }
    Ok(out)
}

} // verus!
