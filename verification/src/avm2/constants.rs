//! The constant pool: seven tables of shared values that the rest of the
//! bytecode refers to by index. Index 0 of every table stands for "any" or
//! "none" and is not stored, so entry `i` of a table is found at `i - 1`.

use vstd::prelude::*;
use crate::cursor::{agrees, Cursor, done, fail, then};
use crate::ieee::F64;
use crate::avm2::{parse_counted, parse_many, spec_counted, spec_many, FlagType, linked, LinkError, Parse, ParseError, Parsed};

verus! {

/// The kinds of namespace.
#[derive(Debug, Clone, Copy, PartialEq, Eq, Hash, Structural)]
pub enum NamespaceKind {
    Namespace,
    PackageNamespace,
    PackageInternalNs,
    ProtectedNamespace,
    ExplicitNamespace,
    StaticProtectedNs,
    PrivateNs,
}

impl NamespaceKind {
    /// The enumerator whose wire form is `byte`, if there is one.
    #[verifier::opaque]
    pub open spec fn spec_from_u8(byte: u8) -> Option<NamespaceKind> {
        if byte == 0x08 {
            Some(NamespaceKind::Namespace)
        } else if byte == 0x16 {
            Some(NamespaceKind::PackageNamespace)
        } else if byte == 0x17 {
            Some(NamespaceKind::PackageInternalNs)
        } else if byte == 0x18 {
            Some(NamespaceKind::ProtectedNamespace)
        } else if byte == 0x19 {
            Some(NamespaceKind::ExplicitNamespace)
        } else if byte == 0x1a {
            Some(NamespaceKind::StaticProtectedNs)
        } else if byte == 0x05 {
            Some(NamespaceKind::PrivateNs)
        } else {
            None
        }
    }

    /// The wire form of the enumerator.
    pub open spec fn spec_to_u8(self) -> u8 {
        match self {
            NamespaceKind::Namespace => 0x08,
            NamespaceKind::PackageNamespace => 0x16,
            NamespaceKind::PackageInternalNs => 0x17,
            NamespaceKind::ProtectedNamespace => 0x18,
            NamespaceKind::ExplicitNamespace => 0x19,
            NamespaceKind::StaticProtectedNs => 0x1a,
            NamespaceKind::PrivateNs => 0x05,
        }
    }

    /// Looks up the enumerator with the given wire form.
    pub fn from_u8(byte: u8) -> (r: Result<Self, ParseError>)
        ensures
            r == match Self::spec_from_u8(byte) {
                Some(k) => Ok::<NamespaceKind, ParseError>(k),
                None => Err(ParseError::InvalidFlag { byte, flag_type: FlagType::NamespaceKind }),
            },
    {
        reveal(NamespaceKind::spec_from_u8);
        if byte == 0x08 {
            Ok(NamespaceKind::Namespace)
        } else if byte == 0x16 {
            Ok(NamespaceKind::PackageNamespace)
        } else if byte == 0x17 {
            Ok(NamespaceKind::PackageInternalNs)
        } else if byte == 0x18 {
            Ok(NamespaceKind::ProtectedNamespace)
        } else if byte == 0x19 {
            Ok(NamespaceKind::ExplicitNamespace)
        } else if byte == 0x1a {
            Ok(NamespaceKind::StaticProtectedNs)
        } else if byte == 0x05 {
            Ok(NamespaceKind::PrivateNs)
        } else {
            Err(ParseError::InvalidFlag { byte, flag_type: FlagType::NamespaceKind })
        }
    }

    /// The wire form of the enumerator.
    #[verifier::when_used_as_spec(spec_to_u8)]
    pub fn to_u8(self) -> (byte: u8)
        ensures
            byte == self.spec_to_u8(),
    {
        match self {
            NamespaceKind::Namespace => 0x08,
            NamespaceKind::PackageNamespace => 0x16,
            NamespaceKind::PackageInternalNs => 0x17,
            NamespaceKind::ProtectedNamespace => 0x18,
            NamespaceKind::ExplicitNamespace => 0x19,
            NamespaceKind::StaticProtectedNs => 0x1a,
            NamespaceKind::PrivateNs => 0x05,
        }
    }

    /// Looking up the wire form of an enumerator gives the enumerator back.
    pub proof fn lemma_from_u8_to_u8(kind: NamespaceKind)
        ensures
            NamespaceKind::spec_from_u8(kind.spec_to_u8()) == Some(kind),
    {
        reveal(NamespaceKind::spec_from_u8);
    }
}

impl DeepView for NamespaceKind {
    type V = NamespaceKind;

    open spec fn deep_view(&self) -> NamespaceKind {
        *self
    }
}

impl Parse for NamespaceKind {
    open spec fn spec_parse(input: Seq<u8>) -> Parsed<NamespaceKind> {
        then(u8::spec_parse(input), |byte: u8, rest: Seq<u8>|
            match NamespaceKind::spec_from_u8(byte) {
                Some(kind) => done(kind, rest),
                None => fail(ParseError::InvalidFlag { byte, flag_type: FlagType::NamespaceKind }, rest),
            })
    }

    fn parse_avm2(input: &mut Cursor) -> (r: Result<NamespaceKind, ParseError>) {
        let byte: u8 = u8::parse_avm2(input)?;
        NamespaceKind::from_u8(byte)
    }
}

/// A namespace: its kind and the index of its name in the string table.
#[derive(Debug, Clone, Copy, PartialEq, Eq, Structural)]
pub struct Namespace {
    pub kind: NamespaceKind,
    pub name_index: u32,
}

impl DeepView for Namespace {
    type V = Namespace;

    open spec fn deep_view(&self) -> Namespace {
        *self
    }
}

impl Parse for Namespace {
    open spec fn spec_parse(input: Seq<u8>) -> Parsed<Namespace> {
        then(NamespaceKind::spec_parse(input), |kind: NamespaceKind, rest: Seq<u8>|
            then(u32::spec_parse(rest), |name_index: u32, rest: Seq<u8>|
                done(Namespace { kind, name_index }, rest)))
    }

    fn parse_avm2(input: &mut Cursor) -> (r: Result<Namespace, ParseError>) {
        let kind = NamespaceKind::parse_avm2(input)?;
        let name_index: u32 = u32::parse_avm2(input)?;
        Ok(Namespace { kind, name_index })
    }
}

/// A set of namespaces, by their indices in the namespace table.
#[derive(Debug, Clone)]
pub struct NamespaceSet {
    pub namespace_indices: Vec<u32>,
}

/// The model of a [`NamespaceSet`].
pub struct NamespaceSetModel {
    pub namespace_indices: Seq<u32>,
}

impl DeepView for NamespaceSet {
    type V = NamespaceSetModel;

    open spec fn deep_view(&self) -> NamespaceSetModel {
        NamespaceSetModel { namespace_indices: self.namespace_indices.deep_view() }
    }
}

impl Parse for NamespaceSet {
    open spec fn spec_parse(input: Seq<u8>) -> Parsed<NamespaceSetModel> {
        then(spec_counted::<u32>(input), |namespace_indices: Seq<u32>, rest: Seq<u8>|
            done(NamespaceSetModel { namespace_indices }, rest))
    }

    fn parse_avm2(input: &mut Cursor) -> (r: Result<NamespaceSet, ParseError>) {
        let namespace_indices = parse_counted::<u32>(input)?;
        Ok(NamespaceSet { namespace_indices })
    }
}

/// The kinds of multiname.
#[derive(Debug, Clone, Copy, PartialEq, Eq, Hash, Structural)]
pub enum MultinameKind {
    QName,
    QNameA,
    RTQName,
    RTQNameA,
    RTQNameL,
    RTQNameLA,
    Multiname,
    MultinameA,
    MultinameL,
    MultinameLA,
    Typename,
}

impl MultinameKind {
    /// The enumerator whose wire form is `byte`, if there is one.
    #[verifier::opaque]
    pub open spec fn spec_from_u8(byte: u8) -> Option<MultinameKind> {
        if byte == 0x07 {
            Some(MultinameKind::QName)
        } else if byte == 0x0d {
            Some(MultinameKind::QNameA)
        } else if byte == 0x0f {
            Some(MultinameKind::RTQName)
        } else if byte == 0x10 {
            Some(MultinameKind::RTQNameA)
        } else if byte == 0x11 {
            Some(MultinameKind::RTQNameL)
        } else if byte == 0x12 {
            Some(MultinameKind::RTQNameLA)
        } else if byte == 0x09 {
            Some(MultinameKind::Multiname)
        } else if byte == 0x0e {
            Some(MultinameKind::MultinameA)
        } else if byte == 0x1b {
            Some(MultinameKind::MultinameL)
        } else if byte == 0x1c {
            Some(MultinameKind::MultinameLA)
        } else if byte == 0x1d {
            Some(MultinameKind::Typename)
        } else {
            None
        }
    }

    /// The wire form of the enumerator.
    pub open spec fn spec_to_u8(self) -> u8 {
        match self {
            MultinameKind::QName => 0x07,
            MultinameKind::QNameA => 0x0d,
            MultinameKind::RTQName => 0x0f,
            MultinameKind::RTQNameA => 0x10,
            MultinameKind::RTQNameL => 0x11,
            MultinameKind::RTQNameLA => 0x12,
            MultinameKind::Multiname => 0x09,
            MultinameKind::MultinameA => 0x0e,
            MultinameKind::MultinameL => 0x1b,
            MultinameKind::MultinameLA => 0x1c,
            MultinameKind::Typename => 0x1d,
        }
    }

    /// Looks up the enumerator with the given wire form.
    pub fn from_u8(byte: u8) -> (r: Result<Self, ParseError>)
        ensures
            r == match Self::spec_from_u8(byte) {
                Some(k) => Ok::<MultinameKind, ParseError>(k),
                None => Err(ParseError::InvalidFlag { byte, flag_type: FlagType::MultinameKind }),
            },
    {
        reveal(MultinameKind::spec_from_u8);
        if byte == 0x07 {
            Ok(MultinameKind::QName)
        } else if byte == 0x0d {
            Ok(MultinameKind::QNameA)
        } else if byte == 0x0f {
            Ok(MultinameKind::RTQName)
        } else if byte == 0x10 {
            Ok(MultinameKind::RTQNameA)
        } else if byte == 0x11 {
            Ok(MultinameKind::RTQNameL)
        } else if byte == 0x12 {
            Ok(MultinameKind::RTQNameLA)
        } else if byte == 0x09 {
            Ok(MultinameKind::Multiname)
        } else if byte == 0x0e {
            Ok(MultinameKind::MultinameA)
        } else if byte == 0x1b {
            Ok(MultinameKind::MultinameL)
        } else if byte == 0x1c {
            Ok(MultinameKind::MultinameLA)
        } else if byte == 0x1d {
            Ok(MultinameKind::Typename)
        } else {
            Err(ParseError::InvalidFlag { byte, flag_type: FlagType::MultinameKind })
        }
    }

    /// The wire form of the enumerator.
    #[verifier::when_used_as_spec(spec_to_u8)]
    pub fn to_u8(self) -> (byte: u8)
        ensures
            byte == self.spec_to_u8(),
    {
        match self {
            MultinameKind::QName => 0x07,
            MultinameKind::QNameA => 0x0d,
            MultinameKind::RTQName => 0x0f,
            MultinameKind::RTQNameA => 0x10,
            MultinameKind::RTQNameL => 0x11,
            MultinameKind::RTQNameLA => 0x12,
            MultinameKind::Multiname => 0x09,
            MultinameKind::MultinameA => 0x0e,
            MultinameKind::MultinameL => 0x1b,
            MultinameKind::MultinameLA => 0x1c,
            MultinameKind::Typename => 0x1d,
        }
    }

    /// Looking up the wire form of an enumerator gives the enumerator back.
    pub proof fn lemma_from_u8_to_u8(kind: MultinameKind)
        ensures
            MultinameKind::spec_from_u8(kind.spec_to_u8()) == Some(kind),
    {
        reveal(MultinameKind::spec_from_u8);
    }
}

impl DeepView for MultinameKind {
    type V = MultinameKind;

    open spec fn deep_view(&self) -> MultinameKind {
        *self
    }
}

impl Parse for MultinameKind {
    open spec fn spec_parse(input: Seq<u8>) -> Parsed<MultinameKind> {
        then(u8::spec_parse(input), |byte: u8, rest: Seq<u8>|
            match MultinameKind::spec_from_u8(byte) {
                Some(kind) => done(kind, rest),
                None => fail(ParseError::InvalidFlag { byte, flag_type: FlagType::MultinameKind }, rest),
            })
    }

    fn parse_avm2(input: &mut Cursor) -> (r: Result<MultinameKind, ParseError>) {
        let byte: u8 = u8::parse_avm2(input)?;
        MultinameKind::from_u8(byte)
    }
}

/// A name in one of the shapes that the bytecode knows. Only the qualified
/// name, a namespace and a name, is resolved by this library.
#[derive(Debug, Clone)]
pub enum Multiname {
    QName { kind: MultinameKind, ns_idx: u32, name_idx: u32 },
    RTQName { kind: MultinameKind, name_idx: u32 },
    RTQNameL { kind: MultinameKind },
    Multiname { kind: MultinameKind, name_idx: u32, ns_set_idx: u32 },
    MultinameL { kind: MultinameKind, ns_set_idx: u32 },
    Typename { kind: MultinameKind, qname_index: u32, param_indices: Vec<u32> },
}

/// The model of a [`Multiname`].
pub enum MultinameModel {
    QName { kind: MultinameKind, ns_idx: u32, name_idx: u32 },
    RTQName { kind: MultinameKind, name_idx: u32 },
    RTQNameL { kind: MultinameKind },
    Multiname { kind: MultinameKind, name_idx: u32, ns_set_idx: u32 },
    MultinameL { kind: MultinameKind, ns_set_idx: u32 },
    Typename { kind: MultinameKind, qname_index: u32, param_indices: Seq<u32> },
}

impl DeepView for Multiname {
    type V = MultinameModel;

    open spec fn deep_view(&self) -> MultinameModel {
        match *self {
            Multiname::QName { kind, ns_idx, name_idx } => MultinameModel::QName {
                kind,
                ns_idx,
                name_idx,
            },
            Multiname::RTQName { kind, name_idx } => MultinameModel::RTQName { kind, name_idx },
            Multiname::RTQNameL { kind } => MultinameModel::RTQNameL { kind },
            Multiname::Multiname { kind, name_idx, ns_set_idx } => MultinameModel::Multiname {
                kind,
                name_idx,
                ns_set_idx,
            },
            Multiname::MultinameL { kind, ns_set_idx } => MultinameModel::MultinameL {
                kind,
                ns_set_idx,
            },
            Multiname::Typename { kind, qname_index, param_indices } => MultinameModel::Typename {
                kind,
                qname_index,
                param_indices: param_indices.deep_view(),
            },
        }
    }
}

/// What follows the kind byte of a multiname of kind `kind`.
pub open spec fn spec_multiname_body(kind: MultinameKind, input: Seq<u8>) -> Parsed<MultinameModel> {
    match kind {
        MultinameKind::QName | MultinameKind::QNameA => {
            then(u32::spec_parse(input), |ns_idx: u32, rest: Seq<u8>|
                then(u32::spec_parse(rest), |name_idx: u32, rest: Seq<u8>|
                    done(MultinameModel::QName { kind, ns_idx, name_idx }, rest)))
        },
        MultinameKind::RTQName | MultinameKind::RTQNameA => {
            then(u32::spec_parse(input), |name_idx: u32, rest: Seq<u8>|
                done(MultinameModel::RTQName { kind, name_idx }, rest))
        },
        MultinameKind::RTQNameL | MultinameKind::RTQNameLA => {
            done(MultinameModel::RTQNameL { kind }, input)
        },
        MultinameKind::Multiname | MultinameKind::MultinameA => {
            then(u32::spec_parse(input), |name_idx: u32, rest: Seq<u8>|
                then(u32::spec_parse(rest), |ns_set_idx: u32, rest: Seq<u8>|
                    done(MultinameModel::Multiname { kind, name_idx, ns_set_idx }, rest)))
        },
        MultinameKind::MultinameL | MultinameKind::MultinameLA => {
            then(u32::spec_parse(input), |ns_set_idx: u32, rest: Seq<u8>|
                done(MultinameModel::MultinameL { kind, ns_set_idx }, rest))
        },
        MultinameKind::Typename => {
            then(u32::spec_parse(input), |qname_index: u32, rest: Seq<u8>|
                then(spec_counted::<u32>(rest), |param_indices: Seq<u32>, rest: Seq<u8>|
                    done(MultinameModel::Typename { kind, qname_index, param_indices }, rest)))
        },
    }
}

impl Parse for Multiname {
    open spec fn spec_parse(input: Seq<u8>) -> Parsed<MultinameModel> {
        then(MultinameKind::spec_parse(input), |kind: MultinameKind, rest: Seq<u8>|
            spec_multiname_body(kind, rest))
    }

    fn parse_avm2(input: &mut Cursor) -> (r: Result<Multiname, ParseError>) {
        let kind = MultinameKind::parse_avm2(input)?;
        let multiname = match kind {
            MultinameKind::QName | MultinameKind::QNameA => {
                let ns_idx: u32 = u32::parse_avm2(input)?;
                let name_idx: u32 = u32::parse_avm2(input)?;
                Multiname::QName { kind, ns_idx, name_idx }
            },
            MultinameKind::RTQName | MultinameKind::RTQNameA => {
                let name_idx: u32 = u32::parse_avm2(input)?;
                Multiname::RTQName { kind, name_idx }
            },
            MultinameKind::RTQNameL | MultinameKind::RTQNameLA => Multiname::RTQNameL { kind },
            MultinameKind::Multiname | MultinameKind::MultinameA => {
                let name_idx: u32 = u32::parse_avm2(input)?;
                let ns_set_idx: u32 = u32::parse_avm2(input)?;
                Multiname::Multiname { kind, name_idx, ns_set_idx }
            },
            MultinameKind::MultinameL | MultinameKind::MultinameLA => {
                let ns_set_idx: u32 = u32::parse_avm2(input)?;
                Multiname::MultinameL { kind, ns_set_idx }
            },
            MultinameKind::Typename => {
                let qname_index: u32 = u32::parse_avm2(input)?;
                let param_indices = parse_counted::<u32>(input)?;
                Multiname::Typename { kind, qname_index, param_indices }
            },
        };
        Ok(multiname)
    }
}

/// The constant pool of a bytecode container.
#[derive(Debug, Clone)]
pub struct ConstantPool {
    pub ints: Vec<i32>,
    pub uints: Vec<u32>,
    pub doubles: Vec<F64>,
    pub strings: Vec<String>,
    pub namespaces: Vec<Namespace>,
    pub ns_sets: Vec<NamespaceSet>,
    pub multinames: Vec<Multiname>,
}

/// The model of a [`ConstantPool`]: its seven tables as sequences.
pub struct ConstantPoolModel {
    pub ints: Seq<i32>,
    pub uints: Seq<u32>,
    pub doubles: Seq<F64>,
    pub strings: Seq<Seq<char>>,
    pub namespaces: Seq<Namespace>,
    pub ns_sets: Seq<NamespaceSetModel>,
    pub multinames: Seq<MultinameModel>,
}

impl DeepView for ConstantPool {
    type V = ConstantPoolModel;

    open spec fn deep_view(&self) -> ConstantPoolModel {
        ConstantPoolModel {
            ints: self.ints.deep_view(),
            uints: self.uints.deep_view(),
            doubles: self.doubles.deep_view(),
            strings: self.strings.deep_view(),
            namespaces: self.namespaces.deep_view(),
            ns_sets: self.ns_sets.deep_view(),
            multinames: self.multinames.deep_view(),
        }
    }
}

/// The number of entries that follow a table's count: one less than the
/// count, and none where the count is 0.
pub open spec fn stored_entries(count: u32) -> nat {
    if count == 0 {
        0
    } else {
        (count - 1) as nat
    }
}

/// What reading one table of the pool does: a count, then the entries from
/// index 1 on.
#[verifier::opaque]
pub open spec fn spec_table<T: Parse>(input: Seq<u8>) -> Parsed<Seq<T::V>> {
    then(u32::spec_parse(input), |count: u32, rest: Seq<u8>|
        spec_many::<T>(rest, stored_entries(count)))
}

/// Reads one table of the pool.
pub fn parse_table<T: Parse>(input: &mut Cursor) -> (r: Result<Vec<T>, ParseError>)
    ensures
        agrees(r, final(input)@, spec_table::<T>(old(input)@)),
{
    reveal(spec_table);
    let count: u32 = u32::parse_avm2(input)?;
    let stored: u32 = if count == 0 {
        0
    } else {
        count - 1
    };
    parse_many::<T>(input, stored as usize)
}

impl Parse for ConstantPool {
    open spec fn spec_parse(input: Seq<u8>) -> Parsed<ConstantPoolModel> {
        then(spec_table::<i32>(input), |ints: Seq<i32>, rest: Seq<u8>|
            then(spec_table::<u32>(rest), |uints: Seq<u32>, rest: Seq<u8>|
                then(spec_table::<F64>(rest), |doubles: Seq<F64>, rest: Seq<u8>|
                    then(spec_table::<String>(rest), |strings: Seq<Seq<char>>, rest: Seq<u8>|
                        then(spec_table::<Namespace>(rest), |namespaces: Seq<Namespace>, rest: Seq<u8>|
                            then(spec_table::<NamespaceSet>(rest), |ns_sets: Seq<NamespaceSetModel>, rest: Seq<u8>|
                                then(spec_table::<Multiname>(rest), |multinames: Seq<MultinameModel>, rest: Seq<u8>|
                                    done(ConstantPoolModel {
                                        ints,
                                        uints,
                                        doubles,
                                        strings,
                                        namespaces,
                                        ns_sets,
                                        multinames,
                                    }, rest))))))))
    }

    fn parse_avm2(input: &mut Cursor) -> (r: Result<ConstantPool, ParseError>) {
        let ints = parse_table::<i32>(input)?;
        let uints = parse_table::<u32>(input)?;
        let doubles = parse_table::<F64>(input)?;
        let strings = parse_table::<String>(input)?;
        let namespaces = parse_table::<Namespace>(input)?;
        let ns_sets = parse_table::<NamespaceSet>(input)?;
        let multinames = parse_table::<Multiname>(input)?;
        Ok(ConstantPool { ints, uints, doubles, strings, namespaces, ns_sets, multinames })
    }
}

/// The name that index 0 stands for: any name.
pub open spec fn any_name() -> Seq<char> {
    seq!['*']
}

/// The string with index `idx`.
pub open spec fn spec_string_at(pool: ConstantPoolModel, idx: u32) -> Result<Seq<char>, LinkError> {
    if 1 <= idx <= pool.strings.len() {
        Ok(pool.strings[idx - 1])
    } else {
        Err(LinkError::MissingConstant)
    }
}

/// The name of the namespace with index `ns_idx`: `*` for index 0, the empty
/// string for a namespace without a name.
pub open spec fn spec_namespace_name(pool: ConstantPoolModel, ns_idx: u32) -> Result<
    Seq<char>,
    LinkError,
> {
    if ns_idx == 0 {
        Ok(any_name())
    } else if ns_idx > pool.namespaces.len() {
        Err(LinkError::MissingConstant)
    } else if pool.namespaces[ns_idx - 1].name_index == 0 {
        Ok(Seq::empty())
    } else {
        spec_string_at(pool, pool.namespaces[ns_idx - 1].name_index)
    }
}

/// The name with index `name_idx`: `*` for index 0.
pub open spec fn spec_local_name(pool: ConstantPoolModel, name_idx: u32) -> Result<
    Seq<char>,
    LinkError,
> {
    if name_idx == 0 {
        Ok(any_name())
    } else {
        spec_string_at(pool, name_idx)
    }
}

/// The namespace and the name that a qualified name stands for.
pub open spec fn spec_link_qname(name: MultinameModel, pool: ConstantPoolModel) -> Result<
    (Seq<char>, Seq<char>),
    LinkError,
> {
    match name {
        MultinameModel::QName { kind, ns_idx, name_idx } => {
            match spec_namespace_name(pool, ns_idx) {
                Err(e) => Err(e),
                Ok(ns) => match spec_local_name(pool, name_idx) {
                    Err(e) => Err(e),
                    Ok(local) => Ok((ns, local)),
                },
            }
        },
        _ => Err(LinkError::NotQName),
    }
}

/// The namespace and the name that the multiname with index `idx` stands for.
pub open spec fn spec_link_name(pool: ConstantPoolModel, idx: u32) -> Result<
    (Seq<char>, Seq<char>),
    LinkError,
> {
    if 1 <= idx <= pool.multinames.len() {
        spec_link_qname(pool.multinames[idx - 1], pool)
    } else {
        Err(LinkError::MissingConstant)
    }
}

impl ConstantPool {
    /// The signed integer with index `i`.
    pub fn int_at(&self, i: usize) -> (v: i32)
        requires
            1 <= i <= self.ints@.len(),
        ensures
            v == self.ints@[i - 1],
    {
        self.ints[i - 1]
    }

    /// The signed integers from index 1 on.
    pub fn all_ints(&self) -> (all: &[i32])
        ensures
            all@ == self.ints@,
    {
        self.ints.as_slice()
    }

    /// The unsigned integer with index `i`.
    pub fn uint(&self, i: usize) -> (v: u32)
        requires
            1 <= i <= self.uints@.len(),
        ensures
            v == self.uints@[i - 1],
    {
        self.uints[i - 1]
    }

    /// The unsigned integers from index 1 on.
    pub fn all_uints(&self) -> (all: &[u32])
        ensures
            all@ == self.uints@,
    {
        self.uints.as_slice()
    }

    /// The floating-point number with index `i`.
    pub fn double(&self, i: usize) -> (v: F64)
        requires
            1 <= i <= self.doubles@.len(),
        ensures
            v == self.doubles@[i - 1],
    {
        self.doubles[i - 1]
    }

    /// The floating-point numbers from index 1 on.
    pub fn all_doubles(&self) -> (all: &[F64])
        ensures
            all@ == self.doubles@,
    {
        self.doubles.as_slice()
    }

    /// The string with index `i`.
    pub fn string(&self, i: usize) -> (v: &str)
        requires
            1 <= i <= self.strings@.len(),
        ensures
            v@ == self.strings@[i - 1]@,
    {
        self.strings[i - 1].as_str()
    }

    /// The strings from index 1 on.
    pub fn all_strings(&self) -> (all: &[String])
        ensures
            all@ == self.strings@,
    {
        self.strings.as_slice()
    }

    /// The namespace with index `i`.
    pub fn namespace(&self, i: usize) -> (v: &Namespace)
        requires
            1 <= i <= self.namespaces@.len(),
        ensures
            *v == self.namespaces@[i - 1],
    {
        &self.namespaces[i - 1]
    }

    /// The namespaces from index 1 on.
    pub fn all_namespaces(&self) -> (all: &[Namespace])
        ensures
            all@ == self.namespaces@,
    {
        self.namespaces.as_slice()
    }

    /// The namespace set with index `i`.
    pub fn ns_set(&self, i: usize) -> (v: &NamespaceSet)
        requires
            1 <= i <= self.ns_sets@.len(),
        ensures
            *v == self.ns_sets@[i - 1],
    {
        &self.ns_sets[i - 1]
    }

    /// The namespace sets from index 1 on.
    pub fn ns_sets(&self) -> (all: &[NamespaceSet])
        ensures
            all@ == self.ns_sets@,
    {
        self.ns_sets.as_slice()
    }

    /// The multiname with index `i`.
    pub fn multiname(&self, i: usize) -> (v: &Multiname)
        requires
            1 <= i <= self.multinames@.len(),
        ensures
            *v == self.multinames@[i - 1],
    {
        &self.multinames[i - 1]
    }

    /// The multinames from index 1 on.
    pub fn multinames(&self) -> (all: &[Multiname])
        ensures
            all@ == self.multinames@,
    {
        self.multinames.as_slice()
    }

    /// The string with index `idx`, where the table has one.
    pub fn string_at(&self, idx: u32) -> (r: Result<&str, LinkError>)
        ensures
            linked(r, spec_string_at(self.deep_view(), idx)),
    {
        if 1 <= idx && idx as usize <= self.strings.len() {
            Ok(self.string(idx as usize))
        } else {
            Err(LinkError::MissingConstant)
        }
    }

    /// Resolves the multiname with index `idx` to a namespace and a name.
    pub fn link_name(&self, idx: u32) -> (r: Result<(&str, &str), LinkError>)
        ensures
            linked(r, spec_link_name(self.deep_view(), idx)),
    {
        if 1 <= idx && idx as usize <= self.multinames.len() {
            self.multiname(idx as usize).link_qname(self)
        } else {
            Err(LinkError::MissingConstant)
        }
    }
}

impl Multiname {
    /// Resolves a qualified name to the string of its namespace and the
    /// string of its name. Every other shape of name is refused.
    pub fn link_qname<'a>(&'a self, constants: &'a ConstantPool) -> (r: Result<
        (&'a str, &'a str),
        LinkError,
    >)
        ensures
            linked(r, spec_link_qname(self.deep_view(), constants.deep_view())),
    {
        proof {
            reveal_strlit("*");
            reveal_strlit("");
            assert("*"@ =~= any_name());
            assert(""@ =~= Seq::<char>::empty());
        }
        match self {
            Multiname::QName { kind, ns_idx, name_idx } => {
                let ns: &str = if *ns_idx == 0 {
                    "*"
                } else if *ns_idx as usize > constants.namespaces.len() {
                    return Err(LinkError::MissingConstant);
                } else {
                    let name_index: u32 = constants.namespace(*ns_idx as usize).name_index;
                    if name_index == 0 {
                        ""
                    } else {
                        constants.string_at(name_index)?
                    }
                };
                let name: &str = if *name_idx == 0 {
                    "*"
                } else {
                    constants.string_at(*name_idx)?
                };
                Ok((ns, name))
            },
            _ => Err(LinkError::NotQName),
        }
    }
}

} // verus!
