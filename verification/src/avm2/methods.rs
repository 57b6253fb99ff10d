//! Method signatures.

use vstd::prelude::*;
use crate::cursor::{agrees, Cursor, done, fail, then};
use crate::avm2::{parse_counted, parse_many, spec_counted, spec_many, FlagType, Parse, ParseError, Parsed};

verus! {

/// The flag of a method that takes an `arguments` object.
pub const NEED_ARGUMENTS: u8 = 0x01;

/// The flag of a method that needs an activation object.
pub const NEED_ACTIVATION: u8 = 0x02;

/// The flag of a method that takes rest parameters.
pub const NEED_REST: u8 = 0x04;

/// The flag of a method whose record lists default values.
pub const HAS_OPTIONAL: u8 = 0x08;

/// The flag of a method that sets the default XML namespace.
pub const SET_DXNS: u8 = 0x40;

/// The flag of a method whose record lists the names of its parameters.
pub const HAS_PARAM_NAMES: u8 = 0x80;

/// The kinds of constant that a default value of a parameter can be.
#[derive(Debug, Clone, Copy, PartialEq, Eq, Hash, Structural)]
pub enum OptionDetailKind {
    Int,
    Uint,
    Double,
    Utf8,
    True,
    False,
    Null,
    Undefined,
    Namespace,
    PackageNamespace,
    PackageInternalNs,
    ProtectedNamespace,
    ExplicitNamespace,
    StaticProtectedNs,
    PrivateNs,
}

impl OptionDetailKind {
    /// The enumerator whose wire form is `byte`, if there is one.
    #[verifier::opaque]
    pub open spec fn spec_from_u8(byte: u8) -> Option<OptionDetailKind> {
        if byte == 0x03 {
            Some(OptionDetailKind::Int)
        } else if byte == 0x04 {
            Some(OptionDetailKind::Uint)
        } else if byte == 0x06 {
            Some(OptionDetailKind::Double)
        } else if byte == 0x01 {
            Some(OptionDetailKind::Utf8)
        } else if byte == 0x0b {
            Some(OptionDetailKind::True)
        } else if byte == 0x0a {
            Some(OptionDetailKind::False)
        } else if byte == 0x0c {
            Some(OptionDetailKind::Null)
        } else if byte == 0x00 {
            Some(OptionDetailKind::Undefined)
        } else if byte == 0x08 {
            Some(OptionDetailKind::Namespace)
        } else if byte == 0x16 {
            Some(OptionDetailKind::PackageNamespace)
        } else if byte == 0x17 {
            Some(OptionDetailKind::PackageInternalNs)
        } else if byte == 0x18 {
            Some(OptionDetailKind::ProtectedNamespace)
        } else if byte == 0x19 {
            Some(OptionDetailKind::ExplicitNamespace)
        } else if byte == 0x1a {
            Some(OptionDetailKind::StaticProtectedNs)
        } else if byte == 0x05 {
            Some(OptionDetailKind::PrivateNs)
        } else {
            None
        }
    }

    /// The wire form of the enumerator.
    pub open spec fn spec_to_u8(self) -> u8 {
        match self {
            OptionDetailKind::Int => 0x03,
            OptionDetailKind::Uint => 0x04,
            OptionDetailKind::Double => 0x06,
            OptionDetailKind::Utf8 => 0x01,
            OptionDetailKind::True => 0x0b,
            OptionDetailKind::False => 0x0a,
            OptionDetailKind::Null => 0x0c,
            OptionDetailKind::Undefined => 0x00,
            OptionDetailKind::Namespace => 0x08,
            OptionDetailKind::PackageNamespace => 0x16,
            OptionDetailKind::PackageInternalNs => 0x17,
            OptionDetailKind::ProtectedNamespace => 0x18,
            OptionDetailKind::ExplicitNamespace => 0x19,
            OptionDetailKind::StaticProtectedNs => 0x1a,
            OptionDetailKind::PrivateNs => 0x05,
        }
    }

    /// Looks up the enumerator with the given wire form.
    pub fn from_u8(byte: u8) -> (r: Result<Self, ParseError>)
        ensures
            r == match Self::spec_from_u8(byte) {
                Some(k) => Ok::<OptionDetailKind, ParseError>(k),
                None => Err(ParseError::InvalidFlag { byte, flag_type: FlagType::OptionDetailKind }),
            },
    {
        reveal(OptionDetailKind::spec_from_u8);
        if byte == 0x03 {
            Ok(OptionDetailKind::Int)
        } else if byte == 0x04 {
            Ok(OptionDetailKind::Uint)
        } else if byte == 0x06 {
            Ok(OptionDetailKind::Double)
        } else if byte == 0x01 {
            Ok(OptionDetailKind::Utf8)
        } else if byte == 0x0b {
            Ok(OptionDetailKind::True)
        } else if byte == 0x0a {
            Ok(OptionDetailKind::False)
        } else if byte == 0x0c {
            Ok(OptionDetailKind::Null)
        } else if byte == 0x00 {
            Ok(OptionDetailKind::Undefined)
        } else if byte == 0x08 {
            Ok(OptionDetailKind::Namespace)
        } else if byte == 0x16 {
            Ok(OptionDetailKind::PackageNamespace)
        } else if byte == 0x17 {
            Ok(OptionDetailKind::PackageInternalNs)
        } else if byte == 0x18 {
            Ok(OptionDetailKind::ProtectedNamespace)
        } else if byte == 0x19 {
            Ok(OptionDetailKind::ExplicitNamespace)
        } else if byte == 0x1a {
            Ok(OptionDetailKind::StaticProtectedNs)
        } else if byte == 0x05 {
            Ok(OptionDetailKind::PrivateNs)
        } else {
            Err(ParseError::InvalidFlag { byte, flag_type: FlagType::OptionDetailKind })
        }
    }

    /// The wire form of the enumerator.
    #[verifier::when_used_as_spec(spec_to_u8)]
    pub fn to_u8(self) -> (byte: u8)
        ensures
            byte == self.spec_to_u8(),
    {
        match self {
            OptionDetailKind::Int => 0x03,
            OptionDetailKind::Uint => 0x04,
            OptionDetailKind::Double => 0x06,
            OptionDetailKind::Utf8 => 0x01,
            OptionDetailKind::True => 0x0b,
            OptionDetailKind::False => 0x0a,
            OptionDetailKind::Null => 0x0c,
            OptionDetailKind::Undefined => 0x00,
            OptionDetailKind::Namespace => 0x08,
            OptionDetailKind::PackageNamespace => 0x16,
            OptionDetailKind::PackageInternalNs => 0x17,
            OptionDetailKind::ProtectedNamespace => 0x18,
            OptionDetailKind::ExplicitNamespace => 0x19,
            OptionDetailKind::StaticProtectedNs => 0x1a,
            OptionDetailKind::PrivateNs => 0x05,
        }
    }

    /// Looking up the wire form of an enumerator gives the enumerator back.
    pub proof fn lemma_from_u8_to_u8(kind: OptionDetailKind)
        ensures
            OptionDetailKind::spec_from_u8(kind.spec_to_u8()) == Some(kind),
    {
        reveal(OptionDetailKind::spec_from_u8);
    }
}

impl DeepView for OptionDetailKind {
    type V = OptionDetailKind;

    open spec fn deep_view(&self) -> OptionDetailKind {
        *self
    }
}

impl Parse for OptionDetailKind {
    open spec fn spec_parse(input: Seq<u8>) -> Parsed<OptionDetailKind> {
        then(u8::spec_parse(input), |byte: u8, rest: Seq<u8>|
            match OptionDetailKind::spec_from_u8(byte) {
                Some(kind) => done(kind, rest),
                None => fail(ParseError::InvalidFlag { byte, flag_type: FlagType::OptionDetailKind }, rest),
            })
    }

    fn parse_avm2(input: &mut Cursor) -> (r: Result<OptionDetailKind, ParseError>) {
        let byte: u8 = u8::parse_avm2(input)?;
        OptionDetailKind::from_u8(byte)
    }
}

/// The default value of a parameter: an index into the table that its kind
/// names.
#[derive(Debug, Clone, Copy, PartialEq, Eq, Structural)]
pub struct OptionDetail {
    pub kind: OptionDetailKind,
    pub value: u32,
}

impl DeepView for OptionDetail {
    type V = OptionDetail;

    open spec fn deep_view(&self) -> OptionDetail {
        *self
    }
}

impl Parse for OptionDetail {
    open spec fn spec_parse(input: Seq<u8>) -> Parsed<OptionDetail> {
        then(u32::spec_parse(input), |value: u32, rest: Seq<u8>|
            then(OptionDetailKind::spec_parse(rest), |kind: OptionDetailKind, rest: Seq<u8>|
                done(OptionDetail { kind, value }, rest)))
    }

    fn parse_avm2(input: &mut Cursor) -> (r: Result<OptionDetail, ParseError>) {
        let value: u32 = u32::parse_avm2(input)?;
        let kind = OptionDetailKind::parse_avm2(input)?;
        Ok(OptionDetail { kind, value })
    }
}

/// The signature of a method.
#[derive(Debug, Clone)]
pub struct MethodInfo {
    pub return_type_idx: u32,
    pub param_type_indices: Vec<u32>,
    pub name_idx: u32,
    pub flags: u8,
    pub options: Option<Vec<OptionDetail>>,
    pub param_names: Option<Vec<u32>>,
}

/// The model of a [`MethodInfo`].
pub struct MethodInfoModel {
    pub return_type_idx: u32,
    pub param_type_indices: Seq<u32>,
    pub name_idx: u32,
    pub flags: u8,
    pub options: Option<Seq<OptionDetail>>,
    pub param_names: Option<Seq<u32>>,
}

impl DeepView for MethodInfo {
    type V = MethodInfoModel;

    open spec fn deep_view(&self) -> MethodInfoModel {
        MethodInfoModel {
            return_type_idx: self.return_type_idx,
            param_type_indices: self.param_type_indices.deep_view(),
            name_idx: self.name_idx,
            flags: self.flags,
            options: self.options.deep_view(),
            param_names: self.param_names.deep_view(),
        }
    }
}

/// The default values of a method with the given flags: present exactly when
/// [`HAS_OPTIONAL`] is set.
#[verifier::opaque]
pub open spec fn spec_options(flags: u8, input: Seq<u8>) -> Parsed<Option<Seq<OptionDetail>>> {
    if flags & HAS_OPTIONAL == HAS_OPTIONAL {
        then(spec_counted::<OptionDetail>(input), |details: Seq<OptionDetail>, rest: Seq<u8>|
            done(Some(details), rest))
    } else {
        done(None, input)
    }
}

/// The parameter names of a method with the given flags: one for each
/// parameter, present exactly when [`HAS_PARAM_NAMES`] is set.
#[verifier::opaque]
pub open spec fn spec_param_names(flags: u8, num_params: u32, input: Seq<u8>) -> Parsed<
    Option<Seq<u32>>,
> {
    if flags & HAS_PARAM_NAMES == HAS_PARAM_NAMES {
        then(spec_many::<u32>(input, num_params as nat), |names: Seq<u32>, rest: Seq<u8>|
            done(Some(names), rest))
    } else {
        done(None, input)
    }
}

fn parse_options(flags: u8, input: &mut Cursor) -> (r: Result<Option<Vec<OptionDetail>>, ParseError>)
    ensures
        agrees(r, final(input)@, spec_options(flags, old(input)@)),
{
    reveal(spec_options);
    if flags & HAS_OPTIONAL == HAS_OPTIONAL {
        let details = parse_counted::<OptionDetail>(input)?;
        Ok(Some(details))
    } else {
        Ok(None)
    }
}

fn parse_param_names(flags: u8, num_params: u32, input: &mut Cursor) -> (r: Result<
    Option<Vec<u32>>,
    ParseError,
>)
    ensures
        agrees(r, final(input)@, spec_param_names(flags, num_params, old(input)@)),
{
    reveal(spec_param_names);
    if flags & HAS_PARAM_NAMES == HAS_PARAM_NAMES {
        let names = parse_many::<u32>(input, num_params as usize)?;
        Ok(Some(names))
    } else {
        Ok(None)
    }
}

impl Parse for MethodInfo {
    open spec fn spec_parse(input: Seq<u8>) -> Parsed<MethodInfoModel> {
        then(u32::spec_parse(input), |num_params: u32, rest: Seq<u8>|
            then(u32::spec_parse(rest), |return_type_idx: u32, rest: Seq<u8>|
                then(spec_many::<u32>(rest, num_params as nat), |param_type_indices: Seq<u32>, rest: Seq<u8>|
                    then(u32::spec_parse(rest), |name_idx: u32, rest: Seq<u8>|
                        then(u8::spec_parse(rest), |flags: u8, rest: Seq<u8>|
                            then(spec_options(flags, rest), |options: Option<Seq<OptionDetail>>, rest: Seq<u8>|
                                then(spec_param_names(flags, num_params, rest), |param_names: Option<Seq<u32>>, rest: Seq<u8>|
                                    done(MethodInfoModel {
                                        return_type_idx,
                                        param_type_indices,
                                        name_idx,
                                        flags,
                                        options,
                                        param_names,
                                    }, rest))))))))
    }

    fn parse_avm2(input: &mut Cursor) -> (r: Result<MethodInfo, ParseError>) {
        let num_params: u32 = u32::parse_avm2(input)?;
        let return_type_idx: u32 = u32::parse_avm2(input)?;
        let param_type_indices = parse_many::<u32>(input, num_params as usize)?;
        let name_idx: u32 = u32::parse_avm2(input)?;
        let flags: u8 = u8::parse_avm2(input)?;
        let options = parse_options(flags, input)?;
        let param_names = parse_param_names(flags, num_params, input)?;
        Ok(MethodInfo { return_type_idx, param_type_indices, name_idx, flags, options, param_names })
    }
}

} // verus!
