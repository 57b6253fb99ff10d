//! Traits: the named slots, methods, classes and functions of a class.

use vstd::prelude::*;
use crate::cursor::{agrees, Cursor, done, fail, then};
use crate::avm2::constants::{spec_link_name, spec_string_at, ConstantPool, ConstantPoolModel};
use crate::ieee::F64;
use crate::avm2::{linked, parse_counted, spec_counted, FlagType, LinkError, Parse, ParseError, Parsed};

verus! {

/// The kinds of trait.
#[derive(Debug, Clone, Copy, PartialEq, Eq, Hash, Structural)]
pub enum TraitKind {
    Slot,
    Method,
    Getter,
    Setter,
    Class,
    Function,
    Const,
}

impl TraitKind {
    /// The enumerator whose wire form is `byte`, if there is one.
    #[verifier::opaque]
    pub open spec fn spec_from_u8(byte: u8) -> Option<TraitKind> {
        if byte == 0 {
            Some(TraitKind::Slot)
        } else if byte == 1 {
            Some(TraitKind::Method)
        } else if byte == 2 {
            Some(TraitKind::Getter)
        } else if byte == 3 {
            Some(TraitKind::Setter)
        } else if byte == 4 {
            Some(TraitKind::Class)
        } else if byte == 5 {
            Some(TraitKind::Function)
        } else if byte == 6 {
            Some(TraitKind::Const)
        } else {
            None
        }
    }

    /// The wire form of the enumerator.
    pub open spec fn spec_to_u8(self) -> u8 {
        match self {
            TraitKind::Slot => 0,
            TraitKind::Method => 1,
            TraitKind::Getter => 2,
            TraitKind::Setter => 3,
            TraitKind::Class => 4,
            TraitKind::Function => 5,
            TraitKind::Const => 6,
        }
    }

    /// Looks up the enumerator with the given wire form.
    pub fn from_u8(byte: u8) -> (r: Result<Self, ParseError>)
        ensures
            r == match Self::spec_from_u8(byte) {
                Some(k) => Ok::<TraitKind, ParseError>(k),
                None => Err(ParseError::InvalidFlag { byte, flag_type: FlagType::TraitKind }),
            },
    {
        reveal(TraitKind::spec_from_u8);
        if byte == 0 {
            Ok(TraitKind::Slot)
        } else if byte == 1 {
            Ok(TraitKind::Method)
        } else if byte == 2 {
            Ok(TraitKind::Getter)
        } else if byte == 3 {
            Ok(TraitKind::Setter)
        } else if byte == 4 {
            Ok(TraitKind::Class)
        } else if byte == 5 {
            Ok(TraitKind::Function)
        } else if byte == 6 {
            Ok(TraitKind::Const)
        } else {
            Err(ParseError::InvalidFlag { byte, flag_type: FlagType::TraitKind })
        }
    }

    /// The wire form of the enumerator.
    #[verifier::when_used_as_spec(spec_to_u8)]
    pub fn to_u8(self) -> (byte: u8)
        ensures
            byte == self.spec_to_u8(),
    {
        match self {
            TraitKind::Slot => 0,
            TraitKind::Method => 1,
            TraitKind::Getter => 2,
            TraitKind::Setter => 3,
            TraitKind::Class => 4,
            TraitKind::Function => 5,
            TraitKind::Const => 6,
        }
    }

    /// Looking up the wire form of an enumerator gives the enumerator back.
    pub proof fn lemma_from_u8_to_u8(kind: TraitKind)
        ensures
            TraitKind::spec_from_u8(kind.spec_to_u8()) == Some(kind),
    {
        reveal(TraitKind::spec_from_u8);
    }
}

impl DeepView for TraitKind {
    type V = TraitKind;

    open spec fn deep_view(&self) -> TraitKind {
        *self
    }
}

impl Parse for TraitKind {
    open spec fn spec_parse(input: Seq<u8>) -> Parsed<TraitKind> {
        then(u8::spec_parse(input), |byte: u8, rest: Seq<u8>|
            match TraitKind::spec_from_u8(byte) {
                Some(kind) => done(kind, rest),
                None => fail(ParseError::InvalidFlag { byte, flag_type: FlagType::TraitKind }, rest),
            })
    }

    fn parse_avm2(input: &mut Cursor) -> (r: Result<TraitKind, ParseError>) {
        let byte: u8 = u8::parse_avm2(input)?;
        TraitKind::from_u8(byte)
    }
}

/// The kinds of constant that a slot can hold.
#[derive(Debug, Clone, Copy, PartialEq, Eq, Hash, Structural)]
pub enum ConstantKind {
    Int,
    Uint,
    Double,
    Utf8,
    True,
    False,
    Null,
    Undefined,
    Namespace,
    PackageNamespace,
    PackageInternalNs,
    ProtectedNamespace,
    ExplicitNamespace,
    StaticProtectedNs,
    PrivateNs,
}

impl ConstantKind {
    /// The enumerator whose wire form is `byte`, if there is one.
    #[verifier::opaque]
    pub open spec fn spec_from_u8(byte: u8) -> Option<ConstantKind> {
        if byte == 0x03 {
            Some(ConstantKind::Int)
        } else if byte == 0x04 {
            Some(ConstantKind::Uint)
        } else if byte == 0x06 {
            Some(ConstantKind::Double)
        } else if byte == 0x01 {
            Some(ConstantKind::Utf8)
        } else if byte == 0x0b {
            Some(ConstantKind::True)
        } else if byte == 0x0a {
            Some(ConstantKind::False)
        } else if byte == 0x0c {
            Some(ConstantKind::Null)
        } else if byte == 0x00 {
            Some(ConstantKind::Undefined)
        } else if byte == 0x08 {
            Some(ConstantKind::Namespace)
        } else if byte == 0x16 {
            Some(ConstantKind::PackageNamespace)
        } else if byte == 0x17 {
            Some(ConstantKind::PackageInternalNs)
        } else if byte == 0x18 {
            Some(ConstantKind::ProtectedNamespace)
        } else if byte == 0x19 {
            Some(ConstantKind::ExplicitNamespace)
        } else if byte == 0x1a {
            Some(ConstantKind::StaticProtectedNs)
        } else if byte == 0x05 {
            Some(ConstantKind::PrivateNs)
        } else {
            None
        }
    }

    /// The wire form of the enumerator.
    pub open spec fn spec_to_u8(self) -> u8 {
        match self {
            ConstantKind::Int => 0x03,
            ConstantKind::Uint => 0x04,
            ConstantKind::Double => 0x06,
            ConstantKind::Utf8 => 0x01,
            ConstantKind::True => 0x0b,
            ConstantKind::False => 0x0a,
            ConstantKind::Null => 0x0c,
            ConstantKind::Undefined => 0x00,
            ConstantKind::Namespace => 0x08,
            ConstantKind::PackageNamespace => 0x16,
            ConstantKind::PackageInternalNs => 0x17,
            ConstantKind::ProtectedNamespace => 0x18,
            ConstantKind::ExplicitNamespace => 0x19,
            ConstantKind::StaticProtectedNs => 0x1a,
            ConstantKind::PrivateNs => 0x05,
        }
    }

    /// Looks up the enumerator with the given wire form.
    pub fn from_u8(byte: u8) -> (r: Result<Self, ParseError>)
        ensures
            r == match Self::spec_from_u8(byte) {
                Some(k) => Ok::<ConstantKind, ParseError>(k),
                None => Err(ParseError::InvalidFlag { byte, flag_type: FlagType::ConstantKind }),
            },
    {
        reveal(ConstantKind::spec_from_u8);
        if byte == 0x03 {
            Ok(ConstantKind::Int)
        } else if byte == 0x04 {
            Ok(ConstantKind::Uint)
        } else if byte == 0x06 {
            Ok(ConstantKind::Double)
        } else if byte == 0x01 {
            Ok(ConstantKind::Utf8)
        } else if byte == 0x0b {
            Ok(ConstantKind::True)
        } else if byte == 0x0a {
            Ok(ConstantKind::False)
        } else if byte == 0x0c {
            Ok(ConstantKind::Null)
        } else if byte == 0x00 {
            Ok(ConstantKind::Undefined)
        } else if byte == 0x08 {
            Ok(ConstantKind::Namespace)
        } else if byte == 0x16 {
            Ok(ConstantKind::PackageNamespace)
        } else if byte == 0x17 {
            Ok(ConstantKind::PackageInternalNs)
        } else if byte == 0x18 {
            Ok(ConstantKind::ProtectedNamespace)
        } else if byte == 0x19 {
            Ok(ConstantKind::ExplicitNamespace)
        } else if byte == 0x1a {
            Ok(ConstantKind::StaticProtectedNs)
        } else if byte == 0x05 {
            Ok(ConstantKind::PrivateNs)
        } else {
            Err(ParseError::InvalidFlag { byte, flag_type: FlagType::ConstantKind })
        }
    }

    /// The wire form of the enumerator.
    #[verifier::when_used_as_spec(spec_to_u8)]
    pub fn to_u8(self) -> (byte: u8)
        ensures
            byte == self.spec_to_u8(),
    {
        match self {
            ConstantKind::Int => 0x03,
            ConstantKind::Uint => 0x04,
            ConstantKind::Double => 0x06,
            ConstantKind::Utf8 => 0x01,
            ConstantKind::True => 0x0b,
            ConstantKind::False => 0x0a,
            ConstantKind::Null => 0x0c,
            ConstantKind::Undefined => 0x00,
            ConstantKind::Namespace => 0x08,
            ConstantKind::PackageNamespace => 0x16,
            ConstantKind::PackageInternalNs => 0x17,
            ConstantKind::ProtectedNamespace => 0x18,
            ConstantKind::ExplicitNamespace => 0x19,
            ConstantKind::StaticProtectedNs => 0x1a,
            ConstantKind::PrivateNs => 0x05,
        }
    }

    /// Looking up the wire form of an enumerator gives the enumerator back.
    pub proof fn lemma_from_u8_to_u8(kind: ConstantKind)
        ensures
            ConstantKind::spec_from_u8(kind.spec_to_u8()) == Some(kind),
    {
        reveal(ConstantKind::spec_from_u8);
    }
}

impl DeepView for ConstantKind {
    type V = ConstantKind;

    open spec fn deep_view(&self) -> ConstantKind {
        *self
    }
}

impl Parse for ConstantKind {
    open spec fn spec_parse(input: Seq<u8>) -> Parsed<ConstantKind> {
        then(u8::spec_parse(input), |byte: u8, rest: Seq<u8>|
            match ConstantKind::spec_from_u8(byte) {
                Some(kind) => done(kind, rest),
                None => fail(ParseError::InvalidFlag { byte, flag_type: FlagType::ConstantKind }, rest),
            })
    }

    fn parse_avm2(input: &mut Cursor) -> (r: Result<ConstantKind, ParseError>) {
        let byte: u8 = u8::parse_avm2(input)?;
        ConstantKind::from_u8(byte)
    }
}

/// The body of a slot or constant trait. The kind of the value is present
/// exactly when the index of the value is not 0.
#[derive(Debug, Clone, Copy, PartialEq, Eq, Structural)]
pub struct TraitSlot {
    pub slot_id: u32,
    pub type_name_idx: u32,
    pub value_idx: u32,
    pub value_kind: Option<ConstantKind>,
}

impl DeepView for TraitSlot {
    type V = TraitSlot;

    open spec fn deep_view(&self) -> TraitSlot {
        *self
    }
}

/// The kind of the value of a slot whose value has index `value_idx`.
#[verifier::opaque]
pub open spec fn spec_value_kind(value_idx: u32, input: Seq<u8>) -> Parsed<Option<ConstantKind>> {
    if value_idx == 0 {
        done(None, input)
    } else {
        then(ConstantKind::spec_parse(input), |kind: ConstantKind, rest: Seq<u8>|
            done(Some(kind), rest))
    }
}

fn parse_value_kind(value_idx: u32, input: &mut Cursor) -> (r: Result<
    Option<ConstantKind>,
    ParseError,
>)
    ensures
        agrees(r, final(input)@, spec_value_kind(value_idx, old(input)@)),
{
    reveal(spec_value_kind);
    if value_idx == 0 {
        Ok(None)
    } else {
        let kind = ConstantKind::parse_avm2(input)?;
        Ok(Some(kind))
    }
}

impl Parse for TraitSlot {
    open spec fn spec_parse(input: Seq<u8>) -> Parsed<TraitSlot> {
        then(u32::spec_parse(input), |slot_id: u32, rest: Seq<u8>|
            then(u32::spec_parse(rest), |type_name_idx: u32, rest: Seq<u8>|
                then(u32::spec_parse(rest), |value_idx: u32, rest: Seq<u8>|
                    then(spec_value_kind(value_idx, rest), |value_kind: Option<ConstantKind>, rest: Seq<u8>|
                        done(TraitSlot { slot_id, type_name_idx, value_idx, value_kind }, rest)))))
    }

    fn parse_avm2(input: &mut Cursor) -> (r: Result<TraitSlot, ParseError>) {
        let slot_id: u32 = u32::parse_avm2(input)?;
        let type_name_idx: u32 = u32::parse_avm2(input)?;
        let value_idx: u32 = u32::parse_avm2(input)?;
        let value_kind = parse_value_kind(value_idx, input)?;
        Ok(TraitSlot { slot_id, type_name_idx, value_idx, value_kind })
    }
}

/// The body of a class trait.
#[derive(Debug, Clone, Copy, PartialEq, Eq, Structural)]
pub struct TraitClass {
    pub slot_id: u32,
    pub class_idx: u32,
}

impl DeepView for TraitClass {
    type V = TraitClass;

    open spec fn deep_view(&self) -> TraitClass {
        *self
    }
}

impl Parse for TraitClass {
    open spec fn spec_parse(input: Seq<u8>) -> Parsed<TraitClass> {
        then(u32::spec_parse(input), |slot_id: u32, rest: Seq<u8>|
            then(u32::spec_parse(rest), |class_idx: u32, rest: Seq<u8>|
                done(TraitClass { slot_id, class_idx }, rest)))
    }

    fn parse_avm2(input: &mut Cursor) -> (r: Result<TraitClass, ParseError>) {
        let slot_id: u32 = u32::parse_avm2(input)?;
        let class_idx: u32 = u32::parse_avm2(input)?;
        Ok(TraitClass { slot_id, class_idx })
    }
}

/// The body of a function trait.
#[derive(Debug, Clone, Copy, PartialEq, Eq, Structural)]
pub struct TraitFunction {
    pub slot_id: u32,
    pub function_idx: u32,
}

impl DeepView for TraitFunction {
    type V = TraitFunction;

    open spec fn deep_view(&self) -> TraitFunction {
        *self
    }
}

impl Parse for TraitFunction {
    open spec fn spec_parse(input: Seq<u8>) -> Parsed<TraitFunction> {
        then(u32::spec_parse(input), |slot_id: u32, rest: Seq<u8>|
            then(u32::spec_parse(rest), |function_idx: u32, rest: Seq<u8>|
                done(TraitFunction { slot_id, function_idx }, rest)))
    }

    fn parse_avm2(input: &mut Cursor) -> (r: Result<TraitFunction, ParseError>) {
        let slot_id: u32 = u32::parse_avm2(input)?;
        let function_idx: u32 = u32::parse_avm2(input)?;
        Ok(TraitFunction { slot_id, function_idx })
    }
}

/// The body of a method, getter or setter trait.
#[derive(Debug, Clone, Copy, PartialEq, Eq, Structural)]
pub struct TraitMethod {
    pub disp_id: u32,
    pub method_idx: u32,
}

impl DeepView for TraitMethod {
    type V = TraitMethod;

    open spec fn deep_view(&self) -> TraitMethod {
        *self
    }
}

impl Parse for TraitMethod {
    open spec fn spec_parse(input: Seq<u8>) -> Parsed<TraitMethod> {
        then(u32::spec_parse(input), |disp_id: u32, rest: Seq<u8>|
            then(u32::spec_parse(rest), |method_idx: u32, rest: Seq<u8>|
                done(TraitMethod { disp_id, method_idx }, rest)))
    }

    fn parse_avm2(input: &mut Cursor) -> (r: Result<TraitMethod, ParseError>) {
        let disp_id: u32 = u32::parse_avm2(input)?;
        let method_idx: u32 = u32::parse_avm2(input)?;
        Ok(TraitMethod { disp_id, method_idx })
    }
}

/// The attribute of a trait that cannot be overridden.
pub const ATTR_FINAL: u8 = 0x1;

/// The attribute of a trait that overrides another.
pub const ATTR_OVERRIDE: u8 = 0x2;

/// The attribute of a trait that is followed by metadata indices.
pub const ATTR_METADATA: u8 = 0x4;

/// A trait of a class.
#[derive(Debug, Clone)]
pub enum Trait {
    /// The trait of a slot or a constant.
    Slot { name_idx: u32, kind: TraitKind, attrs: u8, data: TraitSlot, metadata_indices: Vec<u32> },
    /// The trait of a class.
    Class { name_idx: u32, kind: TraitKind, attrs: u8, data: TraitClass, metadata_indices: Vec<u32> },
    /// The trait of a function.
    Function { name_idx: u32, kind: TraitKind, attrs: u8, data: TraitFunction, metadata_indices: Vec<u32> },
    /// The trait of a method, a getter or a setter.
    Method { name_idx: u32, kind: TraitKind, attrs: u8, data: TraitMethod, metadata_indices: Vec<u32> },
}

/// The model of a [`Trait`].
pub enum TraitModel {
    /// The trait of a slot or a constant.
    Slot { name_idx: u32, kind: TraitKind, attrs: u8, data: TraitSlot, metadata_indices: Seq<u32> },
    /// The trait of a class.
    Class { name_idx: u32, kind: TraitKind, attrs: u8, data: TraitClass, metadata_indices: Seq<u32> },
    /// The trait of a function.
    Function { name_idx: u32, kind: TraitKind, attrs: u8, data: TraitFunction, metadata_indices: Seq<u32> },
    /// The trait of a method, a getter or a setter.
    Method { name_idx: u32, kind: TraitKind, attrs: u8, data: TraitMethod, metadata_indices: Seq<u32> },
}

impl DeepView for Trait {
    type V = TraitModel;

    open spec fn deep_view(&self) -> TraitModel {
        match *self {
            Trait::Slot { name_idx, kind, attrs, data, metadata_indices } => TraitModel::Slot {
                name_idx,
                kind,
                attrs,
                data,
                metadata_indices: metadata_indices.deep_view(),
            },
            Trait::Class { name_idx, kind, attrs, data, metadata_indices } => TraitModel::Class {
                name_idx,
                kind,
                attrs,
                data,
                metadata_indices: metadata_indices.deep_view(),
            },
            Trait::Function { name_idx, kind, attrs, data, metadata_indices } => TraitModel::Function {
                name_idx,
                kind,
                attrs,
                data,
                metadata_indices: metadata_indices.deep_view(),
            },
            Trait::Method { name_idx, kind, attrs, data, metadata_indices } => TraitModel::Method {
                name_idx,
                kind,
                attrs,
                data,
                metadata_indices: metadata_indices.deep_view(),
            },
        }
    }
}

/// The metadata indices of a trait with the given attributes: a counted list
/// where [`ATTR_METADATA`] is set, and nothing otherwise.
#[verifier::opaque]
pub open spec fn spec_metadata_indices(attrs: u8, input: Seq<u8>) -> Parsed<Seq<u32>> {
    if attrs & ATTR_METADATA == ATTR_METADATA {
        spec_counted::<u32>(input)
    } else {
        done(Seq::empty(), input)
    }
}

fn parse_metadata_indices(attrs: u8, input: &mut Cursor) -> (r: Result<Vec<u32>, ParseError>)
    ensures
        agrees(r, final(input)@, spec_metadata_indices(attrs, old(input)@)),
{
    reveal(spec_metadata_indices);
    if attrs & ATTR_METADATA == ATTR_METADATA {
        parse_counted::<u32>(input)
    } else {
        let none: Vec<u32> = Vec::new();
        assert(none.deep_view() =~= Seq::<u32>::empty());
        Ok(none)
    }
}

/// What follows the kind byte of a trait with the given name, kind and
/// attributes.
pub open spec fn spec_trait_body(name_idx: u32, kind: TraitKind, attrs: u8, input: Seq<u8>) -> Parsed<
    TraitModel,
> {
    match kind {
        TraitKind::Slot | TraitKind::Const => {
            then(TraitSlot::spec_parse(input), |data: TraitSlot, rest: Seq<u8>|
                then(spec_metadata_indices(attrs, rest), |metadata_indices: Seq<u32>, rest: Seq<u8>|
                    done(TraitModel::Slot { name_idx, kind, attrs, data, metadata_indices }, rest)))
        },
        TraitKind::Class => {
            then(TraitClass::spec_parse(input), |data: TraitClass, rest: Seq<u8>|
                then(spec_metadata_indices(attrs, rest), |metadata_indices: Seq<u32>, rest: Seq<u8>|
                    done(TraitModel::Class { name_idx, kind, attrs, data, metadata_indices }, rest)))
        },
        TraitKind::Function => {
            then(TraitFunction::spec_parse(input), |data: TraitFunction, rest: Seq<u8>|
                then(spec_metadata_indices(attrs, rest), |metadata_indices: Seq<u32>, rest: Seq<u8>|
                    done(TraitModel::Function { name_idx, kind, attrs, data, metadata_indices }, rest)))
        },
        TraitKind::Method | TraitKind::Getter | TraitKind::Setter => {
            then(TraitMethod::spec_parse(input), |data: TraitMethod, rest: Seq<u8>|
                then(spec_metadata_indices(attrs, rest), |metadata_indices: Seq<u32>, rest: Seq<u8>|
                    done(TraitModel::Method { name_idx, kind, attrs, data, metadata_indices }, rest)))
        },
    }
}

fn parse_trait_body(name_idx: u32, kind: TraitKind, attrs: u8, input: &mut Cursor) -> (r: Result<
    Trait,
    ParseError,
>)
    ensures
        agrees(r, final(input)@, spec_trait_body(name_idx, kind, attrs, old(input)@)),
{
    match kind {
        TraitKind::Slot | TraitKind::Const => {
            let data = TraitSlot::parse_avm2(input)?;
            let metadata_indices = parse_metadata_indices(attrs, input)?;
            Ok(Trait::Slot { name_idx, kind, attrs, data, metadata_indices })
        },
        TraitKind::Class => {
            let data = TraitClass::parse_avm2(input)?;
            let metadata_indices = parse_metadata_indices(attrs, input)?;
            Ok(Trait::Class { name_idx, kind, attrs, data, metadata_indices })
        },
        TraitKind::Function => {
            let data = TraitFunction::parse_avm2(input)?;
            let metadata_indices = parse_metadata_indices(attrs, input)?;
            Ok(Trait::Function { name_idx, kind, attrs, data, metadata_indices })
        },
        TraitKind::Method | TraitKind::Getter | TraitKind::Setter => {
            let data = TraitMethod::parse_avm2(input)?;
            let metadata_indices = parse_metadata_indices(attrs, input)?;
            Ok(Trait::Method { name_idx, kind, attrs, data, metadata_indices })
        },
    }
}

/// A trait is the index of its name, a byte whose low nibble is the kind and
/// whose high nibble holds the attributes, the body that the kind calls for,
/// and the metadata indices that the attributes call for.
impl Parse for Trait {
    open spec fn spec_parse(input: Seq<u8>) -> Parsed<TraitModel> {
        then(u32::spec_parse(input), |name_idx: u32, rest: Seq<u8>|
            then(u8::spec_parse(rest), |tag: u8, rest: Seq<u8>|
                match TraitKind::spec_from_u8(tag & 0x0f) {
                    Some(kind) => spec_trait_body(name_idx, kind, tag >> 4, rest),
                    None => fail(ParseError::InvalidFlag {
                        byte: tag & 0x0f,
                        flag_type: FlagType::TraitKind,
                    }, rest),
                }))
    }

    fn parse_avm2(input: &mut Cursor) -> (r: Result<Trait, ParseError>) {
        let name_idx: u32 = u32::parse_avm2(input)?;
        let tag: u8 = u8::parse_avm2(input)?;
        let attrs: u8 = tag >> 4;
        let kind = TraitKind::from_u8(tag & 0x0f)?;
        parse_trait_body(name_idx, kind, attrs, input)
    }
}

impl Trait {
    /// Whether the trait is a slot or a constant.
    pub fn is_slot(&self) -> (b: bool)
        ensures
            b == (self.deep_view() is Slot),
    {
        match self {
            Trait::Slot { .. } => true,
            _ => false,
        }
    }
}

/// The value of a resolved slot.
#[derive(Debug, Clone, Copy)]
pub enum TraitSlotValue<'a> {
    Int(i32),
    Uint(u32),
    Double(F64),
    String(&'a str),
    /// A constant of a kind that is not resolved.
    Unresolved,
}

/// The model of a [`TraitSlotValue`].
pub enum TraitSlotValueModel {
    Int(i32),
    Uint(u32),
    Double(F64),
    String(Seq<char>),
    Unresolved,
}

impl<'a> DeepView for TraitSlotValue<'a> {
    type V = TraitSlotValueModel;

    open spec fn deep_view(&self) -> TraitSlotValueModel {
        match *self {
            TraitSlotValue::Int(v) => TraitSlotValueModel::Int(v),
            TraitSlotValue::Uint(v) => TraitSlotValueModel::Uint(v),
            TraitSlotValue::Double(v) => TraitSlotValueModel::Double(v),
            TraitSlotValue::String(v) => TraitSlotValueModel::String(v@),
            TraitSlotValue::Unresolved => TraitSlotValueModel::Unresolved,
        }
    }
}

/// A slot value was asked for as a type that it does not have.
#[derive(Debug, Clone, Copy, PartialEq, Eq, Structural)]
pub struct InvalidType;

impl<'a> TraitSlotValue<'a> {
    /// The text of a string value; every other value is refused.
    pub fn as_str(self) -> (r: Result<&'a str, InvalidType>)
        ensures
            match self {
                TraitSlotValue::String(s) => r == Ok::<&str, InvalidType>(s),
                _ => r is Err,
            },
    {
        match self {
            TraitSlotValue::String(s) => Ok(s),
            _ => Err(InvalidType),
        }
    }

    /// The number of a signed integer value; every other value is refused.
    pub fn as_int(self) -> (r: Result<i32, InvalidType>)
        ensures
            match self {
                TraitSlotValue::Int(i) => r == Ok::<i32, InvalidType>(i),
                _ => r is Err,
            },
    {
        match self {
            TraitSlotValue::Int(i) => Ok(i),
            _ => Err(InvalidType),
        }
    }
}

/// A slot with its name and its value looked up in the constant pool.
#[derive(Debug, Clone, Copy)]
pub struct LinkedTraitSlot<'a> {
    /// The namespace and the name of the slot.
    pub name: (&'a str, &'a str),
    pub slot_id: u32,
    pub value: TraitSlotValue<'a>,
}

/// The model of a [`LinkedTraitSlot`].
pub struct LinkedTraitSlotModel {
    pub name: (Seq<char>, Seq<char>),
    pub slot_id: u32,
    pub value: TraitSlotValueModel,
}

impl<'a> DeepView for LinkedTraitSlot<'a> {
    type V = LinkedTraitSlotModel;

    open spec fn deep_view(&self) -> LinkedTraitSlotModel {
        LinkedTraitSlotModel {
            name: (self.name.0@, self.name.1@),
            slot_id: self.slot_id,
            value: self.value.deep_view(),
        }
    }
}

/// The value of a slot: a signed integer or a string is looked up in its
/// table, every other kind of constant resolves to no value.
pub open spec fn spec_slot_value(data: TraitSlot, pool: ConstantPoolModel) -> Result<
    TraitSlotValueModel,
    LinkError,
> {
    match data.value_kind {
        Some(ConstantKind::Int) => {
            if 1 <= data.value_idx <= pool.ints.len() {
                Ok(TraitSlotValueModel::Int(pool.ints[data.value_idx - 1]))
            } else {
                Err(LinkError::MissingConstant)
            }
        },
        Some(ConstantKind::Utf8) => {
            match spec_string_at(pool, data.value_idx) {
                Ok(s) => Ok(TraitSlotValueModel::String(s)),
                Err(e) => Err(e),
            }
        },
        _ => Ok(TraitSlotValueModel::Unresolved),
    }
}

/// A slot trait with its name and value resolved. The name is resolved first.
pub open spec fn spec_link_slot(t: TraitModel, pool: ConstantPoolModel) -> Result<
    LinkedTraitSlotModel,
    LinkError,
> {
    match t {
        TraitModel::Slot { name_idx, kind, attrs, data, metadata_indices } => {
            match spec_link_name(pool, name_idx) {
                Err(e) => Err(e),
                Ok(name) => match spec_slot_value(data, pool) {
                    Err(e) => Err(e),
                    Ok(value) => Ok(LinkedTraitSlotModel { name, slot_id: data.slot_id, value }),
                },
            }
        },
        _ => Err(LinkError::NotSlot),
    }
}

fn slot_value<'a>(data: &TraitSlot, constants: &'a ConstantPool) -> (r: Result<
    TraitSlotValue<'a>,
    LinkError,
>)
    ensures
        linked(r, spec_slot_value(*data, constants.deep_view())),
{
    match data.value_kind {
        Some(ConstantKind::Int) => {
            if 1 <= data.value_idx && data.value_idx as usize <= constants.ints.len() {
                Ok(TraitSlotValue::Int(constants.int_at(data.value_idx as usize)))
            } else {
                Err(LinkError::MissingConstant)
            }
        },
        Some(ConstantKind::Utf8) => {
            let s = constants.string_at(data.value_idx)?;
            Ok(TraitSlotValue::String(s))
        },
        _ => Ok(TraitSlotValue::Unresolved),
    }
}

impl Trait {
    /// Resolves the name and the value of a slot or constant trait through the
    /// constant pool. Every other trait is refused.
    pub fn link_slot<'a>(&'a self, constants: &'a ConstantPool) -> (r: Result<
        LinkedTraitSlot<'a>,
        LinkError,
    >)
        ensures
            linked(r, spec_link_slot(self.deep_view(), constants.deep_view())),
    {
        match self {
            Trait::Slot { name_idx, kind, attrs, data, metadata_indices } => {
                let name = constants.link_name(*name_idx)?;
                let value = slot_value(data, constants)?;
                Ok(LinkedTraitSlot { name, slot_id: data.slot_id, value })
            },
            _ => Err(LinkError::NotSlot),
        }
    }
}

} // verus!
