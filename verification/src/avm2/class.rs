//! Classes. The bytecode stores a class in two halves: the instance record
//! with the name, the supertype and the instance traits, and the class record
//! with the static traits.

use vstd::prelude::*;
use crate::cursor::{agrees, Cursor, done, then};
use crate::avm2::constants::{spec_link_name, ConstantPool, ConstantPoolModel};
use crate::avm2::traits::{
    spec_link_slot, LinkedTraitSlot, LinkedTraitSlotModel, Trait, TraitModel,
};
use crate::avm2::{linked, parse_counted, spec_counted, LinkError, Parse, ParseError, Parsed};

verus! {

/// The static half of a class: its initializer and its static traits.
#[derive(Debug, Clone)]
pub struct Class {
    /// The index of the static initializer in the method table.
    pub cinit_idx: u32,
    /// The static traits.
    pub traits: Vec<Trait>,
}

/// The model of a [`Class`].
pub struct ClassModel {
    pub cinit_idx: u32,
    pub traits: Seq<TraitModel>,
}

impl DeepView for Class {
    type V = ClassModel;

    open spec fn deep_view(&self) -> ClassModel {
        ClassModel { cinit_idx: self.cinit_idx, traits: self.traits.deep_view() }
    }
}

impl Parse for Class {
    open spec fn spec_parse(input: Seq<u8>) -> Parsed<ClassModel> {
        then(u32::spec_parse(input), |cinit_idx: u32, rest: Seq<u8>|
            then(spec_counted::<Trait>(rest), |traits: Seq<TraitModel>, rest: Seq<u8>|
                done(ClassModel { cinit_idx, traits }, rest)))
    }

    fn parse_avm2(input: &mut Cursor) -> (r: Result<Class, ParseError>) {
        let cinit_idx: u32 = u32::parse_avm2(input)?;
        let traits = parse_counted::<Trait>(input)?;
        Ok(Class { cinit_idx, traits })
    }
}

/// The flag of a class that cannot gain properties at run time.
pub const CLASS_SEALED: u8 = 0x01;

/// The flag of a class that cannot be extended.
pub const CLASS_FINAL: u8 = 0x02;

/// The flag of an interface.
pub const CLASS_INTERFACE: u8 = 0x04;

/// The flag of a class whose record names a protected namespace.
pub const CLASS_PROTECTED_NS: u8 = 0x08;

/// The instance half of a class.
#[derive(Debug, Clone)]
pub struct Instance {
    pub name_idx: u32,
    pub super_name_idx: u32,
    pub flags: u8,
    pub protected_ns_idx: Option<u32>,
    pub interface_indices: Vec<u32>,
    pub iinit_idx: u32,
    pub traits: Vec<Trait>,
}

/// The model of an [`Instance`].
pub struct InstanceModel {
    pub name_idx: u32,
    pub super_name_idx: u32,
    pub flags: u8,
    pub protected_ns_idx: Option<u32>,
    pub interface_indices: Seq<u32>,
    pub iinit_idx: u32,
    pub traits: Seq<TraitModel>,
}

impl DeepView for Instance {
    type V = InstanceModel;

    open spec fn deep_view(&self) -> InstanceModel {
        InstanceModel {
            name_idx: self.name_idx,
            super_name_idx: self.super_name_idx,
            flags: self.flags,
            protected_ns_idx: self.protected_ns_idx,
            interface_indices: self.interface_indices.deep_view(),
            iinit_idx: self.iinit_idx,
            traits: self.traits.deep_view(),
        }
    }
}

/// The protected namespace of a class with the given flags: present exactly
/// when [`CLASS_PROTECTED_NS`] is set.
#[verifier::opaque]
pub open spec fn spec_protected_ns(flags: u8, input: Seq<u8>) -> Parsed<Option<u32>> {
    if flags & CLASS_PROTECTED_NS == CLASS_PROTECTED_NS {
        then(u32::spec_parse(input), |idx: u32, rest: Seq<u8>| done(Some(idx), rest))
    } else {
        done(None, input)
    }
}

fn parse_protected_ns(flags: u8, input: &mut Cursor) -> (r: Result<Option<u32>, ParseError>)
    ensures
        agrees(r, final(input)@, spec_protected_ns(flags, old(input)@)),
{
    reveal(spec_protected_ns);
    if flags & CLASS_PROTECTED_NS == CLASS_PROTECTED_NS {
        let idx: u32 = u32::parse_avm2(input)?;
        Ok(Some(idx))
    } else {
        Ok(None)
    }
}

impl Parse for Instance {
    open spec fn spec_parse(input: Seq<u8>) -> Parsed<InstanceModel> {
        then(u32::spec_parse(input), |name_idx: u32, rest: Seq<u8>|
            then(u32::spec_parse(rest), |super_name_idx: u32, rest: Seq<u8>|
                then(u8::spec_parse(rest), |flags: u8, rest: Seq<u8>|
                    then(spec_protected_ns(flags, rest), |protected_ns_idx: Option<u32>, rest: Seq<u8>|
                        then(spec_counted::<u32>(rest), |interface_indices: Seq<u32>, rest: Seq<u8>|
                            then(u32::spec_parse(rest), |iinit_idx: u32, rest: Seq<u8>|
                                then(spec_counted::<Trait>(rest), |traits: Seq<TraitModel>, rest: Seq<u8>|
                                    done(InstanceModel {
                                        name_idx,
                                        super_name_idx,
                                        flags,
                                        protected_ns_idx,
                                        interface_indices,
                                        iinit_idx,
                                        traits,
                                    }, rest))))))))
    }

    fn parse_avm2(input: &mut Cursor) -> (r: Result<Instance, ParseError>) {
        let name_idx: u32 = u32::parse_avm2(input)?;
        let super_name_idx: u32 = u32::parse_avm2(input)?;
        let flags: u8 = u8::parse_avm2(input)?;
        let protected_ns_idx = parse_protected_ns(flags, input)?;
        let interface_indices = parse_counted::<u32>(input)?;
        let iinit_idx: u32 = u32::parse_avm2(input)?;
        let traits = parse_counted::<Trait>(input)?;
        Ok(
            Instance {
                name_idx,
                super_name_idx,
                flags,
                protected_ns_idx,
                interface_indices,
                iinit_idx,
                traits,
            },
        )
    }
}

/// The two halves of a class joined through the constant pool.
#[derive(Debug)]
pub struct LinkedClass<'a> {
    /// The namespace and the name of the class.
    pub name: (&'a str, &'a str),
    /// The namespace and the name of the supertype, where there is one.
    pub super_name: Option<(&'a str, &'a str)>,
    /// The static slots and constants of the class, in the order of the file.
    pub consts: Vec<LinkedTraitSlot<'a>>,
}

/// The model of a [`LinkedClass`].
pub struct LinkedClassModel {
    pub name: (Seq<char>, Seq<char>),
    pub super_name: Option<(Seq<char>, Seq<char>)>,
    pub consts: Seq<LinkedTraitSlotModel>,
}

impl<'a> DeepView for LinkedClass<'a> {
    type V = LinkedClassModel;

    open spec fn deep_view(&self) -> LinkedClassModel {
        LinkedClassModel {
            name: (self.name.0@, self.name.1@),
            super_name: match self.super_name {
                Some(n) => Some((n.0@, n.1@)),
                None => None,
            },
            consts: self.consts.deep_view(),
        }
    }
}

/// The slots among the first `n` of `traits`, resolved in order. The first
/// slot that cannot be resolved fails the whole.
pub open spec fn spec_link_consts(traits: Seq<TraitModel>, pool: ConstantPoolModel, n: nat) -> Result<
    Seq<LinkedTraitSlotModel>,
    LinkError,
>
    decreases n,
{
    if n == 0 {
        Ok(Seq::empty())
    } else {
        match spec_link_consts(traits, pool, (n - 1) as nat) {
            Err(e) => Err(e),
            Ok(front) => {
                if traits[n - 1] is Slot {
                    match spec_link_slot(traits[n - 1], pool) {
                        Ok(slot) => Ok(front.push(slot)),
                        Err(e) => Err(e),
                    }
                } else {
                    Ok(front)
                }
            },
        }
    }
}

/// Once resolving has failed, looking at more traits changes nothing.
pub proof fn lemma_link_consts_failed(traits: Seq<TraitModel>, pool: ConstantPoolModel, k: nat, n: nat)
    requires
        k <= n,
        spec_link_consts(traits, pool, k) is Err,
    ensures
        spec_link_consts(traits, pool, n) == spec_link_consts(traits, pool, k),
    decreases n,
{
    if n > k {
        lemma_link_consts_failed(traits, pool, k, (n - 1) as nat);
    }
}

/// The name of the supertype: none for index 0.
pub open spec fn spec_super_name(pool: ConstantPoolModel, idx: u32) -> Result<
    Option<(Seq<char>, Seq<char>)>,
    LinkError,
> {
    if idx == 0 {
        Ok(None)
    } else {
        match spec_link_name(pool, idx) {
            Ok(name) => Ok(Some(name)),
            Err(e) => Err(e),
        }
    }
}

/// A class joined from its two halves: the name, then the name of the
/// supertype, then the static slots are resolved.
pub open spec fn spec_link_class(
    instance: InstanceModel,
    class: ClassModel,
    pool: ConstantPoolModel,
) -> Result<LinkedClassModel, LinkError> {
    match spec_link_name(pool, instance.name_idx) {
        Err(e) => Err(e),
        Ok(name) => match spec_super_name(pool, instance.super_name_idx) {
            Err(e) => Err(e),
            Ok(super_name) => match spec_link_consts(class.traits, pool, class.traits.len()) {
                Err(e) => Err(e),
                Ok(consts) => Ok(LinkedClassModel { name, super_name, consts }),
            },
        },
    }
}

/// Resolves the slots among `traits`.
pub fn link_consts<'a>(traits: &'a Vec<Trait>, constants: &'a ConstantPool) -> (r: Result<
    Vec<LinkedTraitSlot<'a>>,
    LinkError,
>)
    ensures
        linked(r, spec_link_consts(traits.deep_view(), constants.deep_view(), traits@.len())),
{
    let mut out: Vec<LinkedTraitSlot<'a>> = Vec::new();
    let mut k: usize = 0;
    assert(out.deep_view() =~= Seq::<LinkedTraitSlotModel>::empty());
    while k < traits.len()
        invariant
            k <= traits@.len(),
            spec_link_consts(traits.deep_view(), constants.deep_view(), k as nat) == Ok::<
                Seq<LinkedTraitSlotModel>,
                LinkError,
            >(out.deep_view()),
        decreases traits@.len() - k,
    {
        let ghost front = out.deep_view();
        let t = &traits[k];
        assert(traits.deep_view()[k as int] == t.deep_view());
        if t.is_slot() {
            match t.link_slot(constants) {
                Ok(slot) => {
                    out.push(slot);
                    assert(out.deep_view() =~= front.push(slot.deep_view()));
                },
                Err(e) => {
                    proof {
                        lemma_link_consts_failed(
                            traits.deep_view(),
                            constants.deep_view(),
                            (k + 1) as nat,
                            traits@.len(),
                        );
                    }
                    return Err(e);
                },
            }
        }
        k += 1;
    }
    Ok(out)
}

impl Instance {
    /// Joins this instance record with its class record.
    pub fn link<'a>(&'a self, class: &'a Class, constants: &'a ConstantPool) -> (r: Result<
        LinkedClass<'a>,
        LinkError,
    >)
        ensures
            linked(r, spec_link_class(self.deep_view(), class.deep_view(), constants.deep_view())),
    {
        let name = constants.link_name(self.name_idx)?;
        let super_name = if self.super_name_idx == 0 {
            None
        } else {
            Some(constants.link_name(self.super_name_idx)?)
        };
        let consts = link_consts(&class.traits, constants)?;
        Ok(LinkedClass { name, super_name, consts })
    }
}

} // verus!
