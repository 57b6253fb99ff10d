//! The bytecode container as a whole.

use vstd::prelude::*;
use crate::cursor::{agrees, Cursor, done, then};
use crate::avm2::class::{
    spec_link_class, Class, ClassModel, Instance, InstanceModel, LinkedClass, LinkedClassModel,
};
use crate::avm2::constants::{ConstantPool, ConstantPoolModel};
use crate::avm2::metadata::{Metadata, MetadataModel};
use crate::avm2::methods::{MethodInfo, MethodInfoModel};
use crate::avm2::{linked, parse_counted, parse_many, spec_counted, spec_many, LinkError, Parse, ParseError, Parsed};
use crate::text::str_eq;

verus! {

/// A bytecode container, up to and including its classes. The scripts and
/// method bodies that follow them in the file are not read.
#[derive(Debug, Clone)]
pub struct AbcFile {
    pub minor_version: u16,
    pub major_version: u16,
    pub constants: ConstantPool,
    pub methods: Vec<MethodInfo>,
    pub metadata: Vec<Metadata>,
    pub instances: Vec<Instance>,
    pub classes: Vec<Class>,
}

/// The model of an [`AbcFile`].
pub struct AbcFileModel {
    pub minor_version: u16,
    pub major_version: u16,
    pub constants: ConstantPoolModel,
    pub methods: Seq<MethodInfoModel>,
    pub metadata: Seq<MetadataModel>,
    pub instances: Seq<InstanceModel>,
    pub classes: Seq<ClassModel>,
}

impl DeepView for AbcFile {
    type V = AbcFileModel;

    open spec fn deep_view(&self) -> AbcFileModel {
        AbcFileModel {
            minor_version: self.minor_version,
            major_version: self.major_version,
            constants: self.constants.deep_view(),
            methods: self.methods.deep_view(),
            metadata: self.metadata.deep_view(),
            instances: self.instances.deep_view(),
            classes: self.classes.deep_view(),
        }
    }
}

/// The two halves of the classes: a count, that many instance records, then
/// that many class records.
#[verifier::opaque]
pub open spec fn spec_class_tables(input: Seq<u8>) -> Parsed<(Seq<InstanceModel>, Seq<ClassModel>)> {
    then(u32::spec_parse(input), |count: u32, rest: Seq<u8>|
        then(spec_many::<Instance>(rest, count as nat), |instances: Seq<InstanceModel>, rest: Seq<u8>|
            then(spec_many::<Class>(rest, count as nat), |classes: Seq<ClassModel>, rest: Seq<u8>|
                done((instances, classes), rest))))
}

fn parse_class_tables(input: &mut Cursor) -> (r: Result<(Vec<Instance>, Vec<Class>), ParseError>)
    ensures
        agrees(r, final(input)@, spec_class_tables(old(input)@)),
{
    reveal(spec_class_tables);
    let count: u32 = u32::parse_avm2(input)?;
    let instances = parse_many::<Instance>(input, count as usize)?;
    let classes = parse_many::<Class>(input, count as usize)?;
    Ok((instances, classes))
}

/// The container is two little-endian version numbers, the constant pool, the
/// counted method signatures, the counted metadata records and the classes.
impl Parse for AbcFile {
    open spec fn spec_parse(input: Seq<u8>) -> Parsed<AbcFileModel> {
        then(u16::spec_parse(input), |minor_version: u16, rest: Seq<u8>|
            then(u16::spec_parse(rest), |major_version: u16, rest: Seq<u8>|
                then(ConstantPool::spec_parse(rest), |constants: ConstantPoolModel, rest: Seq<u8>|
                    then(spec_counted::<MethodInfo>(rest), |methods: Seq<MethodInfoModel>, rest: Seq<u8>|
                        then(spec_counted::<Metadata>(rest), |metadata: Seq<MetadataModel>, rest: Seq<u8>|
                            then(spec_class_tables(rest), |tables: (Seq<InstanceModel>, Seq<ClassModel>), rest: Seq<u8>|
                                done(AbcFileModel {
                                    minor_version,
                                    major_version,
                                    constants,
                                    methods,
                                    metadata,
                                    instances: tables.0,
                                    classes: tables.1,
                                }, rest)))))))
    }

    fn parse_avm2(input: &mut Cursor) -> (r: Result<AbcFile, ParseError>) {
        let minor_version: u16 = u16::parse_avm2(input)?;
        let major_version: u16 = u16::parse_avm2(input)?;
        let constants = ConstantPool::parse_avm2(input)?;
        let methods = parse_counted::<MethodInfo>(input)?;
        let metadata = parse_counted::<Metadata>(input)?;
        let (instances, classes) = parse_class_tables(input)?;
        Ok(
            AbcFile {
                minor_version,
                major_version,
                constants,
                methods,
                metadata,
                instances,
                classes,
            },
        )
    }
}

/// The number of classes of a container: the instance records that have a
/// class record.
pub open spec fn spec_class_count(file: AbcFileModel) -> nat {
    if file.instances.len() <= file.classes.len() {
        file.instances.len()
    } else {
        file.classes.len()
    }
}

/// The first `n` classes of a container, joined. The first class that cannot
/// be joined fails the whole.
pub open spec fn spec_classes(file: AbcFileModel, n: nat) -> Result<Seq<LinkedClassModel>, LinkError>
    decreases n,
{
    if n == 0 {
        Ok(Seq::empty())
    } else {
        match spec_classes(file, (n - 1) as nat) {
            Err(e) => Err(e),
            Ok(front) => match spec_link_class(
                file.instances[n - 1],
                file.classes[n - 1],
                file.constants,
            ) {
                Ok(class) => Ok(front.push(class)),
                Err(e) => Err(e),
            },
        }
    }
}

/// Once joining has failed, looking at more classes changes nothing.
pub proof fn lemma_classes_failed(file: AbcFileModel, k: nat, n: nat)
    requires
        k <= n,
        spec_classes(file, k) is Err,
    ensures
        spec_classes(file, n) == spec_classes(file, k),
    decreases n,
{
    if n > k {
        lemma_classes_failed(file, k, (n - 1) as nat);
    }
}

/// The first class from index `from` on whose name, without its namespace, is
/// `name`. The classes are joined one by one up to that class, and one that
/// cannot be joined fails the search.
pub open spec fn spec_find_class(file: AbcFileModel, name: Seq<char>, from: nat) -> Result<
    Option<LinkedClassModel>,
    LinkError,
>
    decreases spec_class_count(file) - from,
{
    if from >= spec_class_count(file) {
        Ok(None)
    } else {
        match spec_link_class(file.instances[from as int], file.classes[from as int], file.constants) {
            Err(e) => Err(e),
            Ok(class) => {
                if class.name.1 == name {
                    Ok(Some(class))
                } else {
                    spec_find_class(file, name, from + 1)
                }
            },
        }
    }
}

impl AbcFile {
    /// The constant pool.
    pub fn constants(&self) -> (pool: &ConstantPool)
        ensures
            *pool == self.constants,
    {
        &self.constants
    }

    /// The number of classes.
    pub fn class_count(&self) -> (n: usize)
        ensures
            n == spec_class_count(self.deep_view()),
    {
        if self.instances.len() <= self.classes.len() {
            self.instances.len()
        } else {
            self.classes.len()
        }
    }

    /// Joins the two halves of the class with index `i`.
    pub fn link_class(&self, i: usize) -> (r: Result<LinkedClass<'_>, LinkError>)
        requires
            i < spec_class_count(self.deep_view()),
        ensures
            linked(
                r,
                spec_link_class(
                    self.deep_view().instances[i as int],
                    self.deep_view().classes[i as int],
                    self.deep_view().constants,
                ),
            ),
    {
        self.instances[i].link(&self.classes[i], &self.constants)
    }

    /// All classes, joined, in the order of the file.
    pub fn classes(&self) -> (r: Result<Vec<LinkedClass<'_>>, LinkError>)
        ensures
            linked(r, spec_classes(self.deep_view(), spec_class_count(self.deep_view()))),
    {
        let count = self.class_count();
        let mut out: Vec<LinkedClass<'_>> = Vec::new();
        let mut k: usize = 0;
        assert(out.deep_view() =~= Seq::<LinkedClassModel>::empty());
        while k < count
            invariant
                k <= count,
                count == spec_class_count(self.deep_view()),
                spec_classes(self.deep_view(), k as nat) == Ok::<Seq<LinkedClassModel>, LinkError>(
                    out.deep_view(),
                ),
            decreases count - k,
        {
            let ghost front = out.deep_view();
            match self.link_class(k) {
                Ok(class) => {
                    out.push(class);
                    assert(out.deep_view() =~= front.push(class.deep_view()));
                },
                Err(e) => {
                    proof {
                        lemma_classes_failed(self.deep_view(), (k + 1) as nat, count as nat);
                    }
                    return Err(e);
                },
            }
            k += 1;
        }
        Ok(out)
    }

    /// The first class whose name, without its namespace, is `name`.
    pub fn find_class(&self, name: &str) -> (r: Result<Option<LinkedClass<'_>>, LinkError>)
        ensures
            linked(r, spec_find_class(self.deep_view(), name@, 0)),
    {
        let count = self.class_count();
        let mut k: usize = 0;
        while k < count
            invariant
                k <= count,
                count == spec_class_count(self.deep_view()),
                spec_find_class(self.deep_view(), name@, 0) == spec_find_class(
                    self.deep_view(),
                    name@,
                    k as nat,
                ),
            decreases count - k,
        {
            let class = self.link_class(k)?;
            if str_eq(class.name.1, name) {
                return Ok(Some(class));
            }
            k += 1;
        }
        Ok(None)
    }
}

} // verus!
