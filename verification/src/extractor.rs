//! Recovery of the table of a build, and of its parameters, from the client
//! as it is published.
//!
//! The client is a movie: a container of tagged records. The first record of
//! embedded bytecode is read with [`crate::avm2`]; the identifiers of the
//! packets are constants of its class `GameServerConnection`, the key material
//! is a string of its constant pool, and the parameters are constants of its
//! class `Parameters`.

use vstd::prelude::*;
use vstd::string::*;
use crate::avm2::abcfile::{spec_find_class, AbcFile, AbcFileModel};
use crate::avm2::class::{LinkedClass, LinkedClassModel};
use crate::avm2::traits::{
    InvalidType, LinkedTraitSlot, LinkedTraitSlotModel, TraitSlotValue, TraitSlotValueModel,
};
use crate::avm2::{LinkError, Parse, ParseError};
use crate::cursor::Cursor;
use crate::data::parameters::{Parameters, ParametersModel};
use crate::mappings::{
    built, spec_key_material, Mappings, RC4KeyError, RC4KeyErrorModel,
};
use crate::packets::definitions::{all_types, PacketType, NUM_TYPES};
use crate::text::{concat, lowercase, remove_underscores, str_eq, to_lowercase};

verus! {

/// A class that is needed was not found in the bytecode. The field is the
/// name of the class.
#[derive(Debug, Clone, Copy)]
pub struct ClassNotFound(pub &'static str);

/// The movie could not be read. The field says why.
#[derive(Debug, Clone)]
pub struct ParserError(pub String);

/// The movie holds no bytecode.
#[derive(Debug, Clone, Copy, PartialEq, Eq, Structural)]
pub struct NoBytecodeFound;

/// The key material was not found in the bytecode.
#[derive(Debug, Clone, Copy, PartialEq, Eq, Structural)]
pub struct NoRC4Found;

/// No packet identifier was found in the bytecode.
#[derive(Debug, Clone, Copy, PartialEq, Eq, Structural)]
pub struct NoPacketsFound;

/// A parameter that is needed was not found. The field is the name of the
/// parameter.
#[derive(Debug, Clone, Copy)]
pub struct ParameterNotFound(pub &'static str);

/// Why nothing could be recovered from a client.
#[derive(Debug, Clone)]
pub enum ExtractError {
    /// The movie could not be read.
    ParserError(ParserError),
    /// The movie holds no bytecode.
    NoBytecodeFound(NoBytecodeFound),
    /// The bytecode could not be read.
    Parse(ParseError),
    /// A name or a slot could not be resolved.
    Link(LinkError),
    /// A class that is needed is not there.
    ClassNotFound(ClassNotFound),
    /// A parameter that is needed is not there.
    ParameterNotFound(ParameterNotFound),
    /// A parameter does not have the type that is needed.
    InvalidType(InvalidType),
    /// The port is not a number from 0 to 65535.
    InvalidPort(i32),
    /// The key material is not there.
    NoRC4Found(NoRC4Found),
    /// The key material is not 52 hexadecimal digits.
    InvalidRc4(RC4KeyError),
}

/// The model of an [`ExtractError`].
pub enum ExtractErrorModel {
    ParserError(Seq<char>),
    NoBytecodeFound,
    Parse(ParseError),
    Link(LinkError),
    ClassNotFound(Seq<char>),
    ParameterNotFound(Seq<char>),
    InvalidType,
    InvalidPort(i32),
    NoRC4Found,
    InvalidRc4(RC4KeyErrorModel),
}

impl DeepView for ExtractError {
    type V = ExtractErrorModel;

    open spec fn deep_view(&self) -> ExtractErrorModel {
        match *self {
            ExtractError::ParserError(e) => ExtractErrorModel::ParserError(e.0@),
            ExtractError::NoBytecodeFound(_) => ExtractErrorModel::NoBytecodeFound,
            ExtractError::Parse(e) => ExtractErrorModel::Parse(e),
            ExtractError::Link(e) => ExtractErrorModel::Link(e),
            ExtractError::ClassNotFound(e) => ExtractErrorModel::ClassNotFound(e.0@),
            ExtractError::ParameterNotFound(e) => ExtractErrorModel::ParameterNotFound(e.0@),
            ExtractError::InvalidType(_) => ExtractErrorModel::InvalidType,
            ExtractError::InvalidPort(port) => ExtractErrorModel::InvalidPort(port),
            ExtractError::NoRC4Found(_) => ExtractErrorModel::NoRC4Found,
            ExtractError::InvalidRc4(e) => ExtractErrorModel::InvalidRc4(e.deep_view()),
        }
    }
}

/// The outcome `r` of an extraction is the one that `model` describes.
pub open spec fn extracted<T: DeepView>(
    r: Result<T, ExtractError>,
    model: Result<T::V, ExtractErrorModel>,
) -> bool {
    match r {
        Ok(v) => model == Ok::<T::V, ExtractErrorModel>(v.deep_view()),
        Err(e) => model == Err::<T::V, ExtractErrorModel>(e.deep_view()),
    }
}

/// A record of a movie, as far as this library looks at it.
#[derive(Debug, Clone, PartialEq, Eq)]
pub enum MovieTag {
    /// A record of embedded bytecode, with the bytecode.
    DoAbc(Vec<u8>),
    /// A record of any other kind.
    Other,
}

/// The model of a [`MovieTag`].
pub enum MovieTagModel {
    DoAbc(Seq<u8>),
    Other,
}

impl DeepView for MovieTag {
    type V = MovieTagModel;

    open spec fn deep_view(&self) -> MovieTagModel {
        match *self {
            MovieTag::DoAbc(data) => MovieTagModel::DoAbc(data@),
            MovieTag::Other => MovieTagModel::Other,
        }
    }
}

/// The records of the movie that `client` holds, or why it holds none: what
/// the movie parser makes of the bytes.
pub uninterp spec fn swf_movie_tags(client: Seq<u8>) -> Result<Seq<MovieTagModel>, Seq<char>>;

/// Calls `parse_swf` of `swf-parser` and keeps, of each record, whether it is
/// embedded bytecode, and the bytecode. Trusted: the result is a function of
/// the bytes alone, named [`swf_movie_tags`].
#[verifier::external_body]
fn parse_movie_tags(client: &[u8]) -> (r: Result<Vec<MovieTag>, String>)
    ensures
        match r {
            Ok(tags) => swf_movie_tags(client@) == Ok::<Seq<MovieTagModel>, Seq<char>>(
                tags.deep_view(),
            ),
            Err(why) => swf_movie_tags(client@) == Err::<Seq<MovieTagModel>, Seq<char>>(why@),
        },
{
    match swf_parser::parse_swf(client) {
        Ok(movie) => Ok(
            movie.tags.into_iter().map(
                |tag| match tag {
                    swf_parser::swf_types::Tag::DoAbc(abc) => MovieTag::DoAbc(abc.data),
                    _ => MovieTag::Other,
                },
            ).collect(),
        ),
        Err(e) => Err(e.to_string()),
    }
}

/// The bytecode of the first record of embedded bytecode from index `from`
/// on.
pub open spec fn spec_first_abc(tags: Seq<MovieTagModel>, from: nat) -> Option<Seq<u8>>
    decreases tags.len() - from,
{
    if from >= tags.len() {
        None
    } else {
        match tags[from as int] {
            MovieTagModel::DoAbc(data) => Some(data),
            MovieTagModel::Other => spec_first_abc(tags, from + 1),
        }
    }
}

/// The bytecode container of a movie with the given records.
pub open spec fn spec_from_tags(tags: Seq<MovieTagModel>) -> Result<AbcFileModel, ExtractErrorModel> {
    match spec_first_abc(tags, 0) {
        None => Err(ExtractErrorModel::NoBytecodeFound),
        Some(data) => match AbcFile::spec_parse(data).result {
            Ok(file) => Ok(file),
            Err(e) => Err(ExtractErrorModel::Parse(e)),
        },
    }
}

/// The bytecode container of the client with the given bytes.
pub open spec fn spec_parsed_client(client: Seq<u8>) -> Result<AbcFileModel, ExtractErrorModel> {
    match swf_movie_tags(client) {
        Err(why) => Err(ExtractErrorModel::ParserError(why)),
        Ok(tags) => spec_from_tags(tags),
    }
}

/// The class with the given name, without its namespace.
pub open spec fn spec_class(file: AbcFileModel, name: Seq<char>) -> Result<
    LinkedClassModel,
    ExtractErrorModel,
> {
    match spec_find_class(file, name, 0) {
        Err(e) => Err(ExtractErrorModel::Link(e)),
        Ok(None) => Err(ExtractErrorModel::ClassNotFound(name)),
        Ok(Some(class)) => Ok(class),
    }
}

/// The text `rc4`, which marks the key material in the string table.
pub open spec fn rc4_marker() -> Seq<char> {
    seq!['r', 'c', '4']
}

/// The index of the first string from `from` on that is `rc4`.
pub open spec fn spec_find_marker(strings: Seq<Seq<char>>, from: nat) -> Option<nat>
    decreases strings.len() - from,
{
    if from >= strings.len() {
        None
    } else if strings[from as int] == rc4_marker() {
        Some(from)
    } else {
        spec_find_marker(strings, from + 1)
    }
}

/// The key material of a string table: the string that follows the first
/// `rc4`.
pub open spec fn spec_extract_rc4(strings: Seq<Seq<char>>) -> Result<Seq<char>, ExtractErrorModel> {
    match spec_find_marker(strings, 0) {
        Some(at) => if at + 1 < strings.len() {
            Ok(strings[(at + 1) as int])
        } else {
            Err(ExtractErrorModel::NoRC4Found)
        },
        None => Err(ExtractErrorModel::NoRC4Found),
    }
}

/// The name of a constant as it is compared with the names of the kinds of
/// packet: in lower case and without `_`.
pub open spec fn normalized(name: Seq<char>) -> Seq<char> {
    lowercase(name).filter(|c: char| c != '_')
}

/// The identifier on the wire that a constant with value `value` gives: its
/// low eight bits.
pub open spec fn wire_id(value: i32) -> u8 {
    (value % 256) as u8
}

/// The index of the first name from index `from` on that is not yet used
/// and is `key`.
pub open spec fn spec_first_free(
    key: Seq<char>,
    names: Seq<Seq<char>>,
    used: Seq<bool>,
    from: nat,
) -> Option<nat>
    decreases names.len() - from,
{
    if from >= names.len() {
        None
    } else if !used[from as int] && names[from as int] == key {
        Some(from)
    } else {
        spec_first_free(key, names, used, from + 1)
    }
}

/// The names of all kinds as they are compared with the names of constants,
/// in the order of their tags.
pub open spec fn kind_names() -> Seq<Seq<char>> {
    Seq::new(NUM_TYPES as nat, |t: int| normalized(all_types()[t].spec_name()))
}

/// The pairs found among the first `n` constants, and which kinds they use.
/// A constant gives a pair when its value is a signed integer and its name is
/// that of a kind which no earlier constant has used.
pub open spec fn spec_packets(consts: Seq<LinkedTraitSlotModel>, n: nat) -> (
    Seq<(u8, PacketType)>,
    Seq<bool>,
)
    decreases n,
{
    if n == 0 {
        (Seq::empty(), Seq::new(NUM_TYPES as nat, |i: int| false))
    } else {
        let (pairs, used) = spec_packets(consts, (n - 1) as nat);
        match consts[n - 1].value {
            TraitSlotValueModel::Int(value) => {
                match spec_first_free(normalized(consts[n - 1].name.1), kind_names(), used, 0) {
                    Some(tag) => (
                        pairs.push((wire_id(value), all_types()[tag as int])),
                        used.update(tag as int, true),
                    ),
                    None => (pairs, used),
                }
            },
            _ => (pairs, used),
        }
    }
}

/// The pairs of identifier and kind of a container: those of the constants
/// of its class `GameServerConnection`.
pub open spec fn spec_extract_packets(file: AbcFileModel) -> Result<
    Seq<(u8, PacketType)>,
    ExtractErrorModel,
> {
    match spec_class(file, gsc_name()) {
        Err(e) => Err(e),
        Ok(class) => Ok(spec_packets(class.consts, class.consts.len()).0),
    }
}

/// The name of the class that holds the identifiers of the packets.
pub open spec fn gsc_name() -> Seq<char> {
    "GameServerConnection"@
}

/// The name of the class that holds the parameters.
pub open spec fn parameters_name() -> Seq<char> {
    "Parameters"@
}

/// The value of the last among the first `n` constants whose name is `name`.
pub open spec fn spec_param(consts: Seq<LinkedTraitSlotModel>, name: Seq<char>, n: nat) -> Option<
    TraitSlotValueModel,
>
    decreases n,
{
    if n == 0 {
        None
    } else if consts[n - 1].name.1 == name {
        Some(consts[n - 1].value)
    } else {
        spec_param(consts, name, (n - 1) as nat)
    }
}

/// The text of the parameter `name`.
pub open spec fn spec_text_param(consts: Seq<LinkedTraitSlotModel>, name: Seq<char>) -> Result<
    Seq<char>,
    ExtractErrorModel,
> {
    match spec_param(consts, name, consts.len()) {
        None => Err(ExtractErrorModel::ParameterNotFound(name)),
        Some(TraitSlotValueModel::String(text)) => Ok(text),
        Some(_) => Err(ExtractErrorModel::InvalidType),
    }
}

/// The number of the parameter `name`.
pub open spec fn spec_int_param(consts: Seq<LinkedTraitSlotModel>, name: Seq<char>) -> Result<
    i32,
    ExtractErrorModel,
> {
    match spec_param(consts, name, consts.len()) {
        None => Err(ExtractErrorModel::ParameterNotFound(name)),
        Some(TraitSlotValueModel::Int(number)) => Ok(number),
        Some(_) => Err(ExtractErrorModel::InvalidType),
    }
}

/// The parameters that the constants of the class `Parameters` give. They are
/// looked up in the order build version, minor version, port, tutorial,
/// nexus, random realm, and the first that fails decides the error.
pub open spec fn spec_parameters(consts: Seq<LinkedTraitSlotModel>) -> Result<
    ParametersModel,
    ExtractErrorModel,
> {
    match spec_text_param(consts, "BUILD_VERSION"@) {
        Err(e) => Err(e),
        Ok(build) => match spec_text_param(consts, "MINOR_VERSION"@) {
            Err(e) => Err(e),
            Ok(minor) => match spec_int_param(consts, "PORT"@) {
                Err(e) => Err(e),
                Ok(port) => if port < 0 || port > 0xffff {
                    Err(ExtractErrorModel::InvalidPort(port))
                } else {
                    match spec_int_param(consts, "TUTORIAL_GAMEID"@) {
                        Err(e) => Err(e),
                        Ok(tutorial_gameid) => match spec_int_param(consts, "NEXUS_GAMEID"@) {
                            Err(e) => Err(e),
                            Ok(nexus_gameid) => match spec_int_param(
                                consts,
                                "RANDOM_REALM_GAMEID"@,
                            ) {
                                Err(e) => Err(e),
                                Ok(random_gameid) => Ok(
                                    ParametersModel {
                                        version: build + "."@ + minor,
                                        port: port as u16,
                                        tutorial_gameid,
                                        nexus_gameid,
                                        random_gameid,
                                    },
                                ),
                            },
                        },
                    }
                },
            },
        },
    }
}

/// The parameters of a container: those of its class `Parameters`.
pub open spec fn spec_extract_parameters(file: AbcFileModel) -> Result<
    ParametersModel,
    ExtractErrorModel,
> {
    match spec_class(file, parameters_name()) {
        Err(e) => Err(e),
        Ok(class) => spec_parameters(class.consts),
    }
}

/// Looks up the value of the last constant whose name is `name`.
pub fn find_param<'a>(consts: &Vec<LinkedTraitSlot<'a>>, name: &str) -> (value: Option<
    TraitSlotValue<'a>,
>)
    ensures
        value.deep_view() == spec_param(consts.deep_view(), name@, consts@.len()),
{
    let mut k: usize = consts.len();
    while k > 0
        invariant
            k <= consts@.len(),
            spec_param(consts.deep_view(), name@, consts@.len()) == spec_param(
                consts.deep_view(),
                name@,
                k as nat,
            ),
        decreases k,
    {
        k -= 1;
        assert(consts.deep_view()[k as int] == consts@[k as int].deep_view());
        if str_eq(consts[k].name.1, name) {
            return Some(consts[k].value);
        }
    }
    None
}

/// Looks up the text of the parameter `name`.
pub fn text_param<'a>(consts: &Vec<LinkedTraitSlot<'a>>, name: &'static str) -> (r: Result<
    &'a str,
    ExtractError,
>)
    ensures
        extracted(r, spec_text_param(consts.deep_view(), name@)),
{
    match find_param(consts, name) {
        None => Err(ExtractError::ParameterNotFound(ParameterNotFound(name))),
        Some(value) => match value.as_str() {
            Ok(text) => Ok(text),
            Err(e) => Err(ExtractError::InvalidType(e)),
        },
    }
}

/// Looks up the number of the parameter `name`.
pub fn int_param<'a>(consts: &Vec<LinkedTraitSlot<'a>>, name: &'static str) -> (r: Result<
    i32,
    ExtractError,
>)
    ensures
        extracted(r, spec_int_param(consts.deep_view(), name@)),
{
    match find_param(consts, name) {
        None => Err(ExtractError::ParameterNotFound(ParameterNotFound(name))),
        Some(value) => match value.as_int() {
            Ok(number) => Ok(number),
            Err(e) => Err(ExtractError::InvalidType(e)),
        },
    }
}

/// Assembles the parameters from the constants of the class `Parameters`.
pub fn parameters_from(consts: &Vec<LinkedTraitSlot<'_>>) -> (r: Result<Parameters, ExtractError>)
    ensures
        extracted(r, spec_parameters(consts.deep_view())),
{
    let build = text_param(consts, "BUILD_VERSION")?;
    let minor = text_param(consts, "MINOR_VERSION")?;
    let port: i32 = int_param(consts, "PORT")?;
    if port < 0 || port > 0xffff {
        return Err(ExtractError::InvalidPort(port));
    }
    let tutorial_gameid: i32 = int_param(consts, "TUTORIAL_GAMEID")?;
    let nexus_gameid: i32 = int_param(consts, "NEXUS_GAMEID")?;
    let random_gameid: i32 = int_param(consts, "RANDOM_REALM_GAMEID")?;
    let dotted = concat(build, ".");
    let version = concat(dotted.as_str(), minor);
    Ok(Parameters { version, port: port as u16, tutorial_gameid, nexus_gameid, random_gameid })
}

/// The low eight bits of `value`.
pub fn low_byte(value: i32) -> (byte: u8)
    ensures
        byte == wire_id(value),
{
    if value >= 0 {
        (value % 256) as u8
    } else {
        let below: i32 = (-(value + 1)) % 256;
        (255 - below) as u8
    }
}

/// The names of all kinds as they are compared, in the order of their tags.
fn normalized_names() -> (names: Vec<String>)
    ensures
        names.deep_view() == kind_names(),
        names@.len() == NUM_TYPES,
{
    let kinds = PacketType::get_all_types();
    let mut names: Vec<String> = Vec::new();
    let mut t: usize = 0;
    while t < kinds.len()
        invariant
            t <= kinds@.len(),
            kinds@ == all_types(),
            names@.len() == t,
            forall|i: int| 0 <= i < t ==> (#[trigger] names@[i])@ == normalized(
                all_types()[i].spec_name(),
            ),
        decreases kinds@.len() - t,
    {
        let lower = to_lowercase(kinds[t].get_name());
        names.push(remove_underscores(lower.as_str()));
        t += 1;
    }
    assert(names.deep_view() =~= kind_names());
    names
}

/// Finds the first name that is not yet used and is `key`.
pub fn first_free(key: &str, names: &Vec<String>, used: &Vec<bool>) -> (found: Option<usize>)
    requires
        used@.len() == names@.len(),
    ensures
        match found {
            Some(at) => spec_first_free(key@, names.deep_view(), used@, 0) == Some(at as nat) && at
                < names@.len(),
            None => spec_first_free(key@, names.deep_view(), used@, 0) is None,
        },
{
    let mut t: usize = 0;
    while t < names.len()
        invariant
            t <= names@.len(),
            used@.len() == names@.len(),
            spec_first_free(key@, names.deep_view(), used@, 0) == spec_first_free(
                key@,
                names.deep_view(),
                used@,
                t as nat,
            ),
        decreases names@.len() - t,
    {
        assert(names.deep_view()[t as int] == names@[t as int]@);
        if !used[t] && str_eq(names[t].as_str(), key) {
            return Some(t);
        }
        t += 1;
    }
    None
}

/// Finds the pairs of identifier and kind among the constants of the class
/// `GameServerConnection`.
pub fn packets_from(consts: &Vec<LinkedTraitSlot<'_>>) -> (pairs: Vec<(u8, PacketType)>)
    ensures
        pairs@ == spec_packets(consts.deep_view(), consts@.len()).0,
{
    let names = normalized_names();
    let kinds = PacketType::get_all_types();
    let mut used: Vec<bool> = Vec::new();
    let mut t: usize = 0;
    while t < NUM_TYPES
        invariant
            t <= NUM_TYPES,
            used@ == Seq::new(t as nat, |i: int| false),
        decreases NUM_TYPES - t,
    {
        used.push(false);
        assert(used@ =~= Seq::new((t + 1) as nat, |i: int| false));
        t += 1;
    }
    let mut pairs: Vec<(u8, PacketType)> = Vec::new();
    let mut k: usize = 0;
    while k < consts.len()
        invariant
            k <= consts@.len(),
            names.deep_view() == kind_names(),
            names@.len() == NUM_TYPES,
            used@.len() == NUM_TYPES,
            kinds@ == all_types(),
            (pairs@, used@) == spec_packets(consts.deep_view(), k as nat),
        decreases consts@.len() - k,
    {
        assert(consts.deep_view()[k as int] == consts@[k as int].deep_view());
        match consts[k].value {
            TraitSlotValue::Int(value) => {
                let lower = to_lowercase(consts[k].name.1);
                let key = remove_underscores(lower.as_str());
                match first_free(key.as_str(), &names, &used) {
                    Some(tag) => {
                        pairs.push((low_byte(value), kinds[tag]));
                        used[tag] = true;
                    },
                    None => {},
                }
            },
            _ => {},
        }
        k += 1;
    }
    pairs
}

/// Finds the key material in the string table: the string that follows the
/// first `rc4`.
pub fn rc4_from(strings: &[String]) -> (r: Result<&String, ExtractError>)
    ensures
        match r {
            Ok(key) => spec_extract_rc4(strings.deep_view()) == Ok::<Seq<char>, ExtractErrorModel>(
                key@,
            ),
            Err(e) => spec_extract_rc4(strings.deep_view()) == Err::<Seq<char>, ExtractErrorModel>(
                e.deep_view(),
            ),
        },
{
    proof {
        reveal_strlit("rc4");
        assert("rc4"@ =~= rc4_marker());
    }
    let mut k: usize = 0;
    while k < strings.len()
        invariant
            k <= strings@.len(),
            "rc4"@ == rc4_marker(),
            spec_find_marker(strings.deep_view(), 0) == spec_find_marker(
                strings.deep_view(),
                k as nat,
            ),
        decreases strings@.len() - k,
    {
        assert(strings.deep_view()[k as int] == strings@[k as int]@);
        if str_eq(strings[k].as_str(), "rc4") {
            if k + 1 < strings.len() {
                assert(strings.deep_view()[k + 1] == strings@[k + 1]@);
                return Ok(&strings[k + 1]);
            } else {
                return Err(ExtractError::NoRC4Found(NoRC4Found));
            }
        }
        k += 1;
    }
    Err(ExtractError::NoRC4Found(NoRC4Found))
}

/// Finds the bytecode of the first record of embedded bytecode.
pub fn first_abc(tags: &Vec<MovieTag>) -> (data: Option<&Vec<u8>>)
    ensures
        match data {
            Some(data) => spec_first_abc(tags.deep_view(), 0) == Some(data@),
            None => spec_first_abc(tags.deep_view(), 0) is None,
        },
{
    let mut k: usize = 0;
    while k < tags.len()
        invariant
            k <= tags@.len(),
            spec_first_abc(tags.deep_view(), 0) == spec_first_abc(tags.deep_view(), k as nat),
        decreases tags@.len() - k,
    {
        assert(tags.deep_view()[k as int] == tags@[k as int].deep_view());
        match &tags[k] {
            MovieTag::DoAbc(data) => {
                return Some(data);
            },
            MovieTag::Other => {},
        }
        k += 1;
    }
    None
}

/// A client whose bytecode has been read. Nothing is recovered from it until
/// it is asked for.
pub struct ParsedClient {
    abc: AbcFile,
}

impl DeepView for ParsedClient {
    type V = AbcFileModel;

    closed spec fn deep_view(&self) -> AbcFileModel {
        self.abc.deep_view()
    }
}

impl ParsedClient {
    /// Reads the bytecode of the client with the given bytes.
    pub fn new(client: &[u8]) -> (r: Result<Self, ExtractError>)
        ensures
            extracted(r, spec_parsed_client(client@)),
    {
        match parse_movie_tags(client) {
            Ok(tags) => ParsedClient::from_tags(&tags),
            Err(why) => Err(ExtractError::ParserError(ParserError(why))),
        }
    }

    /// Reads the bytecode of a movie with the given records.
    pub fn from_tags(tags: &Vec<MovieTag>) -> (r: Result<Self, ExtractError>)
        ensures
            extracted(r, spec_from_tags(tags.deep_view())),
    {
        match first_abc(tags) {
            None => Err(ExtractError::NoBytecodeFound(NoBytecodeFound)),
            Some(data) => {
                let mut cursor = Cursor::new(data.as_slice());
                match AbcFile::parse_avm2(&mut cursor) {
                    Ok(abc) => Ok(ParsedClient { abc }),
                    Err(e) => Err(ExtractError::Parse(e)),
                }
            },
        }
    }

    /// Takes a bytecode container that was read elsewhere.
    pub fn from_abc(abc: AbcFile) -> (client: Self)
        ensures
            client.deep_view() == abc.deep_view(),
    {
        ParsedClient { abc }
    }

    /// The bytecode container.
    pub fn abc(&self) -> (abc: &AbcFile)
        ensures
            abc.deep_view() == self.deep_view(),
    {
        &self.abc
    }

    /// The first class with the given name. The namespace of the class is not
    /// looked at.
    pub fn class(&self, name: &'static str) -> (r: Result<LinkedClass<'_>, ExtractError>)
        ensures
            extracted(r, spec_class(self.deep_view(), name@)),
    {
        match self.abc.find_class(name) {
            Err(e) => Err(ExtractError::Link(e)),
            Ok(None) => Err(ExtractError::ClassNotFound(ClassNotFound(name))),
            Ok(Some(class)) => Ok(class),
        }
    }

    /// The key material, as the hexadecimal text that the client holds.
    pub fn extract_rc4(&self) -> (r: Result<&String, ExtractError>)
        ensures
            match r {
                Ok(key) => spec_extract_rc4(self.deep_view().constants.strings) == Ok::<
                    Seq<char>,
                    ExtractErrorModel,
                >(key@),
                Err(e) => spec_extract_rc4(self.deep_view().constants.strings) == Err::<
                    Seq<char>,
                    ExtractErrorModel,
                >(e.deep_view()),
            },
    {
        rc4_from(self.abc.constants().all_strings())
    }

    /// The pairs of identifier and kind, in the order of the file.
    pub fn extract_packets(&self) -> (r: Result<Vec<(u8, PacketType)>, ExtractError>)
        ensures
            match r {
                Ok(pairs) => spec_extract_packets(self.deep_view()) == Ok::<
                    Seq<(u8, PacketType)>,
                    ExtractErrorModel,
                >(pairs@),
                Err(e) => spec_extract_packets(self.deep_view()) == Err::<
                    Seq<(u8, PacketType)>,
                    ExtractErrorModel,
                >(e.deep_view()),
            },
    {
        let gsc = self.class("GameServerConnection")?;
        Ok(packets_from(&gsc.consts))
    }

    /// The table of the build: the key material and the pairs of identifier
    /// and kind. The key material is looked for first.
    pub fn extract_mappings(&self) -> (r: Result<Mappings, ExtractError>)
        ensures
            match r {
                Ok(table) => {
                    &&& spec_extract_rc4(self.deep_view().constants.strings) is Ok
                    &&& spec_extract_packets(self.deep_view()) is Ok
                    &&& spec_key_material(
                        spec_extract_rc4(self.deep_view().constants.strings)->Ok_0,
                    ) == Ok::<Seq<u8>, RC4KeyErrorModel>(table.key())
                    &&& table.tags() == built(
                        spec_extract_packets(self.deep_view())->Ok_0,
                        spec_extract_packets(self.deep_view())->Ok_0.len(),
                    )
                },
                Err(e) => match spec_extract_rc4(self.deep_view().constants.strings) {
                    Err(first) => e.deep_view() == first,
                    Ok(key) => match spec_extract_packets(self.deep_view()) {
                        Err(second) => e.deep_view() == second,
                        Ok(_) => spec_key_material(key) == Err::<Seq<u8>, RC4KeyErrorModel>(
                            e.deep_view()->InvalidRc4_0,
                        ) && e.deep_view() is InvalidRc4,
                    },
                },
            },
    {
        let rc4 = self.extract_rc4()?;
        let packets = self.extract_packets()?;
        match Mappings::new(packets, rc4.as_str()) {
            Ok(table) => Ok(table),
            Err(e) => Err(ExtractError::InvalidRc4(e)),
        }
    }

    /// The parameters of the build.
    pub fn extract_parameters(&self) -> (r: Result<Parameters, ExtractError>)
        ensures
            extracted(r, spec_extract_parameters(self.deep_view())),
    {
        let params = self.class("Parameters")?;
        parameters_from(&params.consts)
    }
}

} // verus!
