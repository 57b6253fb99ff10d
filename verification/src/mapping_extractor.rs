//! The table of a build from the text of a disassembled client.
//!
//! The program around the library disassembles the client and searches the
//! text of two classes: for the key material, and for the constants that give
//! the packets their identifiers. What it found is turned into a table here.

use vstd::prelude::*;
use vstd::string::*;
use crate::extractor::{first_free, spec_first_free};
use crate::mappings::{
    built, spec_key_material, Mappings, RC4KeyError, RC4KeyErrorModel,
};
use crate::packets::definitions::{all_types, PacketType, NUM_TYPES};
use crate::text::{lowercase, remove_underscores, to_lowercase};

verus! {

/// Why no table could be made from a disassembled client.
#[derive(Debug, Clone)]
pub enum MappingError {
    /// The key material was not found in the disassembly.
    MissingRC4,
    /// The key material is not 52 hexadecimal digits.
    InvalidRC4(RC4KeyError),
}

/// The model of a [`MappingError`].
pub enum MappingErrorModel {
    MissingRC4,
    InvalidRC4(RC4KeyErrorModel),
}

impl DeepView for MappingError {
    type V = MappingErrorModel;

    open spec fn deep_view(&self) -> MappingErrorModel {
        match *self {
            MappingError::MissingRC4 => MappingErrorModel::MissingRC4,
            MappingError::InvalidRC4(e) => MappingErrorModel::InvalidRC4(e.deep_view()),
        }
    }
}

/// The key material that the search found, or the failure where it found
/// none.
pub fn extract_rc4(found: Option<String>) -> (r: Result<String, MappingError>)
    ensures
        match r {
            Ok(key) => found == Some(key),
            Err(e) => found is None && e is MissingRC4,
        },
{
    match found {
        Some(key) => Ok(key),
        None => Err(MappingError::MissingRC4),
    }
}

/// The name of a constant of the disassembly as it is compared with the
/// names of the kinds of packet: without `_` and in lower case.
pub open spec fn normalized(name: Seq<char>) -> Seq<char> {
    lowercase(name.filter(|c: char| c != '_'))
}

/// The names of all kinds in lower case, in the order of their tags.
pub open spec fn lower_names() -> Seq<Seq<char>> {
    Seq::new(NUM_TYPES as nat, |t: int| lowercase(all_types()[t].spec_name()))
}

/// The pairs that the first `n` constants give, and which kinds they use. A
/// constant gives a pair when its name is that of a kind which no earlier
/// constant has used.
pub open spec fn spec_packets(found: Seq<(Seq<char>, u8)>, n: nat) -> (
    Seq<(u8, PacketType)>,
    Seq<bool>,
)
    decreases n,
{
    if n == 0 {
        (Seq::empty(), Seq::new(NUM_TYPES as nat, |i: int| false))
    } else {
        let (pairs, used) = spec_packets(found, (n - 1) as nat);
        match spec_first_free(normalized(found[n - 1].0), lower_names(), used, 0) {
            Some(tag) => (
                pairs.push((found[n - 1].1, all_types()[tag as int])),
                used.update(tag as int, true),
            ),
            None => (pairs, used),
        }
    }
}

/// The names of constants with their values, as models.
pub open spec fn names_of(found: Seq<(String, u8)>) -> Seq<(Seq<char>, u8)> {
    Seq::new(found.len(), |i: int| (found[i].0@, found[i].1))
}

/// Pairs the constants that the search found, each a name and an identifier,
/// with the kinds of packet that have their names.
pub fn extract_packets(found: &Vec<(String, u8)>) -> (pairs: Vec<(u8, PacketType)>)
    ensures
        pairs@ == spec_packets(names_of(found@), found@.len()).0,
{
    let kinds = PacketType::get_all_types();
    let mut names: Vec<String> = Vec::new();
    let mut used: Vec<bool> = Vec::new();
    let mut t: usize = 0;
    while t < kinds.len()
        invariant
            t <= kinds@.len(),
            kinds@ == all_types(),
            names@.len() == t,
            used@ == Seq::new(t as nat, |i: int| false),
            forall|i: int| 0 <= i < t ==> (#[trigger] names@[i])@ == lowercase(
                all_types()[i].spec_name(),
            ),
        decreases kinds@.len() - t,
    {
        names.push(to_lowercase(kinds[t].get_name()));
        used.push(false);
        assert(used@ =~= Seq::new((t + 1) as nat, |i: int| false));
        t += 1;
    }
    assert(names.deep_view() =~= lower_names());
    let mut pairs: Vec<(u8, PacketType)> = Vec::new();
    let mut k: usize = 0;
    while k < found.len()
        invariant
            k <= found@.len(),
            names.deep_view() == lower_names(),
            names@.len() == NUM_TYPES,
            used@.len() == NUM_TYPES,
            kinds@ == all_types(),
            (pairs@, used@) == spec_packets(names_of(found@), k as nat),
        decreases found@.len() - k,
    {
        let stripped = remove_underscores(found[k].0.as_str());
        let key = to_lowercase(stripped.as_str());
        match first_free(key.as_str(), &names, &used) {
            Some(tag) => {
                pairs.push((found[k].1, kinds[tag]));
                used[tag] = true;
            },
            None => {},
        }
        k += 1;
    }
    pairs
}

/// Makes the table of a build from what the search of the disassembly found:
/// the key material, if any, and the constants. The key material is looked at
/// first.
pub fn extract_mappings(rc4: Option<String>, found: &Vec<(String, u8)>) -> (r: Result<
    Mappings,
    MappingError,
>)
    ensures
        match r {
            Ok(table) => rc4 is Some && spec_key_material(rc4->0@) == Ok::<
                Seq<u8>,
                RC4KeyErrorModel,
            >(table.key()) && table.tags() == built(
                spec_packets(names_of(found@), found@.len()).0,
                spec_packets(names_of(found@), found@.len()).0.len(),
            ),
            Err(e) => match rc4 {
                None => e is MissingRC4,
                Some(key) => e is InvalidRC4 && spec_key_material(key@) == Err::<
                    Seq<u8>,
                    RC4KeyErrorModel,
                >(e.deep_view()->InvalidRC4_0),
            },
        },
{
    let key = match extract_rc4(rc4) {
        Ok(key) => key,
        Err(e) => {
            return Err(e);
        },
    };
    let packets = extract_packets(found);
    match Mappings::new(packets, key.as_str()) {
        Ok(table) => Ok(table),
        Err(e) => Err(MappingError::InvalidRC4(e)),
    }
}

} // verus!
