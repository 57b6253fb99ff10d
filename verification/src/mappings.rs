//! The table of one build of the game: which identifier on the wire stands
//! for which kind of packet, and the key material of the two ciphers.

use bimap::BiHashMap;
use vstd::prelude::*;
use vstd::string::*;
use vstd::utf8::*;
use crate::packets::definitions::{PacketType, NUM_TYPES};
use crate::rc4::{keyed, Rc4};

verus! {

/// The two-way hash map of the `bimap` crate.
#[verifier::external_type_specification]
#[verifier::external_body]
#[verifier::reject_recursive_types(L)]
#[verifier::reject_recursive_types(R)]
#[verifier::reject_recursive_types(LS)]
#[verifier::reject_recursive_types(RS)]
pub struct ExBiHashMap<L, R, LS, RS>(BiHashMap<L, R, LS, RS>);

/// The pairs that a two-way map holds, as the map from each left value to its
/// right value.
pub uninterp spec fn bimap_pairs(map: BiHashMap<u8, u8>) -> Map<u8, u8>;

/// The pairs of a two-way map after `left` and `right` were inserted: the pair
/// that held `left` and the pair that held `right` are gone, and the new pair
/// is there.
pub open spec fn inserted(pairs: Map<u8, u8>, left: u8, right: u8) -> Map<u8, u8> {
    Map::new(
        |l: u8| l == left || (pairs.contains_key(l) && pairs[l] != right),
        |l: u8|
            if l == left {
                right
            } else {
                pairs[l]
            },
    )
}

/// The pairs of a two-way map that holds nothing.
pub open spec fn no_pairs() -> Map<u8, u8> {
    Map::empty()
}

/// Calls `BiHashMap::new` of `bimap`. Trusted: the new map holds no pair.
#[verifier::external_body]
fn bimap_new() -> (made: BiHashMap<u8, u8>)
    ensures
        bimap_pairs(made) == no_pairs(),
{
    BiHashMap::new()
}

/// Calls `BiHashMap::insert` of `bimap`. Trusted: the call removes the pair
/// with the same left value and the pair with the same right value, then adds
/// the new pair.
#[verifier::external_body]
fn bimap_insert(map: &mut BiHashMap<u8, u8>, left: u8, right: u8)
    ensures
        bimap_pairs(*final(map)) == inserted(bimap_pairs(*old(map)), left, right),
{
    map.insert(left, right);
}

/// Calls `BiHashMap::get_by_left` of `bimap`. Trusted: the call gives the
/// right value of the pair that holds `left`, if there is such a pair.
#[verifier::external_body]
fn bimap_get_by_left(map: &BiHashMap<u8, u8>, left: u8) -> (right: Option<u8>)
    ensures
        right == if bimap_pairs(*map).contains_key(left) {
            Some(bimap_pairs(*map)[left])
        } else {
            None
        },
{
    map.get_by_left(&left).copied()
}

/// Calls `BiHashMap::get_by_right` of `bimap`. Trusted: the call gives the
/// left value of a pair that holds `right`, if there is such a pair.
#[verifier::external_body]
fn bimap_get_by_right(map: &BiHashMap<u8, u8>, right: u8) -> (left: Option<u8>)
    ensures
        match left {
            Some(l) => bimap_pairs(*map).contains_key(l) && bimap_pairs(*map)[l] == right,
            None => forall|l: u8| bimap_pairs(*map).contains_key(l) ==> bimap_pairs(*map)[l] != right,
        },
{
    map.get_by_right(&right).copied()
}

/// Calls `BiHashMap::contains_right` of `bimap`. Trusted: the call says
/// whether a pair holds `right`.
#[verifier::external_body]
fn bimap_contains_right(map: &BiHashMap<u8, u8>, right: u8) -> (found: bool)
    ensures
        found == (exists|l: u8| bimap_pairs(*map).contains_key(l) && bimap_pairs(*map)[l] == right),
{
    map.contains_right(&right)
}

/// What is wrong with a text that should be hexadecimal digits.
#[derive(Debug, Clone, Copy, PartialEq, Eq, Structural)]
pub enum HexError {
    /// The byte `c` at `index` is not a hexadecimal digit.
    InvalidHexCharacter { c: char, index: usize },
    /// The text has an odd number of bytes.
    OddLength,
    /// The text does not fill the container it is decoded into.
    InvalidStringLength,
}

/// The value of a hexadecimal digit, in either case.
pub open spec fn hex_digit(c: u8) -> Option<u8> {
    if 0x41 <= c <= 0x46 {
        Some((c - 0x41 + 10) as u8)
    } else if 0x61 <= c <= 0x66 {
        Some((c - 0x61 + 10) as u8)
    } else if 0x30 <= c <= 0x39 {
        Some((c - 0x30) as u8)
    } else {
        None
    }
}

/// The index of the first byte from `from` on that is not a hexadecimal
/// digit, if there is one.
pub open spec fn first_bad_digit(text: Seq<u8>, from: int) -> Option<int>
    decreases text.len() - from,
{
    if from < 0 || from >= text.len() {
        None
    } else if hex_digit(text[from]) is None {
        Some(from)
    } else {
        first_bad_digit(text, from + 1)
    }
}

/// The bytes that a text of hexadecimal digits stands for, two digits to the
/// byte. A text of odd length is refused, and so is one with a byte that is no
/// digit; the error names the first such byte.
pub open spec fn spec_hex_decode(text: Seq<u8>) -> Result<Seq<u8>, HexError> {
    if text.len() % 2 != 0 {
        Err(HexError::OddLength)
    } else {
        match first_bad_digit(text, 0) {
            Some(index) => Err(
                HexError::InvalidHexCharacter { c: text[index] as char, index: index as usize },
            ),
            None => Ok(
                Seq::new(
                    text.len() / 2,
                    |i: int| (16 * hex_digit(text[2 * i])->0 + hex_digit(text[2 * i + 1])->0) as u8,
                ),
            ),
        }
    }
}

/// Calls `hex::decode` of `hex` on the bytes of `text`. Trusted: the result is
/// what [`spec_hex_decode`] says.
#[verifier::external_body]
fn hex_decode(text: &str) -> (r: Result<Vec<u8>, HexError>)
    ensures
        match r {
            Ok(bytes) => spec_hex_decode(encode_utf8(text@)) == Ok::<Seq<u8>, HexError>(bytes@),
            Err(e) => spec_hex_decode(encode_utf8(text@)) == Err::<Seq<u8>, HexError>(e),
        },
{
    match hex::decode(text) {
        Ok(bytes) => Ok(bytes),
        Err(hex::FromHexError::InvalidHexCharacter { c, index }) => Err(
            HexError::InvalidHexCharacter { c, index },
        ),
        Err(hex::FromHexError::OddLength) => Err(HexError::OddLength),
        Err(hex::FromHexError::InvalidStringLength) => Err(HexError::InvalidStringLength),
    }
}

/// The number of bytes of key material: two keys of 13 bytes.
pub const RC4_LEN: usize = 26;

/// Why a text is not usable as key material.
#[derive(Debug, Clone)]
pub enum RC4KeyError {
    /// The text, and why it is not hexadecimal.
    InvalidRC4Hex(String, HexError),
    /// The text, and the number of bytes it stands for, which is not 26.
    InvalidRC4Len(String, usize),
}

/// The model of an [`RC4KeyError`].
pub enum RC4KeyErrorModel {
    InvalidRC4Hex(Seq<char>, HexError),
    InvalidRC4Len(Seq<char>, usize),
}

impl DeepView for RC4KeyError {
    type V = RC4KeyErrorModel;

    open spec fn deep_view(&self) -> RC4KeyErrorModel {
        match *self {
            RC4KeyError::InvalidRC4Hex(text, e) => RC4KeyErrorModel::InvalidRC4Hex(text@, e),
            RC4KeyError::InvalidRC4Len(text, len) => RC4KeyErrorModel::InvalidRC4Len(text@, len),
        }
    }
}

/// The key material that `text` stands for.
pub open spec fn spec_key_material(text: Seq<char>) -> Result<Seq<u8>, RC4KeyErrorModel> {
    match spec_hex_decode(encode_utf8(text)) {
        Err(e) => Err(RC4KeyErrorModel::InvalidRC4Hex(text, e)),
        Ok(bytes) => if bytes.len() != RC4_LEN {
            Err(RC4KeyErrorModel::InvalidRC4Len(text, bytes.len() as usize))
        } else {
            Ok(bytes)
        },
    }
}

/// The pairs of a two-way map into which the first `n` of `pairs` were
/// inserted in order, each kind by its tag.
pub open spec fn built(pairs: Seq<(u8, PacketType)>, n: nat) -> Map<u8, u8>
    decreases n,
{
    if n == 0 {
        Map::empty()
    } else {
        inserted(built(pairs, (n - 1) as nat), pairs[n - 1].0, pairs[n - 1].1.spec_to_byte())
    }
}

/// No two identifiers stand for the same tag, and every tag is that of a
/// kind.
pub open spec fn well_formed(tags: Map<u8, u8>) -> bool {
    &&& forall|a: u8, b: u8|
        tags.contains_key(a) && tags.contains_key(b) && tags[a] == tags[b] ==> a == b
    &&& forall|a: u8| tags.contains_key(a) ==> #[trigger] tags[a] < NUM_TYPES
}

/// Inserting a pair whose tag is that of a kind keeps a table well formed.
pub proof fn lemma_inserted_well_formed(tags: Map<u8, u8>, left: u8, right: u8)
    requires
        well_formed(tags),
        right < NUM_TYPES,
    ensures
        well_formed(inserted(tags, left, right)),
{
}

/// A table that was built pair by pair is well formed.
pub proof fn lemma_built_well_formed(pairs: Seq<(u8, PacketType)>, n: nat)
    ensures
        well_formed(built(pairs, n)),
    decreases n,
{
    if n > 0 {
        lemma_built_well_formed(pairs, (n - 1) as nat);
        PacketType::lemma_from_byte_to_byte(pairs[n - 1].1);
        lemma_inserted_well_formed(
            built(pairs, (n - 1) as nat),
            pairs[n - 1].0,
            pairs[n - 1].1.spec_to_byte(),
        );
    }
}

/// The table of one build of the game.
#[derive(Debug)]
pub struct Mappings {
    mappings: BiHashMap<u8, u8>,
    binary_rc4: [u8; 26],
}

impl Mappings {
    #[verifier::type_invariant]
    spec fn inv(self) -> bool {
        well_formed(bimap_pairs(self.mappings))
    }

    /// The tag of a kind for each identifier on the wire that the table
    /// knows.
    pub closed spec fn tags(&self) -> Map<u8, u8> {
        bimap_pairs(self.mappings)
    }

    /// The key material: 26 bytes.
    pub closed spec fn key(&self) -> Seq<u8> {
        self.binary_rc4@
    }

    /// The two-way map that the table keeps.
    pub closed spec fn pairs(&self) -> BiHashMap<u8, u8> {
        self.mappings
    }

    /// The kind that the identifier `id` stands for, if the table knows the
    /// identifier.
    pub open spec fn spec_to_internal(&self, id: u8) -> Option<PacketType> {
        if self.tags().contains_key(id) {
            PacketType::spec_from_byte(self.tags()[id])
        } else {
            None
        }
    }

    /// The identifier that stands for `kind`, if there is one.
    pub open spec fn spec_to_game(&self, kind: PacketType) -> Option<u8> {
        if self.is_mapped(kind) {
            Some(
                choose|id: u8|
                    self.tags().contains_key(id) && self.tags()[id] == kind.spec_to_byte(),
            )
        } else {
            None
        }
    }

    /// The identifier that stands for a kind stands for that kind.
    pub proof fn lemma_to_game(&self, kind: PacketType)
        requires
            self.spec_to_game(kind) is Some,
        ensures
            self.spec_to_internal(self.spec_to_game(kind)->0) == Some(kind),
    {
        PacketType::lemma_from_byte_to_byte(kind);
    }

    /// Whether some identifier stands for `kind`.
    pub open spec fn is_mapped(&self, kind: PacketType) -> bool {
        exists|id: u8| self.tags().contains_key(id) && self.tags()[id] == kind.spec_to_byte()
    }

    /// Makes a table from pairs of an identifier and a kind, inserted in
    /// order, and from key material written as 52 hexadecimal digits.
    pub fn new(mappings: Vec<(u8, PacketType)>, hex_rc4: &str) -> (r: Result<Self, RC4KeyError>)
        ensures
            match r {
                Ok(table) => spec_key_material(hex_rc4@) == Ok::<Seq<u8>, RC4KeyErrorModel>(
                    table.key(),
                ) && table.tags() == built(mappings@, mappings@.len()),
                Err(e) => spec_key_material(hex_rc4@) == Err::<Seq<u8>, RC4KeyErrorModel>(
                    e.deep_view(),
                ),
            },
    {
        let bytes = match hex_decode(hex_rc4) {
            Err(e) => {
                return Err(RC4KeyError::InvalidRC4Hex(hex_rc4.to_owned(), e));
            },
            Ok(bytes) => bytes,
        };
        if bytes.len() != RC4_LEN {
            return Err(RC4KeyError::InvalidRC4Len(hex_rc4.to_owned(), bytes.len()));
        }
        let mut binary_rc4: [u8; 26] = [0u8; 26];
        let mut k: usize = 0;
        while k < RC4_LEN
            invariant
                k <= RC4_LEN,
                bytes@.len() == RC4_LEN,
                forall|i: int| 0 <= i < k ==> binary_rc4@[i] == bytes@[i],
            decreases RC4_LEN - k,
        {
            binary_rc4[k] = bytes[k];
            k += 1;
        }
        assert(binary_rc4@ =~= bytes@);
        let mut table = bimap_new();
        let mut n: usize = 0;
        while n < mappings.len()
            invariant
                n <= mappings@.len(),
                bimap_pairs(table) == built(mappings@, n as nat),
            decreases mappings@.len() - n,
        {
            let (id, kind) = mappings[n];
            bimap_insert(&mut table, id, kind.to_byte());
            n += 1;
        }
        proof {
            lemma_built_well_formed(mappings@, mappings@.len());
        }
        Ok(Mappings { mappings: table, binary_rc4 })
    }

    /// The two-way map from identifiers to the tags of kinds. It is well
    /// formed: see [`well_formed`].
    pub fn get_map(&self) -> (map: &BiHashMap<u8, u8>)
        ensures
            *map == self.pairs(),
            bimap_pairs(*map) == self.tags(),
            well_formed(self.tags()),
    {
        proof {
            use_type_invariant(self);
        }
        &self.mappings
    }

    /// The kinds that no identifier stands for, in the order of their tags.
    pub fn find_unmapped(&self) -> (unmapped: Vec<PacketType>)
        ensures
            forall|kind: PacketType| unmapped@.contains(kind) <==> !self.is_mapped(kind),
            forall|i: int, j: int|
                0 <= i < j < unmapped@.len() ==> unmapped@[i].spec_to_byte()
                    < unmapped@[j].spec_to_byte(),
    {
        let mut unmapped: Vec<PacketType> = Vec::new();
        let mut tag: u8 = 0;
        while (tag as usize) < NUM_TYPES
            invariant
                tag <= NUM_TYPES,
                forall|i: int| 0 <= i < unmapped@.len() ==> (#[trigger] unmapped@[i]).spec_to_byte() < tag,
                forall|i: int, j: int|
                    0 <= i < j < unmapped@.len() ==> unmapped@[i].spec_to_byte()
                        < unmapped@[j].spec_to_byte(),
                forall|kind: PacketType|
                    unmapped@.contains(kind) <==> (kind.spec_to_byte() < tag && !self.is_mapped(
                        kind,
                    )),
            decreases NUM_TYPES - tag,
        {
            let ghost before = unmapped@;
            match PacketType::from_byte(tag) {
                Some(kind) => {
                    let found = bimap_contains_right(&self.mappings, tag);
                    if !found {
                        unmapped.push(kind);
                    }
                    proof {
                        if found {
                            let l = choose|l: u8|
                                bimap_pairs(self.mappings).contains_key(l) && bimap_pairs(
                                    self.mappings,
                                )[l] == tag;
                            assert(self.tags().contains_key(l) && self.tags()[l]
                                == kind.spec_to_byte());
                        }
                        if self.is_mapped(kind) {
                            let id = choose|id: u8|
                                self.tags().contains_key(id) && self.tags()[id]
                                    == kind.spec_to_byte();
                            assert(bimap_pairs(self.mappings).contains_key(id) && bimap_pairs(
                                self.mappings,
                            )[id] == tag);
                        }
                        assert(found == self.is_mapped(kind));
                        assert forall|other: PacketType|
                            unmapped@.contains(other) <==> (other.spec_to_byte() < tag + 1
                                && !self.is_mapped(other)) by {
                            PacketType::lemma_from_byte_to_byte(other);
                            if before.contains(other) {
                                let i = choose|i: int| 0 <= i < before.len() && before[i] == other;
                                assert(unmapped@[i] == other);
                            }
                            if !found && other == kind {
                                assert(unmapped@[before.len() as int] == kind);
                            }
                            if unmapped@.contains(other) {
                                let i = choose|i: int|
                                    0 <= i < unmapped@.len() && unmapped@[i] == other;
                                if i < before.len() {
                                    assert(before[i] == other);
                                }
                            }
                        }
                    }
                },
                None => {},
            }
            tag += 1;
        }
        proof {
            assert forall|kind: PacketType| unmapped@.contains(kind) <==> !self.is_mapped(kind) by {
                PacketType::lemma_from_byte_to_byte(kind);
            }
        }
        unmapped
    }

    /// The kind that the identifier `id` stands for, if the table knows the
    /// identifier.
    pub fn to_internal(&self, id: u8) -> (kind: Option<PacketType>)
        ensures
            kind == self.spec_to_internal(id),
            self.tags().contains_key(id) <==> kind is Some,
    {
        proof {
            use_type_invariant(self);
        }
        match bimap_get_by_left(&self.mappings, id) {
            Some(tag) => {
                proof {
                    PacketType::lemma_to_byte_from_byte(tag);
                }
                PacketType::from_byte(tag)
            },
            None => None,
        }
    }

    /// The identifier that stands for `packet_type`, if there is one. No
    /// other identifier stands for the same kind.
    pub fn to_game(&self, packet_type: PacketType) -> (id: Option<u8>)
        ensures
            id == self.spec_to_game(packet_type),
            match id {
                Some(id) => self.spec_to_internal(id) == Some(packet_type) && forall|other: u8|
                    self.spec_to_internal(other) == Some(packet_type) ==> other == id,
                None => !self.is_mapped(packet_type),
            },
    {
        proof {
            use_type_invariant(self);
            PacketType::lemma_from_byte_to_byte(packet_type);
            assert forall|other: u8|
                self.spec_to_internal(other) == Some(packet_type) implies self.tags()[other]
                == packet_type.spec_to_byte() by {
                PacketType::lemma_to_byte_from_byte(self.tags()[other]);
            }
        }
        bimap_get_by_right(&self.mappings, packet_type.to_byte())
    }

    /// The key material.
    pub fn rc4(&self) -> (key: &[u8; 26])
        ensures
            key@ == self.key(),
    {
        &self.binary_rc4
    }

    /// The two ciphers, the first keyed with the first 13 bytes of the key
    /// material and the second with the last 13.
    pub fn get_ciphers(&self) -> (ciphers: (Rc4, Rc4))
        ensures
            ciphers.0@ == keyed(self.key().take(13)),
            ciphers.1@ == keyed(self.key().skip(13)),
    {
        let mut key0: Vec<u8> = Vec::new();
        let mut key1: Vec<u8> = Vec::new();
        let mut k: usize = 0;
        while k < 13
            invariant
                k <= 13,
                key0@ == self.binary_rc4@.take(k as int),
                key1@ == self.binary_rc4@.subrange(13, 13 + k),
            decreases 13 - k,
        {
            key0.push(self.binary_rc4[k]);
            key1.push(self.binary_rc4[13 + k]);
            assert(self.binary_rc4@.take(k + 1) =~= self.binary_rc4@.take(k as int).push(
                self.binary_rc4@[k as int],
            ));
            assert(self.binary_rc4@.subrange(13, 13 + k + 1) =~= self.binary_rc4@.subrange(
                13,
                13 + k,
            ).push(self.binary_rc4@[13 + k]));
            k += 1;
        }
        assert(self.binary_rc4@.subrange(13, 26) =~= self.binary_rc4@.skip(13));
        (Rc4::new(key0.as_slice()), Rc4::new(key1.as_slice()))
    }
}

} // verus!
