//! A packet as it is framed on the wire: four bytes of length, one byte of
//! identifier and the decrypted contents, not yet decoded into a value.

use bytes::Bytes;
use vstd::prelude::*;
use crate::adapter::primitives::be_bytes;
use crate::adapter::Error as AdapterError;
use crate::cursor::Cursor;
use crate::mappings::Mappings;
use crate::packets::definitions::{
    lemma_packet_round_trip, packet_round_trips, spec_packet_get, spec_packet_put, Packet,
    PacketModel, PacketType,
};

verus! {

/// The immutable byte buffer of the `bytes` crate.
#[verifier::external_type_specification]
#[verifier::external_body]
pub struct ExBytes(Bytes);

/// The bytes that a buffer holds.
pub uninterp spec fn bytes_contents(buffer: Bytes) -> Seq<u8>;

/// Borrows the bytes of a buffer through `AsRef<[u8]>` of `bytes`. Trusted:
/// the slice holds the bytes of the buffer.
#[verifier::external_body]
pub(crate) fn bytes_as_slice(buffer: &Bytes) -> (slice: &[u8])
    ensures
        slice@ == bytes_contents(*buffer),
{
    buffer.as_ref()
}

/// Makes a buffer from a vector through `From<Vec<u8>>` of `bytes`. Trusted:
/// the buffer holds the bytes of the vector.
#[verifier::external_body]
pub(crate) fn bytes_from_vec(data: Vec<u8>) -> (buffer: Bytes)
    ensures
        bytes_contents(buffer) == data@,
{
    Bytes::from(data)
}

/// The number of bytes in front of the contents of a packet.
pub const HEADER_LEN: usize = 5;

/// Why a framed packet and a packet value could not be converted into each
/// other. `T` is what names the kind on the side that was given: the
/// identifier on the wire, or the kind itself.
#[derive(Debug)]
pub enum Error<T> {
    /// The contents could not be decoded or encoded.
    AdapterError(AdapterError),
    /// The table has no pair for the kind of the packet.
    UnmappedPacketType(T),
}

/// A framed packet.
#[derive(Debug)]
pub struct RawPacket {
    bytes: Bytes,
}

impl View for RawPacket {
    type V = Seq<u8>;

    closed spec fn view(&self) -> Seq<u8> {
        bytes_contents(self.bytes)
    }
}

/// The frame of a packet with identifier `id` and contents `contents`: the
/// total length in four bytes, most significant first, the identifier, the
/// contents. A length that does not fit four bytes is cut to its low 32 bits.
pub open spec fn spec_frame(id: u8, contents: Seq<u8>) -> Seq<u8> {
    be_bytes(((HEADER_LEN + contents.len()) % 0x1_0000_0000) as nat, 4) + seq![id] + contents
}

/// What making a frame from a packet does.
pub open spec fn spec_from_packet(packet: PacketModel, mappings: &Mappings) -> Result<
    Seq<u8>,
    Error<PacketType>,
> {
    match mappings.spec_to_game(packet.kind()) {
        None => Err(Error::UnmappedPacketType(packet.kind())),
        Some(id) => match spec_packet_put(packet).result {
            Err(e) => Err(Error::AdapterError(e)),
            Ok(_) => Ok(spec_frame(id, spec_packet_put(packet).bytes)),
        },
    }
}

/// What decoding the packet in a frame does.
pub open spec fn spec_to_packet(frame: Seq<u8>, mappings: &Mappings) -> Result<
    PacketModel,
    Error<u8>,
> {
    match mappings.spec_to_internal(frame[4]) {
        None => Err(Error::UnmappedPacketType(frame[4])),
        Some(kind) => match spec_packet_get(kind, frame.skip(HEADER_LEN as int)).result {
            Err(e) => Err(Error::AdapterError(e)),
            Ok(packet) => Ok(packet),
        },
    }
}

/// A packet that was framed under a table is decoded from the frame, under
/// the same table, to the same packet.
pub proof fn lemma_raw_round_trip(packet: PacketModel, mappings: &Mappings)
    requires
        spec_from_packet(packet, mappings) is Ok,
        packet_round_trips(packet),
    ensures
        spec_to_packet(spec_from_packet(packet, mappings)->Ok_0, mappings) == Ok::<
            PacketModel,
            Error<u8>,
        >(packet),
{
    let id = mappings.spec_to_game(packet.kind())->0;
    let contents = spec_packet_put(packet).bytes;
    let frame = spec_frame(id, contents);
    crate::adapter::primitives::lemma_be_bytes_len(
        ((HEADER_LEN + contents.len()) % 0x1_0000_0000) as nat,
        4,
    );
    assert(frame[4] == id);
    assert(frame.skip(HEADER_LEN as int) =~= contents);
    mappings.lemma_to_game(packet.kind());
    lemma_packet_round_trip(packet);
}

impl RawPacket {
    #[verifier::type_invariant]
    spec fn inv(self) -> bool {
        bytes_contents(self.bytes).len() >= HEADER_LEN
    }

    /// Takes `bytes` as a frame.
    pub fn new(bytes: Bytes) -> (raw: RawPacket)
        requires
            bytes_contents(bytes).len() >= HEADER_LEN,
        ensures
            raw@ == bytes_contents(bytes),
    {
        RawPacket { bytes }
    }

    /// Takes `bytes` as a frame if they are long enough for one.
    pub fn from_bytes(bytes: Bytes) -> (raw: Option<RawPacket>)
        ensures
            match raw {
                Some(raw) => raw@ == bytes_contents(bytes),
                None => bytes_contents(bytes).len() < HEADER_LEN,
            },
    {
        if bytes_as_slice(&bytes).len() >= HEADER_LEN {
            Some(RawPacket { bytes })
        } else {
            None
        }
    }

    /// Gives the bytes of the frame.
    pub fn into_bytes(self) -> (bytes: Bytes)
        ensures
            bytes_contents(bytes) == self@,
            self@.len() >= HEADER_LEN,
    {
        proof {
            use_type_invariant(&self);
        }
        self.bytes
    }

    /// The number of bytes of the frame, which is at least 5.
    pub fn total_len(&self) -> (len: usize)
        ensures
            len == self@.len(),
            len >= HEADER_LEN,
    {
        proof {
            use_type_invariant(self);
        }
        bytes_as_slice(&self.bytes).len()
    }

    /// The number of bytes of the contents.
    pub fn content_len(&self) -> (len: usize)
        ensures
            len == self@.len() - HEADER_LEN,
    {
        self.total_len() - HEADER_LEN
    }

    /// The identifier that the game gave the packet.
    pub fn packet_id(&self) -> (id: u8)
        ensures
            id == self@[4],
    {
        proof {
            use_type_invariant(self);
        }
        bytes_as_slice(&self.bytes)[4]
    }

    /// The kind of the packet, if the table knows its identifier.
    pub fn packet_type(&self, mappings: &Mappings) -> (kind: Option<PacketType>)
        ensures
            kind == mappings.spec_to_internal(self@[4]),
    {
        mappings.to_internal(self.packet_id())
    }

    /// The decrypted contents.
    pub fn raw_contents(&self) -> (contents: &[u8])
        ensures
            contents@ == self@.skip(HEADER_LEN as int),
    {
        proof {
            use_type_invariant(self);
        }
        let all = bytes_as_slice(&self.bytes);
        vstd::slice::slice_subrange(all, HEADER_LEN, all.len())
    }

    /// Decodes the packet in the frame. Bytes that follow the packet in the
    /// contents are not looked at.
    pub fn to_packet(&self, mappings: &Mappings) -> (r: Result<Packet, Error<u8>>)
        ensures
            match r {
                Ok(packet) => spec_to_packet(self@, mappings) == Ok::<PacketModel, Error<u8>>(
                    packet.deep_view(),
                ),
                Err(e) => spec_to_packet(self@, mappings) == Err::<PacketModel, Error<u8>>(e),
            },
    {
        match self.packet_type(mappings) {
            Some(typ) => {
                let mut cursor = Cursor::new(self.raw_contents());
                match Packet::from_bytes(typ, &mut cursor) {
                    Ok(packet) => Ok(packet),
                    Err(e) => Err(Error::AdapterError(e)),
                }
            },
            None => Err(Error::UnmappedPacketType(self.packet_id())),
        }
    }

    /// Frames `packet` with the identifier that the table has for its kind.
    pub fn from_packet(packet: &Packet, mappings: &Mappings) -> (r: Result<
        RawPacket,
        Error<PacketType>,
    >)
        ensures
            match r {
                Ok(raw) => spec_from_packet(packet.deep_view(), mappings) == Ok::<
                    Seq<u8>,
                    Error<PacketType>,
                >(raw@),
                Err(e) => spec_from_packet(packet.deep_view(), mappings) == Err::<
                    Seq<u8>,
                    Error<PacketType>,
                >(e),
            },
    {
        match mappings.to_game(packet.get_type()) {
            Some(id) => {
                let mut contents: Vec<u8> = Vec::new();
                match packet.to_bytes(&mut contents) {
                    Ok(()) => {},
                    Err(e) => {
                        return Err(Error::AdapterError(e));
                    },
                }
                assert(contents@ =~= spec_packet_put(packet.deep_view()).bytes);
                let total: u64 = ((contents.len() as u128 + HEADER_LEN as u128) % 0x1_0000_0000) as u64;
                let mut buf: Vec<u8> = Vec::new();
                crate::adapter::primitives::put_uint(&mut buf, total as u128, 4);
                buf.push(id);
                buf.extend_from_slice(contents.as_slice());
                proof {
                    crate::adapter::primitives::lemma_be_bytes_len(total as nat, 4);
                    assert(buf@ =~= spec_frame(id, contents@));
                }
                Ok(RawPacket::new(bytes_from_vec(buf)))
            },
            None => Err(Error::UnmappedPacketType(packet.get_type())),
        }
    }
}

} // verus!
