//! Framing and encryption of packets on a stream of bytes.

use bytes::BytesMut;
use vstd::prelude::*;
use crate::adapter::primitives::{be_bytes, be_value};
use crate::connection::raw_packet::{
    lemma_raw_round_trip, spec_frame, spec_from_packet, spec_to_packet, Error, RawPacket,
    HEADER_LEN,
};
use crate::mappings::Mappings;
use crate::packets::definitions::{packet_round_trips, spec_packet_put, PacketModel};
use crate::rc4::{advance, crypt, keyed, lemma_crypt_involution, lemma_crypt_len, Rc4, Rc4State};

verus! {

/// The growable byte buffer of the `bytes` crate.
#[verifier::external_type_specification]
#[verifier::external_body]
pub struct ExBytesMut(BytesMut);

/// The bytes that a growable buffer holds.
pub uninterp spec fn bytes_mut_contents(buffer: BytesMut) -> Seq<u8>;

/// Borrows the bytes of a growable buffer through `AsRef<[u8]>` of `bytes`.
/// Trusted: the slice holds the bytes of the buffer.
#[verifier::external_body]
fn bytes_mut_as_slice(buffer: &BytesMut) -> (slice: &[u8])
    ensures
        slice@ == bytes_mut_contents(*buffer),
{
    buffer.as_ref()
}

/// Calls `BytesMut::split_to` of `bytes`. Trusted: the call takes the first
/// `at` bytes out of the buffer and gives them back as a buffer of their own.
/// It panics where `at` is beyond the end, which the precondition excludes.
#[verifier::external_body]
fn bytes_mut_split_to(buffer: &mut BytesMut, at: usize) -> (head: BytesMut)
    requires
        at <= bytes_mut_contents(*old(buffer)).len(),
    ensures
        bytes_mut_contents(head) == bytes_mut_contents(*old(buffer)).take(at as int),
        bytes_mut_contents(*final(buffer)) == bytes_mut_contents(*old(buffer)).skip(at as int),
{
    buffer.split_to(at)
}

/// Calls `BytesMut::extend_from_slice` of `bytes`. Trusted: the call appends
/// `data` to the buffer, which grows as needed.
#[verifier::external_body]
fn bytes_mut_extend_from_slice(buffer: &mut BytesMut, data: &[u8])
    ensures
        bytes_mut_contents(*final(buffer)) == bytes_mut_contents(*old(buffer)) + data@,
{
    buffer.extend_from_slice(data)
}

/// The two ciphers of a table, the first keyed with the first half of the key
/// material and the second with the second half.
pub fn get_ciphers(mappings: &Mappings) -> (ciphers: (Rc4, Rc4))
    ensures
        ciphers.0@ == keyed(mappings.key().take(13)),
        ciphers.1@ == keyed(mappings.key().skip(13)),
{
    mappings.get_ciphers()
}

/// Why a frame could not be read.
#[derive(Debug, Clone, Copy, PartialEq, Eq, Structural)]
pub enum CodecError {
    /// The length in the header is below 5, the length of the header itself.
    InvalidSize(usize),
}

/// What reading one frame from received bytes does.
pub enum Decoded {
    /// The bytes do not hold a whole frame yet.
    NeedMore,
    /// The length in the header is not that of a frame.
    InvalidSize(usize),
    /// The frame with its contents decrypted, the bytes that follow it, and
    /// the state in which the cipher is left.
    Frame { frame: Seq<u8>, rest: Seq<u8>, state: Rc4State },
}

/// A frame with everything behind its header encrypted, or decrypted: the
/// two are the same operation.
pub open spec fn spec_seal(state: Rc4State, frame: Seq<u8>) -> Seq<u8> {
    frame.take(HEADER_LEN as int) + crypt(state, frame.skip(HEADER_LEN as int))
}

/// What reading one frame from the received bytes `buffer` does, with the
/// receiving cipher in state `state`.
pub open spec fn spec_decode(state: Rc4State, buffer: Seq<u8>) -> Decoded {
    if buffer.len() < 4 {
        Decoded::NeedMore
    } else if be_value(buffer, 4) < HEADER_LEN {
        Decoded::InvalidSize(be_value(buffer, 4) as usize)
    } else if buffer.len() < be_value(buffer, 4) {
        Decoded::NeedMore
    } else {
        Decoded::Frame {
            frame: spec_seal(state, buffer.take(be_value(buffer, 4) as int)),
            rest: buffer.skip(be_value(buffer, 4) as int),
            state: advance(state, (be_value(buffer, 4) - HEADER_LEN) as nat),
        }
    }
}

/// Whether `frame` is a frame as this library makes them: at least a header,
/// and the length in the header is the length of the frame.
pub open spec fn valid_frame(frame: Seq<u8>) -> bool {
    &&& frame.len() >= HEADER_LEN
    &&& be_value(frame, 4) == frame.len()
}

/// A frame that was sealed in some state of the cipher and is followed by
/// `more` is read back, in the same state, as the frame itself; exactly the
/// bytes of the frame are taken, and the cipher is left where the sender's is.
pub proof fn lemma_decode_sealed(state: Rc4State, frame: Seq<u8>, more: Seq<u8>)
    requires
        valid_frame(frame),
    ensures
        spec_decode(state, spec_seal(state, frame) + more) == (Decoded::Frame {
            frame,
            rest: more,
            state: advance(state, (frame.len() - HEADER_LEN) as nat),
        }),
{
    let sealed = spec_seal(state, frame);
    let buffer = sealed + more;
    lemma_crypt_len(state, frame.skip(HEADER_LEN as int));
    crate::adapter::primitives::lemma_be_value_prefix(buffer, frame, 4);
    assert(buffer.take(frame.len() as int) =~= sealed);
    assert(buffer.skip(frame.len() as int) =~= more);
    assert(sealed.take(HEADER_LEN as int) =~= frame.take(HEADER_LEN as int));
    assert(sealed.skip(HEADER_LEN as int) =~= crypt(state, frame.skip(HEADER_LEN as int)));
    lemma_crypt_involution(state, frame.skip(HEADER_LEN as int));
    assert(frame.take(HEADER_LEN as int) + frame.skip(HEADER_LEN as int) =~= frame);
}

/// The bytes on the wire of `frames` sent one after the other, with the
/// sending cipher starting in state `state`.
pub open spec fn spec_send_all(state: Rc4State, frames: Seq<Seq<u8>>) -> Seq<u8>
    decreases frames.len(),
{
    if frames.len() == 0 {
        Seq::empty()
    } else {
        spec_seal(state, frames[0]) + spec_send_all(
            advance(state, (frames[0].len() - HEADER_LEN) as nat),
            frames.drop_first(),
        )
    }
}

/// The first `n` frames read from `buffer`, with the receiving cipher
/// starting in state `state`, if that many whole frames are there.
pub open spec fn spec_receive_all(state: Rc4State, buffer: Seq<u8>, n: nat) -> Option<Seq<Seq<u8>>>
    decreases n,
{
    if n == 0 {
        Some(Seq::empty())
    } else {
        match spec_decode(state, buffer) {
            Decoded::Frame { frame, rest, state: next } => {
                match spec_receive_all(next, rest, (n - 1) as nat) {
                    Some(frames) => Some(seq![frame] + frames),
                    None => None,
                }
            },
            _ => None,
        }
    }
}

/// Frames that are sent through a cipher arrive, through a cipher that
/// started in the same state, as the same frames in the same order.
pub proof fn lemma_stream_round_trip(state: Rc4State, frames: Seq<Seq<u8>>)
    requires
        forall|i: int| 0 <= i < frames.len() ==> valid_frame(#[trigger] frames[i]),
    ensures
        spec_receive_all(state, spec_send_all(state, frames), frames.len()) == Some(frames),
    decreases frames.len(),
{
    if frames.len() > 0 {
        let next = advance(state, (frames[0].len() - HEADER_LEN) as nat);
        let tail = frames.drop_first();
        assert forall|i: int| 0 <= i < tail.len() implies valid_frame(#[trigger] tail[i]) by {
            assert(tail[i] == frames[i + 1]);
        }
        lemma_decode_sealed(state, frames[0], spec_send_all(next, tail));
        lemma_stream_round_trip(next, tail);
        assert(seq![frames[0]] + tail =~= frames);
    }
}

/// The frame of a packet is a frame as this library makes them, as long as
/// its length fits the four bytes of the header.
pub proof fn lemma_frame_valid(id: u8, contents: Seq<u8>)
    requires
        HEADER_LEN + contents.len() < 0x1_0000_0000,
    ensures
        valid_frame(spec_frame(id, contents)),
        spec_frame(id, contents).len() == HEADER_LEN + contents.len(),
{
    let total = (HEADER_LEN + contents.len()) as nat;
    let frame = spec_frame(id, contents);
    reveal_with_fuel(crate::cursor::pow256, 5);
    crate::adapter::primitives::lemma_be_bytes_len(total, 4);
    crate::adapter::primitives::lemma_be_value_of_bytes(total, 4);
    crate::adapter::primitives::lemma_be_value_prefix(frame, be_bytes(total, 4), 4);
}

/// The frames of `packets` under a table, in order.
pub open spec fn spec_frames(packets: Seq<PacketModel>, mappings: &Mappings) -> Seq<Seq<u8>> {
    Seq::new(packets.len(), |i: int| spec_from_packet(packets[i], mappings)->Ok_0)
}

/// Packets that one end frames and sends arrive at the other end, whose
/// receiving cipher started in the state of the sender's sending cipher, as
/// the same packets in the same order.
pub proof fn lemma_packets_arrive(state: Rc4State, packets: Seq<PacketModel>, mappings: &Mappings)
    requires
        forall|i: int|
            0 <= i < packets.len() ==> {
                &&& spec_from_packet(#[trigger] packets[i], mappings) is Ok
                &&& packet_round_trips(packets[i])
                &&& HEADER_LEN + spec_packet_put(packets[i]).bytes.len() < 0x1_0000_0000
            },
    ensures
        spec_receive_all(
            state,
            spec_send_all(state, spec_frames(packets, mappings)),
            packets.len(),
        ) == Some(spec_frames(packets, mappings)),
        forall|i: int|
            0 <= i < packets.len() ==> spec_to_packet(
                #[trigger] spec_frames(packets, mappings)[i],
                mappings,
            ) == Ok::<PacketModel, Error<u8>>(packets[i]),
{
    let frames = spec_frames(packets, mappings);
    assert forall|i: int| 0 <= i < frames.len() implies valid_frame(#[trigger] frames[i]) by {
        let id = mappings.spec_to_game(packets[i].kind())->0;
        lemma_frame_valid(id, spec_packet_put(packets[i]).bytes);
    }
    lemma_stream_round_trip(state, frames);
    assert forall|i: int| 0 <= i < packets.len() implies spec_to_packet(
        #[trigger] frames[i],
        mappings,
    ) == Ok::<PacketModel, Error<u8>>(packets[i]) by {
        lemma_raw_round_trip(packets[i], mappings);
    }
}

/// The two ciphers of one end of a connection.
#[derive(Clone)]
pub struct Codec {
    recv_rc4: Rc4,
    send_rc4: Rc4,
}

impl Codec {
    /// The state of the cipher that decrypts what is received.
    pub closed spec fn recv_state(&self) -> Rc4State {
        self.recv_rc4@
    }

    /// The state of the cipher that encrypts what is sent.
    pub closed spec fn send_state(&self) -> Rc4State {
        self.send_rc4@
    }

    /// The ciphers of the end that acts as the server: it receives under the
    /// first half of the key material and sends under the second.
    pub fn new_as_server(mappings: &Mappings) -> (codec: Self)
        ensures
            codec.recv_state() == keyed(mappings.key().take(13)),
            codec.send_state() == keyed(mappings.key().skip(13)),
    {
        let (recv_rc4, send_rc4) = get_ciphers(mappings);
        Codec { recv_rc4, send_rc4 }
    }

    /// The ciphers of the end that acts as the client: it sends under the
    /// first half of the key material and receives under the second.
    pub fn new_as_client(mappings: &Mappings) -> (codec: Self)
        ensures
            codec.send_state() == keyed(mappings.key().take(13)),
            codec.recv_state() == keyed(mappings.key().skip(13)),
    {
        let (send_rc4, recv_rc4) = get_ciphers(mappings);
        Codec { recv_rc4, send_rc4 }
    }

    /// Reads one frame from the received bytes `src`, if a whole frame is
    /// there, takes it out of `src` and decrypts its contents.
    pub fn decode(&mut self, src: &mut BytesMut) -> (r: Result<Option<RawPacket>, CodecError>)
        ensures
            final(self).send_state() == old(self).send_state(),
            match spec_decode(old(self).recv_state(), bytes_mut_contents(*old(src))) {
                Decoded::NeedMore => r == Ok::<Option<RawPacket>, CodecError>(None)
                    && bytes_mut_contents(*final(src)) == bytes_mut_contents(*old(src))
                    && final(self).recv_state() == old(self).recv_state(),
                Decoded::InvalidSize(size) => r == Err::<Option<RawPacket>, CodecError>(
                    CodecError::InvalidSize(size),
                ) && bytes_mut_contents(*final(src)) == bytes_mut_contents(*old(src))
                    && final(self).recv_state() == old(self).recv_state(),
                Decoded::Frame { frame, rest, state } => r is Ok && r->Ok_0 is Some
                    && r->Ok_0->0@ == frame && bytes_mut_contents(*final(src)) == rest
                    && final(self).recv_state() == state,
            },
    {
        let received = bytes_mut_as_slice(src);
        if received.len() < 4 {
            return Ok(None);
        }
        let mut size: usize = 0;
        let mut k: usize = 0;
        while k < 4
            invariant
                k <= 4,
                received@.len() >= 4,
                size == be_value(received@, k as nat),
                size < crate::cursor::pow256(k as nat),
            decreases 4 - k,
        {
            proof {
                reveal_with_fuel(crate::cursor::pow256, 5);
            }
            size = 256 * size + received[k] as usize;
            k += 1;
        }
        if size < HEADER_LEN {
            return Err(CodecError::InvalidSize(size));
        }
        if received.len() < size {
            return Ok(None);
        }
        let head = bytes_mut_split_to(src, size);
        let mut data = vstd::slice::slice_to_vec(bytes_mut_as_slice(&head));
        self.recv_rc4.process_from(data.as_mut_slice(), HEADER_LEN);
        Ok(Some(RawPacket::new(crate::connection::raw_packet::bytes_from_vec(data))))
    }

    /// Encrypts the contents of `item` and appends the frame to `dst`.
    pub fn encode(&mut self, item: RawPacket, dst: &mut BytesMut) -> (r: Result<(), CodecError>)
        ensures
            r is Ok,
            bytes_mut_contents(*final(dst)) == bytes_mut_contents(*old(dst)) + spec_seal(
                old(self).send_state(),
                item@,
            ),
            final(self).send_state() == advance(
                old(self).send_state(),
                (item@.len() - HEADER_LEN) as nat,
            ),
            final(self).recv_state() == old(self).recv_state(),
    {
        let bytes = item.into_bytes();
        let mut packet = vstd::slice::slice_to_vec(crate::connection::raw_packet::bytes_as_slice(&bytes));
        self.send_rc4.process_from(packet.as_mut_slice(), HEADER_LEN);
        bytes_mut_extend_from_slice(dst, packet.as_slice());
        Ok(())
    }
}

} // verus!
