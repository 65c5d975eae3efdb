//! The tunnel frame: one addressed datagram on the TCP stream, written as
//! the address, the payload's length in two bytes of network order, and the
//! payload.  Frames follow one another with nothing in between.

use crate::address::{Address, AddressView};
use crate::wire::{
    address_wire, be16, from_be16, lemma_address_round_trip, lemma_address_wire_len,
    lemma_be16_of_bytes, lemma_be16_round_trip, lemma_parse_address_exact,
    lemma_parse_address_stable, parse_address, push_be16, put_address, read_address, read_be16,
    Parse,
};
use vstd::prelude::*;
use vstd::slice::*;

verus! {

/// Longest payload whose length fits the two length bytes of a frame.
pub const MAX_PAYLOAD_LEN: usize = 65535;

/// One datagram of the tunnel with the address it goes to or comes from.
#[derive(Debug, PartialEq, Eq)]
pub struct Frame {
    pub address: Address,
    pub payload: Vec<u8>,
}

/// The mathematical value of a [`Frame`].
pub struct FrameView {
    pub address: AddressView,
    pub payload: Seq<u8>,
}

impl View for Frame {
    type V = FrameView;

    open spec fn view(&self) -> FrameView {
        FrameView { address: self.address@, payload: self.payload@ }
    }
}

/// Why an address and a payload make no frame.
#[derive(Clone, Copy, Debug, PartialEq, Eq, Structural)]
pub enum FrameError {
    /// The host name is longer than its length byte can say.
    NameTooLong,
    /// The payload is longer than the MTU allows, or than the two length
    /// bytes can say.
    PayloadTooLarge,
}

/// The most payload bytes that a frame may hold under an MTU: as many as the
/// MTU, and never more than the length field can say.
pub open spec fn payload_limit(mtu: usize) -> usize {
    if mtu <= MAX_PAYLOAD_LEN {
        mtu
    } else {
        MAX_PAYLOAD_LEN
    }
}

/// What an address and a payload are written as under an MTU: one frame, or
/// the reason why they make none.
pub open spec fn encoded_frame(address: AddressView, payload: Seq<u8>, mtu: usize) -> Result<
    Seq<u8>,
    FrameError,
> {
    if !address.writable() {
        Err(FrameError::NameTooLong)
    } else if payload.len() > payload_limit(mtu) {
        Err(FrameError::PayloadTooLarge)
    } else {
        Ok(frame_wire(address, payload))
    }
}

/// The bytes of one frame.
pub open spec fn frame_wire(address: AddressView, payload: Seq<u8>) -> Seq<u8> {
    address_wire(address) + be16(payload.len() as u16) + payload
}

/// What the front of `bytes` reads as: an address, two length bytes, and as
/// many payload bytes as they say.
pub open spec fn parse_frame(bytes: Seq<u8>) -> Parse<FrameView> {
    match parse_address(bytes) {
        Parse::Complete { value: address, consumed: head } => {
            if bytes.len() < head + 2 {
                Parse::Incomplete
            } else {
                let len = from_be16(bytes[head as int], bytes[head + 1]);
                if bytes.len() < head + 2 + len {
                    Parse::Incomplete
                } else {
                    Parse::Complete {
                        value: FrameView {
                            address,
                            payload: bytes.subrange(head + 2, head + 2 + len),
                        },
                        consumed: (head + 2 + len) as usize,
                    }
                }
            }
        },
        Parse::Incomplete => Parse::Incomplete,
        Parse::Invalid(error) => Parse::Invalid(error),
    }
}

/// A frame that decoding gives back as it was: its address is faithful and
/// its payload fits the length field.
pub open spec fn frame_fits(frame: FrameView) -> bool {
    frame.address.faithful() && frame.payload.len() <= MAX_PAYLOAD_LEN
}

/// The bytes of frames that follow one another on the stream.
pub open spec fn stream_wire(frames: Seq<FrameView>) -> Seq<u8>
    decreases frames.len(),
{
    if frames.len() == 0 {
        Seq::empty()
    } else {
        frame_wire(frames.first().address, frames.first().payload) + stream_wire(
            frames.drop_first(),
        )
    }
}

/// The frames that up to `count` reads give, each read starting where the
/// one before it stopped; reading ends early where no whole frame is left.
pub open spec fn read_frames(bytes: Seq<u8>, count: nat) -> Seq<FrameView>
    decreases count,
{
    if count == 0 {
        Seq::empty()
    } else {
        match parse_frame(bytes) {
            Parse::Complete { value, consumed } => seq![value] + read_frames(
                bytes.skip(consumed as int),
                (count - 1) as nat,
            ),
            _ => Seq::empty(),
        }
    }
}

/// Writes one frame.  An address whose host name does not fit its length
/// byte makes no frame, nor does a payload of more bytes than `mtu` or than
/// the length field can say.
pub fn encode_frame(address: &Address, payload: &[u8], mtu: usize) -> (encoded: Result<
    Vec<u8>,
    FrameError,
>)
    ensures
        match encoded_frame(address@, payload@, mtu) {
            Ok(expected) => encoded matches Ok(bytes) && bytes@ == expected,
            Err(error) => encoded == Err::<Vec<u8>, FrameError>(error),
        },
{
    if !address.is_writable() {
        return Err(FrameError::NameTooLong);
    }
    if payload.len() > mtu || payload.len() > MAX_PAYLOAD_LEN {
        return Err(FrameError::PayloadTooLarge);
    }
    let mut bytes: Vec<u8> = Vec::new();
    put_address(address, &mut bytes);
    push_be16(&mut bytes, payload.len() as u16);
    bytes.extend_from_slice(payload);
    assert(bytes@ =~= frame_wire(address@, payload@));
    Ok(bytes)
}

/// Reads one frame from the front of `buf`, which may hold less than a
/// frame, or more.
pub fn decode_frame(buf: &[u8]) -> (parsed: Parse<Frame>)
    ensures
        parsed@ == parse_frame(buf@),
{
    match read_address(buf) {
        Parse::Complete { value: address, consumed: head } => {
            proof {
                lemma_parse_address_exact(buf@);
                lemma_address_wire_len(address@);
            }
            if buf.len() - head < 2 {
                return Parse::Incomplete;
            }
            let len = read_be16(buf[head], buf[head + 1]) as usize;
            let start = head + 2;
            if buf.len() - start < len {
                return Parse::Incomplete;
            }
            let payload = slice_to_vec(slice_subrange(buf, start, start + len));
            Parse::Complete { value: Frame { address, payload }, consumed: start + len }
        },
        Parse::Incomplete => Parse::Incomplete,
        Parse::Invalid(error) => Parse::Invalid(error),
    }
}

/// Bytes that arrived on the tunnel and were not yet read as frames.
pub struct FrameReader {
    pending: Vec<u8>,
}

impl View for FrameReader {
    type V = Seq<u8>;

    closed spec fn view(&self) -> Seq<u8> {
        self.pending@
    }
}

impl FrameReader {
    /// A reader that holds no bytes.
    pub fn new() -> (reader: FrameReader)
        ensures
            reader@ == Seq::<u8>::empty(),
    {
        FrameReader { pending: Vec::new() }
    }

    /// Number of bytes that wait to be read.
    pub fn pending_len(&self) -> (len: usize)
        ensures
            len == self@.len(),
    {
        self.pending.len()
    }

    /// Takes in bytes as they arrived, behind those that wait already.
    pub fn feed(&mut self, bytes: &[u8])
        ensures
            final(self)@ == old(self)@ + bytes@,
    {
        self.pending.extend_from_slice(bytes);
        assert(self.pending@ =~= old(self).pending@ + bytes@);
    }

    /// Reads the next frame, if the waiting bytes hold a whole one, and drops
    /// its bytes.  Otherwise the waiting bytes stay as they are.
    pub fn next_frame(&mut self) -> (parsed: Parse<Frame>)
        ensures
            parsed@ == parse_frame(old(self)@),
            match parsed {
                Parse::Complete { consumed, .. } => consumed <= old(self)@.len() && final(self)@
                    == old(self)@.skip(consumed as int),
                _ => final(self)@ == old(self)@,
            },
    {
        let parsed = decode_frame(self.pending.as_slice());
        match parsed {
            Parse::Complete { value, consumed } => {
                proof {
                    lemma_parse_frame_exact(self.pending@);
                }
                let rest = self.pending.split_off(consumed);
                self.pending = rest;
                Parse::Complete { value, consumed }
            },
            other => other,
        }
    }
}

/// Decoding undoes encoding: the bytes of a frame whose address is faithful
/// and whose payload fits the length field, followed by anything, read as
/// that address and that payload, and the reader stops where the frame ends.
pub proof fn lemma_frame_round_trip(address: AddressView, payload: Seq<u8>, rest: Seq<u8>)
    requires
        address.faithful(),
        payload.len() <= MAX_PAYLOAD_LEN,
    ensures
        parse_frame(frame_wire(address, payload) + rest) == (Parse::Complete {
            value: FrameView { address, payload },
            consumed: frame_wire(address, payload).len() as usize,
        }),
{
    let head = address_wire(address);
    let len = payload.len() as u16;
    let bytes = frame_wire(address, payload) + rest;
    lemma_address_wire_len(address);
    lemma_be16_round_trip(len);
    assert(bytes =~= head + (be16(len) + payload + rest));
    lemma_address_round_trip(address, be16(len) + payload + rest);
    let at = head.len() as int;
    assert(bytes[at] == be16(len)[0]);
    assert(bytes[at + 1] == be16(len)[1]);
    assert(bytes.subrange(at + 2, at + 2 + len) =~= payload);
}

/// Decoding undoes encoding under every MTU: whatever `encode_frame` writes
/// for a faithful address and a payload, followed by anything, reads as
/// that address and that payload; and it writes a frame for every payload
/// of at most `mtu` bytes that the length field can count.
pub proof fn lemma_encoded_frame_decodes(
    address: AddressView,
    payload: Seq<u8>,
    mtu: usize,
    rest: Seq<u8>,
)
    requires
        address.faithful(),
    ensures
        payload.len() <= mtu && payload.len() <= MAX_PAYLOAD_LEN ==> encoded_frame(
            address,
            payload,
            mtu,
        ) is Ok,
        encoded_frame(address, payload, mtu) matches Ok(bytes) ==> parse_frame(bytes + rest) == (
            Parse::Complete {
                value: FrameView { address, payload },
                consumed: bytes.len() as usize,
            }
        ),
{
    if encoded_frame(address, payload, mtu) is Ok {
        lemma_frame_round_trip(address, payload, rest);
    }
}

/// A frame never holds more than the MTU: what `encode_frame` writes reads
/// as one frame, whole and with nothing left over, whose length field is
/// the number of its payload bytes, at most `mtu`.
pub proof fn lemma_encoded_frame_within_mtu(address: AddressView, payload: Seq<u8>, mtu: usize)
    requires
        address.well_formed(),
    ensures
        encoded_frame(address, payload, mtu) matches Ok(bytes) ==> {
            let head = address_wire(address).len() as int;
            &&& payload.len() <= mtu
            &&& bytes.len() == head + 2 + payload.len()
            &&& bytes.subrange(0, head) == address_wire(address)
            &&& from_be16(bytes[head], bytes[head + 1]) == payload.len()
            &&& bytes.skip(head + 2) == payload
        },
{
    if encoded_frame(address, payload, mtu) is Ok {
        let bytes = frame_wire(address, payload);
        let head = address_wire(address).len() as int;
        lemma_be16_round_trip(payload.len() as u16);
        assert(bytes.subrange(0, head) =~= address_wire(address));
        assert(bytes[head] == be16(payload.len() as u16)[0]);
        assert(bytes[head + 1] == be16(payload.len() as u16)[1]);
        assert(bytes.skip(head + 2) =~= payload);
    }
}

/// A stream of frames is read back frame by frame, in order: the bytes of
/// frames that fit, one behind the other and followed by anything, give
/// those frames to as many reads as there are frames.
pub proof fn lemma_stream_round_trip(frames: Seq<FrameView>, rest: Seq<u8>)
    requires
        forall|i: int| 0 <= i < frames.len() ==> frame_fits(#[trigger] frames[i]),
    ensures
        read_frames(stream_wire(frames) + rest, frames.len()) == frames,
    decreases frames.len(),
{
    if frames.len() > 0 {
        let first = frames.first();
        let tail = frames.drop_first();
        let head = frame_wire(first.address, first.payload);
        let behind = stream_wire(tail) + rest;
        assert(frame_fits(frames[0]));
        assert forall|i: int| 0 <= i < tail.len() implies frame_fits(#[trigger] tail[i]) by {
            assert(tail[i] == frames[i + 1]);
        }
        lemma_address_wire_len(first.address);
        lemma_frame_round_trip(first.address, first.payload, behind);
        assert(stream_wire(frames) + rest =~= head + behind);
        assert((head + behind).skip(head.len() as int) =~= behind);
        lemma_stream_round_trip(tail, rest);
        assert(seq![first] + tail =~= frames);
    } else {
        assert(read_frames(stream_wire(frames) + rest, 0) =~= frames);
    }
}

/// Nothing but frames is read: when the front of `bytes` reads as a frame,
/// the bytes that the reader took are that frame's bytes, its address is
/// faithful and its payload fits the length field.
pub proof fn lemma_parse_frame_exact(bytes: Seq<u8>)
    requires
        parse_frame(bytes) is Complete,
    ensures
        parse_frame(bytes)->consumed <= bytes.len(),
        parse_frame(bytes)->value.address.faithful(),
        parse_frame(bytes)->value.payload.len() <= MAX_PAYLOAD_LEN,
        frame_wire(parse_frame(bytes)->value.address, parse_frame(bytes)->value.payload)
            == bytes.subrange(0, parse_frame(bytes)->consumed as int),
{
    let frame = parse_frame(bytes)->value;
    let head = parse_address(bytes)->consumed;
    lemma_parse_address_exact(bytes);
    lemma_address_wire_len(frame.address);
    lemma_be16_of_bytes(bytes[head as int], bytes[head + 1]);
    assert(frame_wire(frame.address, frame.payload) =~= bytes.subrange(
        0,
        parse_frame(bytes)->consumed as int,
    ));
}

/// A longer buffer never changes what was read: once the front of `bytes`
/// reads as a frame or is refused, it does so whatever follows.
pub proof fn lemma_parse_frame_stable(bytes: Seq<u8>, more: Seq<u8>)
    requires
        !(parse_frame(bytes) is Incomplete),
    ensures
        parse_frame(bytes + more) == parse_frame(bytes),
{
    lemma_parse_address_stable(bytes, more);
    if parse_frame(bytes) is Complete {
        let longer = bytes + more;
        let head = parse_address(bytes)->consumed;
        lemma_parse_address_exact(bytes);
        assert(longer[head as int] == bytes[head as int]);
        assert(longer[head + 1] == bytes[head + 1]);
        let len = from_be16(bytes[head as int], bytes[head + 1]);
        assert(longer.subrange(head + 2, head + 2 + len) =~= bytes.subrange(
            head + 2,
            head + 2 + len,
        ));
    }
}

} // verus!
