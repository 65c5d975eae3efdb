//! The front agent's side of one UDP association: the slot that remembers
//! the local peer, and what each pump does with one datagram or one frame.
//!
//! An association is a group that fails together.  It is live from its
//! start until the control connection closes, a pump meets an error, or
//! the program around it reports a failed read or write; from then on
//! every pump is told to halt.

use crate::address::{AddressView, SocketAddress, SocketAddressView};
use crate::datagram::{
    encode_datagram, lemma_parse_udp_header_exact, lemma_udp_header_round_trip,
    parse_udp_header, read_udp_header, udp_header_wire,
};
use crate::error::RelayError;
use crate::frame::{
    encode_frame, frame_wire, lemma_frame_round_trip, parse_frame, payload_limit, Frame,
    FrameError, FrameView,
};
use crate::wire::Parse;
use vstd::prelude::*;
use vstd::slice::*;

verus! {

/// What the pump from the UDP socket to the tunnel does with one datagram.
#[derive(Debug, PartialEq, Eq)]
pub enum Outbound {
    /// Write these bytes, one frame, to the tunnel.
    Forward(Vec<u8>),
    /// The datagram is a fragment, or holds more payload than a frame may:
    /// drop it and go on.
    Discard,
    /// The association is over: stop.
    Halt,
}

/// The mathematical value of an [`Outbound`].
pub enum OutboundView {
    Forward(Seq<u8>),
    Discard,
    Halt,
}

impl View for Outbound {
    type V = OutboundView;

    open spec fn view(&self) -> OutboundView {
        match self {
            Outbound::Forward(bytes) => OutboundView::Forward(bytes@),
            Outbound::Discard => OutboundView::Discard,
            Outbound::Halt => OutboundView::Halt,
        }
    }
}

/// What the pump from the tunnel to the UDP socket does with one frame.
#[derive(Debug, PartialEq, Eq)]
pub enum Inbound {
    /// Send this datagram to this peer.
    Deliver { datagram: Vec<u8>, to: SocketAddress },
    /// The association is over: stop.
    Halt,
}

/// The mathematical value of an [`Inbound`].
pub enum InboundView {
    Deliver { datagram: Seq<u8>, to: SocketAddressView },
    Halt,
}

impl View for Inbound {
    type V = InboundView;

    open spec fn view(&self) -> InboundView {
        match self {
            Inbound::Deliver { datagram, to } => InboundView::Deliver {
                datagram: datagram@,
                to: to@,
            },
            Inbound::Halt => InboundView::Halt,
        }
    }
}

/// What the watchdog of the control connection does after one read.
#[derive(Clone, Copy, Debug, PartialEq, Eq, Structural)]
pub enum Watch {
    /// Bytes came and are thrown away: read again.
    Continue,
    /// The client closed the connection, or the association is over: stop.
    Closed,
}

/// The view of a pump's result: the error as it is, the step by its view.
pub open spec fn outbound_view(result: Result<Outbound, RelayError>) -> Result<
    OutboundView,
    RelayError,
> {
    match result {
        Ok(step) => Ok(step@),
        Err(error) => Err(error),
    }
}

/// The view of a pump's result: the error as it is, the step by its view.
pub open spec fn inbound_view(result: Result<Inbound, RelayError>) -> Result<
    InboundView,
    RelayError,
> {
    match result {
        Ok(step) => Ok(step@),
        Err(error) => Err(error),
    }
}

/// What a datagram from the local peer becomes on the tunnel.  Its relay
/// header names the target; a fragment is dropped whatever it holds, and so
/// is a datagram whose payload is longer than `mtu` or than a frame's length
/// field can say; the rest of any other datagram is the payload of one
/// frame.
pub open spec fn frame_of_datagram(datagram: Seq<u8>, mtu: usize) -> Result<
    OutboundView,
    RelayError,
> {
    match parse_udp_header(datagram) {
        Parse::Incomplete => Err(RelayError::Truncated),
        Parse::Invalid(error) => Err(RelayError::Malformed(error)),
        Parse::Complete { value: header, consumed } => {
            if header.frag != 0 {
                Ok(OutboundView::Discard)
            } else if datagram.len() - consumed > payload_limit(mtu) {
                Ok(OutboundView::Discard)
            } else {
                Ok(
                    OutboundView::Forward(
                        frame_wire(header.address, datagram.skip(consumed as int)),
                    ),
                )
            }
        },
    }
}

/// What a frame from the tunnel becomes for the local peer: its payload
/// behind a relay header that names the frame's address, unfragmented.
pub open spec fn datagram_of_frame(frame: FrameView) -> Result<Seq<u8>, RelayError> {
    if frame.address.writable() {
        Ok(udp_header_wire(0, frame.address) + frame.payload)
    } else {
        Err(RelayError::Unframeable(FrameError::NameTooLong))
    }
}

/// The mathematical value of an [`Association`].
pub struct AssociationView {
    /// The source of the last datagram that came from the local UDP socket.
    pub peer: SocketAddressView,
    /// Whether the association still runs.
    pub live: bool,
}

impl AssociationView {
    /// An association at its start: it runs, and knows no peer.
    pub open spec fn fresh() -> AssociationView {
        AssociationView { peer: SocketAddress::spec_unspecified(), live: true }
    }

    /// The association, over.
    pub open spec fn stopped(self) -> AssociationView {
        AssociationView { peer: self.peer, live: false }
    }

    /// One turn of the pump from the UDP socket to the tunnel.  The slot
    /// takes the sender before anything is read from the datagram.
    pub open spec fn outbound(self, from: SocketAddressView, datagram: Seq<u8>, mtu: usize) -> (
        AssociationView,
        Result<OutboundView, RelayError>,
    ) {
        if !self.live {
            (self, Ok(OutboundView::Halt))
        } else {
            let step = frame_of_datagram(datagram, mtu);
            (AssociationView { peer: from, live: step is Ok }, step)
        }
    }

    /// One turn of the pump from the tunnel to the UDP socket.  The datagram
    /// goes to whoever holds the slot.
    pub open spec fn inbound(self, frame: FrameView) -> (
        AssociationView,
        Result<InboundView, RelayError>,
    ) {
        if !self.live {
            (self, Ok(InboundView::Halt))
        } else {
            match datagram_of_frame(frame) {
                Ok(datagram) => (self, Ok(InboundView::Deliver { datagram, to: self.peer })),
                Err(error) => (self.stopped(), Err(error)),
            }
        }
    }

    /// One turn of the watchdog, after a read of `count` bytes from the
    /// control connection.  A read of nothing is the client's goodbye.
    pub open spec fn control_read(self, count: usize) -> (AssociationView, Watch) {
        if self.live && count > 0 {
            (self, Watch::Continue)
        } else {
            (self.stopped(), Watch::Closed)
        }
    }
}

/// The state that the three tasks of an association share.
#[derive(Debug)]
pub struct Association {
    peer: SocketAddress,
    live: bool,
}

impl View for Association {
    type V = AssociationView;

    closed spec fn view(&self) -> AssociationView {
        AssociationView { peer: self.peer@, live: self.live }
    }
}

impl Association {
    /// An association at its start.
    pub fn new() -> (association: Association)
        ensures
            association@ == AssociationView::fresh(),
    {
        Association { peer: SocketAddress::unspecified(), live: true }
    }

    /// The peer that return traffic goes to.
    pub fn peer(&self) -> (peer: SocketAddress)
        ensures
            peer@ == self@.peer,
    {
        self.peer
    }

    /// Whether the association still runs.
    pub fn is_live(&self) -> (live: bool)
        ensures
            live == self@.live,
    {
        self.live
    }

    /// Ends the association: a task finished or failed outside this library.
    pub fn stop(&mut self)
        ensures
            final(self)@ == old(self)@.stopped(),
    {
        self.live = false;
    }

    /// Takes one datagram that came from `from` on the local UDP socket and
    /// says what to write to the tunnel, where a frame may hold `mtu` payload
    /// bytes.  An error ends the association.
    pub fn outbound(&mut self, from: SocketAddress, datagram: &[u8], mtu: usize) -> (result:
        Result<Outbound, RelayError>)
        ensures
            (final(self)@, outbound_view(result)) == old(self)@.outbound(
                from@,
                datagram@,
                mtu,
            ),
    {
        if !self.live {
            return Ok(Outbound::Halt);
        }
        self.peer = from;
        match read_udp_header(datagram) {
            Parse::Incomplete => {
                self.live = false;
                Err(RelayError::Truncated)
            },
            Parse::Invalid(error) => {
                self.live = false;
                Err(RelayError::Malformed(error))
            },
            Parse::Complete { value: header, consumed } => {
                proof {
                    lemma_parse_udp_header_exact(datagram@);
                }
                if header.frag != 0 {
                    return Ok(Outbound::Discard);
                }
                let payload = slice_subrange(datagram, consumed, datagram.len());
                assert(payload@ =~= datagram@.skip(consumed as int));
                match encode_frame(&header.address, payload, mtu) {
                    Ok(bytes) => Ok(Outbound::Forward(bytes)),
                    Err(_) => Ok(Outbound::Discard),
                }
            },
        }
    }

    /// Takes one frame that came from the tunnel and says what to send on
    /// the local UDP socket, and to whom.  An error ends the association.
    pub fn inbound(&mut self, frame: &Frame) -> (result: Result<Inbound, RelayError>)
        ensures
            (final(self)@, inbound_view(result)) == old(self)@.inbound(frame@),
    {
        if !self.live {
            return Ok(Inbound::Halt);
        }
        match encode_datagram(0, &frame.address, frame.payload.as_slice()) {
            Ok(datagram) => Ok(Inbound::Deliver { datagram, to: self.peer }),
            Err(error) => {
                self.live = false;
                Err(RelayError::Unframeable(error))
            },
        }
    }

    /// Takes the size of one read from the control connection and says
    /// whether to read again.  A read of nothing ends the association.
    pub fn control_read(&mut self, count: usize) -> (watch: Watch)
        ensures
            (final(self)@, watch) == old(self)@.control_read(count),
    {
        if self.live && count > 0 {
            Watch::Continue
        } else {
            self.live = false;
            Watch::Closed
        }
    }
}

/// A fragment is never forwarded: whatever a datagram holds besides, a
/// fragment number other than zero in its third byte keeps it off the
/// tunnel, in every state of the association.
pub proof fn lemma_fragment_never_forwarded(
    association: AssociationView,
    from: SocketAddressView,
    datagram: Seq<u8>,
    mtu: usize,
)
    requires
        datagram.len() >= 3,
        datagram[2] != 0,
    ensures
        !(association.outbound(from, datagram, mtu).1 matches Ok(OutboundView::Forward(_))),
{
    if parse_udp_header(datagram) is Complete {
        lemma_parse_udp_header_exact(datagram);
    }
}

/// A well-formed fragment is dropped, and the association goes on: a relay
/// header with a fragment number other than zero, whatever address and
/// payload come with it, leads to no write and to no error.
pub proof fn lemma_fragment_discarded(
    association: AssociationView,
    from: SocketAddressView,
    frag: u8,
    address: AddressView,
    payload: Seq<u8>,
    mtu: usize,
)
    requires
        association.live,
        frag != 0,
        address.faithful(),
    ensures
        association.outbound(from, udp_header_wire(frag, address) + payload, mtu) == (
            AssociationView { peer: from, live: true },
            Ok::<OutboundView, RelayError>(OutboundView::Discard),
        ),
{
    lemma_udp_header_round_trip(frag, address, payload);
}

/// The slot holds one peer, the last: after datagrams from `first` and then
/// from `second`, a frame from the tunnel is delivered to nobody but
/// `second`, whatever the datagrams and the frame hold; and it is delivered,
/// with its address in the relay header, if the association still runs and
/// the frame's address has a byte form.
pub proof fn lemma_single_slot(
    association: AssociationView,
    first: SocketAddressView,
    second: SocketAddressView,
    earlier: Seq<u8>,
    later: Seq<u8>,
    mtu: usize,
    frame: FrameView,
)
    ensures
        ({
            let after = association.outbound(first, earlier, mtu).0.outbound(
                second,
                later,
                mtu,
            ).0;
            &&& after.inbound(frame).1 matches Ok(InboundView::Deliver { to, .. }) ==> to
                == second
            &&& after.live ==> after.peer == second
            &&& after.live && frame.address.writable() ==> after.inbound(frame).1 == Ok::<
                InboundView,
                RelayError,
            >(
                InboundView::Deliver {
                    datagram: udp_header_wire(0, frame.address) + frame.payload,
                    to: second,
                },
            )
        }),
{
}

/// The group fails together: once the control connection has closed, both
/// pumps are told to halt at their next turn, whatever they are handed, and
/// the watchdog stays closed.  Nothing is forwarded or delivered any more.
pub proof fn lemma_control_close_halts_pumps(
    association: AssociationView,
    from: SocketAddressView,
    datagram: Seq<u8>,
    mtu: usize,
    frame: FrameView,
    count: usize,
)
    ensures
        ({
            let over = association.control_read(0).0;
            &&& !over.live
            &&& association.control_read(0).1 == Watch::Closed
            &&& over.outbound(from, datagram, mtu) == (
                over,
                Ok::<OutboundView, RelayError>(OutboundView::Halt),
            )
            &&& over.inbound(frame) == (over, Ok::<InboundView, RelayError>(InboundView::Halt))
            &&& over.control_read(count) == (over, Watch::Closed)
        }),
{
}

/// The group fails together: when a pump meets an error the association is
/// over, and from then on every task is told to stop.
pub proof fn lemma_pump_error_halts_all(
    association: AssociationView,
    from: SocketAddressView,
    datagram: Seq<u8>,
    mtu: usize,
    frame: FrameView,
)
    ensures
        association.outbound(from, datagram, mtu).1 is Err ==> !association.outbound(
            from,
            datagram,
            mtu,
        ).0.live,
        association.inbound(frame).1 is Err ==> !association.inbound(frame).0.live,
        !association.live ==> {
            &&& association.outbound(from, datagram, mtu) == (
                association,
                Ok::<OutboundView, RelayError>(OutboundView::Halt),
            )
            &&& association.inbound(frame) == (
                association,
                Ok::<InboundView, RelayError>(InboundView::Halt),
            )
        },
{
}

/// A frame never holds more than the MTU: whatever the pump forwards is one
/// whole frame and nothing else, its length field is the number of its
/// payload bytes, those are at most `mtu`, and they are the bytes behind the
/// datagram's relay header, for the address that the header names.
pub proof fn lemma_forwarded_frame_within_mtu(
    association: AssociationView,
    from: SocketAddressView,
    datagram: Seq<u8>,
    mtu: usize,
)
    ensures
        match association.outbound(from, datagram, mtu).1 {
            Ok(OutboundView::Forward(bytes)) => match parse_frame(bytes) {
                Parse::Complete { value, consumed } => {
                    &&& consumed == bytes.len()
                    &&& value.payload.len() <= mtu
                    &&& parse_udp_header(datagram) is Complete
                    &&& value.address == parse_udp_header(datagram)->value.address
                    &&& value.payload == datagram.skip(parse_udp_header(datagram)->consumed as int)
                },
                _ => false,
            },
            _ => true,
        },
{
    if association.outbound(from, datagram, mtu).1 matches Ok(OutboundView::Forward(_)) {
        let bytes = association.outbound(from, datagram, mtu).1->Ok_0->Forward_0;
        let header = parse_udp_header(datagram)->value;
        let payload = datagram.skip(parse_udp_header(datagram)->consumed as int);
        lemma_parse_udp_header_exact(datagram);
        lemma_frame_round_trip(header.address, payload, Seq::empty());
        assert(bytes + Seq::<u8>::empty() =~= bytes);
    }
}

/// A payload beyond the MTU never reaches the tunnel: a datagram whose
/// payload is longer than `mtu` is dropped, whatever its relay header
/// says, and the association goes on.
pub proof fn lemma_oversized_datagram_dropped(
    association: AssociationView,
    from: SocketAddressView,
    frag: u8,
    address: AddressView,
    payload: Seq<u8>,
    mtu: usize,
)
    requires
        association.live,
        address.faithful(),
        payload.len() > mtu,
    ensures
        association.outbound(from, udp_header_wire(frag, address) + payload, mtu) == (
            AssociationView { peer: from, live: true },
            Ok::<OutboundView, RelayError>(OutboundView::Discard),
        ),
{
    lemma_udp_header_round_trip(frag, address, payload);
}

/// A datagram crosses the tunnel unchanged: what the front agent writes for
/// an unfragmented datagram to a faithful address, with a payload that a
/// frame may hold, reads at the far end as one frame with that address and
/// that payload.
pub proof fn lemma_datagram_crosses_tunnel(
    address: AddressView,
    payload: Seq<u8>,
    mtu: usize,
    rest: Seq<u8>,
)
    requires
        address.faithful(),
        payload.len() <= payload_limit(mtu),
    ensures
        frame_of_datagram(udp_header_wire(0, address) + payload, mtu) == Ok::<
            OutboundView,
            RelayError,
        >(OutboundView::Forward(frame_wire(address, payload))),
        parse_frame(frame_wire(address, payload) + rest) == (Parse::Complete {
            value: FrameView { address, payload },
            consumed: frame_wire(address, payload).len() as usize,
        }),
{
    lemma_udp_header_round_trip(0, address, payload);
    lemma_frame_round_trip(address, payload, rest);
}

/// A reply reaches the client as it was received: the frame that names its
/// source becomes a datagram whose relay header reads as that source,
/// unfragmented, and whose payload is the reply.
pub proof fn lemma_reply_reaches_client(source: AddressView, reply: Seq<u8>)
    requires
        source.faithful(),
    ensures
        datagram_of_frame(FrameView { address: source, payload: reply }) == Ok::<
            Seq<u8>,
            RelayError,
        >(udp_header_wire(0, source) + reply),
        parse_udp_header(udp_header_wire(0, source) + reply) == (Parse::Complete {
            value: crate::datagram::UdpHeaderView { frag: 0, address: source },
            consumed: udp_header_wire(0, source).len() as usize,
        }),
        (udp_header_wire(0, source) + reply).skip(udp_header_wire(0, source).len() as int)
            == reply,
{
    lemma_udp_header_round_trip(0, source, reply);
}

} // verus!
