//! The back agent's side of the tunnel: where the payload of a frame is
//! sent, and how a datagram that came back is framed for the tunnel.

use crate::address::{Address, AddressView, SocketAddress, SocketAddressView};
use crate::error::RelayError;
use crate::frame::{
    encode_frame, frame_wire, lemma_frame_round_trip, parse_frame, payload_limit, FrameView,
    MAX_PAYLOAD_LEN,
};
use crate::hostport::{lookup_name, lookup_text};
use crate::wire::Parse;
use vstd::prelude::*;

verus! {

/// Where the payload of a frame goes.
#[derive(Debug, PartialEq, Eq)]
pub enum Target {
    /// Straight to this socket address.
    Known(SocketAddress),
    /// To the first address that a lookup of this name gives.
    Lookup(String),
}

/// The mathematical value of a [`Target`].
pub enum TargetView {
    Known(SocketAddressView),
    Lookup(Seq<char>),
}

impl View for Target {
    type V = TargetView;

    open spec fn view(&self) -> TargetView {
        match self {
            Target::Known(socket) => TargetView::Known(socket@),
            Target::Lookup(name) => TargetView::Lookup(name@),
        }
    }
}

/// Where the payload of a frame with this address goes: a socket address is
/// used as it is, a host name is looked up as `host:port`.
pub open spec fn target_of(address: AddressView) -> TargetView {
    match address {
        AddressView::Socket(socket) => TargetView::Known(socket),
        AddressView::Domain { name, port } => TargetView::Lookup(lookup_name(name, port)),
    }
}

/// Says where the payload of a frame with this address goes.
pub fn destination(address: &Address) -> (target: Target)
    ensures
        target@ == target_of(address@),
{
    match address {
        Address::SocketAddress(socket) => Target::Known(*socket),
        Address::DomainAddress(name, port) => Target::Lookup(lookup_text(name.as_str(), *port)),
    }
}

/// Takes the first address that a lookup gave, if it gave any.  A name
/// without an address fails the pump.
pub fn resolved(first: Option<SocketAddress>) -> (socket: Result<SocketAddress, RelayError>)
    ensures
        match first {
            Some(found) => socket == Ok::<SocketAddress, RelayError>(found),
            None => socket == Err::<SocketAddress, RelayError>(RelayError::Unresolved),
        },
{
    match first {
        Some(found) => Ok(found),
        None => Err(RelayError::Unresolved),
    }
}

/// What a datagram that came from `from` becomes on the tunnel: one frame
/// that names its source, or nothing where its payload is longer than `mtu`
/// or than a frame's length field can say.
pub open spec fn frame_of_reply(from: SocketAddressView, payload: Seq<u8>, mtu: usize) -> Option<
    Seq<u8>,
> {
    if payload.len() <= payload_limit(mtu) {
        Some(frame_wire(AddressView::Socket(from), payload))
    } else {
        None
    }
}

/// Frames a datagram that came from `from` on the UDP socket, for the
/// tunnel, where a frame may hold `mtu` payload bytes.  A datagram with
/// more is dropped: there is nothing to write for it, and the pump goes on.
pub fn reply_frame(from: SocketAddress, payload: &[u8], mtu: usize) -> (framed: Option<Vec<u8>>)
    ensures
        match frame_of_reply(from@, payload@, mtu) {
            Some(expected) => framed matches Some(bytes) && bytes@ == expected,
            None => framed is None,
        },
{
    let address = Address::SocketAddress(from);
    proof {
        from.lemma_view_well_formed();
    }
    match encode_frame(&address, payload, mtu) {
        Ok(bytes) => Some(bytes),
        Err(_) => None,
    }
}

/// A reply crosses the tunnel within the MTU and unchanged: what the back
/// agent writes for a datagram holds at most `mtu` payload bytes, and reads
/// at the near end as one frame with the datagram's payload and, where the
/// source is portable, its source.
pub proof fn lemma_reply_crosses_tunnel(
    from: SocketAddressView,
    payload: Seq<u8>,
    mtu: usize,
    rest: Seq<u8>,
)
    requires
        from.well_formed(),
        from.portable(),
    ensures
        frame_of_reply(from, payload, mtu) is Some <==> payload.len() <= mtu && payload.len()
            <= MAX_PAYLOAD_LEN,
        frame_of_reply(from, payload, mtu) matches Some(bytes) ==> parse_frame(bytes + rest) == (
            Parse::Complete {
                value: FrameView { address: AddressView::Socket(from), payload },
                consumed: bytes.len() as usize,
            }
        ),
{
    if frame_of_reply(from, payload, mtu) is Some {
        lemma_frame_round_trip(AddressView::Socket(from), payload, rest);
    }
}

} // verus!
