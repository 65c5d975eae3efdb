//! The SOCKS5 UDP relay header, which a client puts in front of every
//! datagram it hands to the front agent, and which the front agent puts in
//! front of every datagram it hands back: two reserved bytes, a fragment
//! number, and the address that the payload goes to or comes from.

use crate::address::{Address, AddressView, SocketAddress};
use crate::frame::FrameError;
use crate::wire::{
    address_wire, lemma_address_round_trip, lemma_address_wire_len, lemma_parse_address_exact,
    parse_address, read_address, Parse,
};
use vstd::prelude::*;
use vstd::slice::*;

verus! {

/// Bytes of a relay header in front of its address.
pub const UDP_HEADER_PREFIX_LEN: usize = 3;

/// A relay header.  A fragment number other than zero marks a piece of a
/// larger datagram.
#[derive(Debug, PartialEq, Eq)]
pub struct UdpHeader {
    pub frag: u8,
    pub address: Address,
}

/// The mathematical value of a [`UdpHeader`].
pub struct UdpHeaderView {
    pub frag: u8,
    pub address: AddressView,
}

impl View for UdpHeader {
    type V = UdpHeaderView;

    open spec fn view(&self) -> UdpHeaderView {
        UdpHeaderView { frag: self.frag, address: self.address@ }
    }
}

/// The bytes of a relay header: the reserved bytes are written as zero.
pub open spec fn udp_header_wire(frag: u8, address: AddressView) -> Seq<u8> {
    seq![0u8, 0u8, frag] + address_wire(address)
}

/// What the front of `bytes` reads as.  The reserved bytes may hold anything.
pub open spec fn parse_udp_header(bytes: Seq<u8>) -> Parse<UdpHeaderView> {
    if bytes.len() < UDP_HEADER_PREFIX_LEN {
        Parse::Incomplete
    } else {
        match parse_address(bytes.skip(UDP_HEADER_PREFIX_LEN as int)) {
            Parse::Complete { value: address, consumed } => Parse::Complete {
                value: UdpHeaderView { frag: bytes[2], address },
                consumed: (consumed + UDP_HEADER_PREFIX_LEN) as usize,
            },
            Parse::Incomplete => Parse::Incomplete,
            Parse::Invalid(error) => Parse::Invalid(error),
        }
    }
}

/// `socks5_proto::UdpHeader::write_to_buf`, on a header made by
/// `socks5_proto::UdpHeader::new`: appends two zero bytes, the fragment
/// number and the byte form of the address, and leaves what the buffer held
/// in front of them.
#[verifier::external_body]
fn put_udp_header(frag: u8, address: &Address, buf: &mut Vec<u8>)
    ensures
        final(buf)@ == old(buf)@ + udp_header_wire(frag, address@),
{
    let outside = match address {
        Address::SocketAddress(SocketAddress::V4 { ip, port }) => {
            socks5_proto::Address::SocketAddress((*ip, *port).into())
        },
        Address::SocketAddress(SocketAddress::V6 { ip, port, .. }) => {
            socks5_proto::Address::SocketAddress((*ip, *port).into())
        },
        Address::DomainAddress(name, port) => {
            socks5_proto::Address::DomainAddress(name.clone(), *port)
        },
    };
    socks5_proto::UdpHeader::new(frag, outside).write_to_buf(buf);
}

/// Reads a relay header from the front of `buf`.
pub fn read_udp_header(buf: &[u8]) -> (parsed: Parse<UdpHeader>)
    ensures
        parsed@ == parse_udp_header(buf@),
{
    if buf.len() < UDP_HEADER_PREFIX_LEN {
        return Parse::Incomplete;
    }
    let frag = buf[2];
    let tail = slice_subrange(buf, UDP_HEADER_PREFIX_LEN, buf.len());
    assert(tail@ =~= buf@.skip(UDP_HEADER_PREFIX_LEN as int));
    match read_address(tail) {
        Parse::Complete { value: address, consumed } => {
            proof {
                lemma_parse_address_exact(tail@);
            }
            Parse::Complete {
                value: UdpHeader { frag, address },
                consumed: consumed + UDP_HEADER_PREFIX_LEN,
            }
        },
        Parse::Incomplete => Parse::Incomplete,
        Parse::Invalid(error) => Parse::Invalid(error),
    }
}

/// Writes a datagram as a SOCKS5 client expects it: a relay header with the
/// given fragment number and address, then the payload.  An address whose
/// host name does not fit its length byte has no header.
pub fn encode_datagram(frag: u8, address: &Address, payload: &[u8]) -> (encoded: Result<
    Vec<u8>,
    FrameError,
>)
    ensures
        match encoded {
            Ok(bytes) => address@.writable() && bytes@ == udp_header_wire(frag, address@)
                + payload@,
            Err(error) => error == FrameError::NameTooLong && !address@.writable(),
        },
{
    if !address.is_writable() {
        return Err(FrameError::NameTooLong);
    }
    let mut bytes: Vec<u8> = Vec::new();
    put_udp_header(frag, address, &mut bytes);
    bytes.extend_from_slice(payload);
    assert(bytes@ =~= udp_header_wire(frag, address@) + payload@);
    Ok(bytes)
}

/// Nothing but relay headers is read: when the front of `bytes` reads as a
/// header, its address is faithful, and the bytes that the reader took
/// behind the reserved bytes and the fragment number are the byte form of
/// that address.
pub proof fn lemma_parse_udp_header_exact(bytes: Seq<u8>)
    requires
        parse_udp_header(bytes) is Complete,
    ensures
        UDP_HEADER_PREFIX_LEN < parse_udp_header(bytes)->consumed <= bytes.len(),
        parse_udp_header(bytes)->value.frag == bytes[2],
        parse_udp_header(bytes)->value.address.faithful(),
        address_wire(parse_udp_header(bytes)->value.address) == bytes.subrange(
            UDP_HEADER_PREFIX_LEN as int,
            parse_udp_header(bytes)->consumed as int,
        ),
{
    let tail = bytes.skip(UDP_HEADER_PREFIX_LEN as int);
    lemma_parse_address_exact(tail);
    assert(tail.subrange(0, parse_address(tail)->consumed as int) =~= bytes.subrange(
        UDP_HEADER_PREFIX_LEN as int,
        parse_udp_header(bytes)->consumed as int,
    ));
}

/// The byte form of a relay header with a writable address takes at most
/// 262 bytes.
pub proof fn lemma_udp_header_len(frag: u8, address: AddressView)
    requires
        address.writable(),
    ensures
        udp_header_wire(frag, address).len() <= crate::config::MAX_UDP_HEADER_LEN,
{
    lemma_address_wire_len(address);
}

/// Reading undoes writing: a relay header with a faithful address, followed
/// by a payload, reads as that fragment number and address, and the reader
/// stops where the payload starts.
pub proof fn lemma_udp_header_round_trip(frag: u8, address: AddressView, payload: Seq<u8>)
    requires
        address.faithful(),
    ensures
        parse_udp_header(udp_header_wire(frag, address) + payload) == (Parse::Complete {
            value: UdpHeaderView { frag, address },
            consumed: udp_header_wire(frag, address).len() as usize,
        }),
        (udp_header_wire(frag, address) + payload).skip(
            udp_header_wire(frag, address).len() as int,
        ) == payload,
{
    let bytes = udp_header_wire(frag, address) + payload;
    lemma_address_wire_len(address);
    lemma_address_round_trip(address, payload);
    assert(bytes.skip(UDP_HEADER_PREFIX_LEN as int) =~= address_wire(address) + payload);
    assert(bytes.skip(udp_header_wire(frag, address).len() as int) =~= payload);
}

} // verus!
