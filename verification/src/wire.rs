//! The byte form of an address, as SOCKS5 writes it: one type byte, the
//! host, and the port in network order.  Writing goes through the SOCKS5
//! codec; reading is done here, on a buffer that may hold less or more than
//! one address.

use crate::address::{Address, AddressView, SocketAddress, SocketAddressView};
use vstd::prelude::*;
use vstd::slice::*;
use vstd::utf8::*;

verus! {

/// Type byte of an IPv4 address: four octets follow.
pub const ATYP_IPV4: u8 = 1;

/// Type byte of a host name: a length byte and that many bytes follow.
pub const ATYP_DOMAIN: u8 = 3;

/// Type byte of an IPv6 address: sixteen octets follow.
pub const ATYP_IPV6: u8 = 4;

/// Longest byte form of an address: type, length, 255 name bytes, port.
pub const MAX_ADDRESS_LEN: usize = 259;

/// Why bytes are not the byte form of anything.
#[derive(Clone, Copy, Debug, PartialEq, Eq, Structural)]
pub enum WireError {
    /// The type byte is none of the three known ones.
    UnsupportedAddressType(u8),
    /// The bytes of a host name are not UTF-8.
    InvalidDomain,
}

/// What reading from the front of a buffer gives.
#[derive(Debug, PartialEq, Eq)]
pub enum Parse<T> {
    /// The buffer starts with a whole item, `consumed` bytes long.
    Complete { value: T, consumed: usize },
    /// The buffer ends before the item does: more bytes are needed to tell.
    Incomplete,
    /// The buffer does not start with an item, whatever may follow it.
    Invalid(WireError),
}

impl<T: View> View for Parse<T> {
    type V = Parse<T::V>;

    open spec fn view(&self) -> Parse<T::V> {
        match self {
            Parse::Complete { value, consumed } => Parse::Complete {
                value: value@,
                consumed: *consumed,
            },
            Parse::Incomplete => Parse::Incomplete,
            Parse::Invalid(error) => Parse::Invalid(*error),
        }
    }
}

/// A 16-bit number in network order.
pub open spec fn be16(value: u16) -> Seq<u8> {
    seq![(value / 256) as u8, (value % 256) as u8]
}

/// The number that two bytes in network order stand for.
pub open spec fn from_be16(high: u8, low: u8) -> u16 {
    (high * 256 + low) as u16
}

/// Reading two bytes in network order undoes writing them.
pub proof fn lemma_be16_round_trip(value: u16)
    ensures
        be16(value).len() == 2,
        from_be16(be16(value)[0], be16(value)[1]) == value,
{
}

/// Two bytes are the network order of the number they stand for.
pub proof fn lemma_be16_of_bytes(high: u8, low: u8)
    ensures
        be16(from_be16(high, low)) =~= seq![high, low],
{
}

/// The byte form of a socket address: the family's type byte, the octets,
/// the port.  Flow information and scope of an IPv6 address are not written.
pub open spec fn socket_wire(socket: SocketAddressView) -> Seq<u8> {
    match socket {
        SocketAddressView::V4 { ip, port } => seq![ATYP_IPV4] + ip + be16(port),
        SocketAddressView::V6 { ip, port, .. } => seq![ATYP_IPV6] + ip + be16(port),
    }
}

/// The byte form of an address.  A host name is written as its UTF-8 bytes
/// behind one byte that holds their number modulo 256.
pub open spec fn address_wire(address: AddressView) -> Seq<u8> {
    match address {
        AddressView::Socket(socket) => socket_wire(socket),
        AddressView::Domain { name, port } => {
            let bytes = encode_utf8(name);
            seq![ATYP_DOMAIN, (bytes.len() % 256) as u8] + bytes + be16(port)
        },
    }
}

/// What the front of `bytes` reads as.
pub open spec fn parse_address(bytes: Seq<u8>) -> Parse<AddressView> {
    if bytes.len() < 1 {
        Parse::Incomplete
    } else if bytes[0] == ATYP_IPV4 {
        if bytes.len() < 7 {
            Parse::Incomplete
        } else {
            Parse::Complete {
                value: AddressView::Socket(
                    SocketAddressView::V4 {
                        ip: bytes.subrange(1, 5),
                        port: from_be16(bytes[5], bytes[6]),
                    },
                ),
                consumed: 7,
            }
        }
    } else if bytes[0] == ATYP_IPV6 {
        if bytes.len() < 19 {
            Parse::Incomplete
        } else {
            Parse::Complete {
                value: AddressView::Socket(
                    SocketAddressView::V6 {
                        ip: bytes.subrange(1, 17),
                        port: from_be16(bytes[17], bytes[18]),
                        flowinfo: 0,
                        scope_id: 0,
                    },
                ),
                consumed: 19,
            }
        }
    } else if bytes[0] == ATYP_DOMAIN {
        if bytes.len() < 2 || bytes.len() < 4 + bytes[1] {
            Parse::Incomplete
        } else {
            let end = 2 + bytes[1];
            let name = bytes.subrange(2, end);
            if valid_utf8(name) {
                Parse::Complete {
                    value: AddressView::Domain {
                        name: decode_utf8(name),
                        port: from_be16(bytes[end], bytes[end + 1]),
                    },
                    consumed: (end + 2) as usize,
                }
            } else {
                Parse::Invalid(WireError::InvalidDomain)
            }
        }
    } else {
        Parse::Invalid(WireError::UnsupportedAddressType(bytes[0]))
    }
}

/// Appends a 16-bit number in network order.
pub fn push_be16(buf: &mut Vec<u8>, value: u16)
    ensures
        final(buf)@ == old(buf)@ + be16(value),
{
    buf.push((value / 256) as u8);
    buf.push((value % 256) as u8);
    assert(buf@ =~= old(buf)@ + be16(value));
}

/// The number that two bytes in network order stand for.
pub fn read_be16(high: u8, low: u8) -> (value: u16)
    ensures
        value == from_be16(high, low),
{
    (high as u16) * 256 + (low as u16)
}

/// `String::from_utf8` of the standard library: the text that the bytes
/// spell, exactly when they are well-formed UTF-8.
#[verifier::external_body]
fn string_from_utf8(bytes: Vec<u8>) -> (text: Option<String>)
    ensures
        text is Some <==> valid_utf8(bytes@),
        text matches Some(s) ==> s@ == decode_utf8(bytes@),
{
    String::from_utf8(bytes).ok()
}

/// `socks5_proto::Address::write_to_buf`: appends the byte form of the
/// address to the buffer and leaves what the buffer held in front of it.
/// The codec writes the type byte 1, 4 or 3, then the octets of an IP
/// address, or the length of a host name cut to one byte and the name's
/// bytes, then the port in network order.
#[verifier::external_body]
pub(crate) fn put_address(address: &Address, buf: &mut Vec<u8>)
    ensures
        final(buf)@ == old(buf)@ + address_wire(address@),
{
    let outside = match address {
        Address::SocketAddress(SocketAddress::V4 { ip, port }) => {
            socks5_proto::Address::SocketAddress((*ip, *port).into())
        },
        Address::SocketAddress(SocketAddress::V6 { ip, port, .. }) => {
            socks5_proto::Address::SocketAddress((*ip, *port).into())
        },
        Address::DomainAddress(name, port) => {
            socks5_proto::Address::DomainAddress(name.clone(), *port)
        },
    };
    outside.write_to_buf(buf);
}

/// The byte form of `address`.
pub fn address_to_bytes(address: &Address) -> (bytes: Vec<u8>)
    ensures
        bytes@ == address_wire(address@),
{
    let mut bytes: Vec<u8> = Vec::new();
    put_address(address, &mut bytes);
    assert(bytes@ =~= address_wire(address@));
    bytes
}

/// Reads one address from the front of `buf`.
pub fn read_address(buf: &[u8]) -> (parsed: Parse<Address>)
    ensures
        parsed@ == parse_address(buf@),
{
    if buf.len() < 1 {
        return Parse::Incomplete;
    }
    let kind = buf[0];
    if kind == ATYP_IPV4 {
        if buf.len() < 7 {
            return Parse::Incomplete;
        }
        let ip: [u8; 4] = [buf[1], buf[2], buf[3], buf[4]];
        let port = read_be16(buf[5], buf[6]);
        assert(ip@ =~= buf@.subrange(1, 5));
        Parse::Complete {
            value: Address::SocketAddress(SocketAddress::V4 { ip, port }),
            consumed: 7,
        }
    } else if kind == ATYP_IPV6 {
        if buf.len() < 19 {
            return Parse::Incomplete;
        }
        let ip: [u8; 16] = [
            buf[1],
            buf[2],
            buf[3],
            buf[4],
            buf[5],
            buf[6],
            buf[7],
            buf[8],
            buf[9],
            buf[10],
            buf[11],
            buf[12],
            buf[13],
            buf[14],
            buf[15],
            buf[16],
        ];
        let port = read_be16(buf[17], buf[18]);
        assert(ip@ =~= buf@.subrange(1, 17));
        Parse::Complete {
            value: Address::SocketAddress(
                SocketAddress::V6 { ip, port, flowinfo: 0, scope_id: 0 },
            ),
            consumed: 19,
        }
    } else if kind == ATYP_DOMAIN {
        if buf.len() < 2 {
            return Parse::Incomplete;
        }
        let len = buf[1] as usize;
        if buf.len() < 4 + len {
            return Parse::Incomplete;
        }
        let end = 2 + len;
        let name = slice_to_vec(slice_subrange(buf, 2, end));
        let port = read_be16(buf[end], buf[end + 1]);
        match string_from_utf8(name) {
            Some(text) => Parse::Complete {
                value: Address::DomainAddress(text, port),
                consumed: end + 2,
            },
            None => Parse::Invalid(WireError::InvalidDomain),
        }
    } else {
        Parse::Invalid(WireError::UnsupportedAddressType(kind))
    }
}

/// The byte form of a writable address takes at most [`MAX_ADDRESS_LEN`]
/// bytes.
pub proof fn lemma_address_wire_len(address: AddressView)
    requires
        address.writable(),
    ensures
        4 <= address_wire(address).len() <= MAX_ADDRESS_LEN,
{
}

/// Reading undoes writing: the byte form of a faithful address, followed by
/// anything, reads as that address, and the reader stops where the byte
/// form ends.
pub proof fn lemma_address_round_trip(address: AddressView, rest: Seq<u8>)
    requires
        address.faithful(),
    ensures
        parse_address(address_wire(address) + rest) == (Parse::Complete {
            value: address,
            consumed: address_wire(address).len() as usize,
        }),
{
    let wire = address_wire(address);
    let bytes = wire + rest;
    match address {
        AddressView::Socket(SocketAddressView::V4 { ip, port }) => {
            lemma_be16_round_trip(port);
            assert(bytes.subrange(1, 5) =~= ip);
        },
        AddressView::Socket(SocketAddressView::V6 { ip, port, .. }) => {
            lemma_be16_round_trip(port);
            assert(bytes.subrange(1, 17) =~= ip);
        },
        AddressView::Domain { name, port } => {
            let text = encode_utf8(name);
            lemma_be16_round_trip(port);
            encode_utf8_valid_utf8(name);
            encode_utf8_decode_utf8(name);
            assert(bytes[1] == text.len());
            assert(bytes.subrange(2, 2 + text.len() as int) =~= text);
        },
    }
}

/// Nothing but byte forms is read: when the front of `bytes` reads as an
/// address, that address is faithful, and the bytes that the reader took are
/// its byte form.
pub proof fn lemma_parse_address_exact(bytes: Seq<u8>)
    requires
        parse_address(bytes) is Complete,
    ensures
        parse_address(bytes)->consumed <= bytes.len(),
        parse_address(bytes)->value.faithful(),
        address_wire(parse_address(bytes)->value) == bytes.subrange(
            0,
            parse_address(bytes)->consumed as int,
        ),
{
    let address = parse_address(bytes)->value;
    let taken = bytes.subrange(0, parse_address(bytes)->consumed as int);
    if bytes[0] == ATYP_IPV4 {
        lemma_be16_of_bytes(bytes[5], bytes[6]);
        assert(address_wire(address) =~= taken);
    } else if bytes[0] == ATYP_IPV6 {
        lemma_be16_of_bytes(bytes[17], bytes[18]);
        assert(address_wire(address) =~= taken);
    } else {
        let end = 2 + bytes[1];
        let name = bytes.subrange(2, end);
        decode_utf8_encode_utf8(name);
        lemma_be16_of_bytes(bytes[end], bytes[end + 1]);
        assert(encode_utf8(decode_utf8(name)) == name);
        assert(address_wire(address) =~= taken);
    }
}

/// A longer buffer never changes what was read: once the front of `bytes`
/// reads as an address or is refused, it does so whatever follows.
pub proof fn lemma_parse_address_stable(bytes: Seq<u8>, more: Seq<u8>)
    requires
        !(parse_address(bytes) is Incomplete),
    ensures
        parse_address(bytes + more) == parse_address(bytes),
{
    let longer = bytes + more;
    assert(longer[0] == bytes[0]);
    if bytes[0] == ATYP_IPV4 {
        assert(longer.subrange(1, 5) =~= bytes.subrange(1, 5));
    } else if bytes[0] == ATYP_IPV6 {
        assert(longer.subrange(1, 17) =~= bytes.subrange(1, 17));
    } else if bytes[0] == ATYP_DOMAIN {
        assert(longer[1] == bytes[1]);
        let end = 2 + bytes[1];
        assert(longer.subrange(2, end) =~= bytes.subrange(2, end));
    }
}

} // verus!
