//! Network addresses as the relay sees them: plain values, with a
//! mathematical view that the wire format and the contracts speak of.

use vstd::prelude::*;

verus! {

/// An IP address and port, with the two extra fields that an IPv6 socket
/// address carries on the local machine.
#[allow(inconsistent_fields)]
#[derive(Clone, Copy, Debug, PartialEq, Eq)]
pub enum SocketAddress {
    V4 { ip: [u8; 4], port: u16 },
    V6 { ip: [u8; 16], port: u16, flowinfo: u32, scope_id: u32 },
}

/// The mathematical value of a [`SocketAddress`].
pub enum SocketAddressView {
    V4 { ip: Seq<u8>, port: u16 },
    V6 { ip: Seq<u8>, port: u16, flowinfo: u32, scope_id: u32 },
}

impl SocketAddressView {
    /// The octets have the length of their family.
    pub open spec fn well_formed(self) -> bool {
        match self {
            SocketAddressView::V4 { ip, .. } => ip.len() == 4,
            SocketAddressView::V6 { ip, .. } => ip.len() == 16,
        }
    }

    /// The wire format carries every field: an IPv6 address keeps its flow
    /// information and scope only when both are zero.
    pub open spec fn portable(self) -> bool {
        match self {
            SocketAddressView::V4 { .. } => true,
            SocketAddressView::V6 { flowinfo, scope_id, .. } => flowinfo == 0 && scope_id == 0,
        }
    }

    /// The port of the address.
    pub open spec fn port(self) -> u16 {
        match self {
            SocketAddressView::V4 { port, .. } => port,
            SocketAddressView::V6 { port, .. } => port,
        }
    }

    /// The same host with another port.
    pub open spec fn with_port(self, port: u16) -> SocketAddressView {
        match self {
            SocketAddressView::V4 { ip, .. } => SocketAddressView::V4 { ip, port },
            SocketAddressView::V6 { ip, flowinfo, scope_id, .. } => SocketAddressView::V6 {
                ip,
                port,
                flowinfo,
                scope_id,
            },
        }
    }
}

impl View for SocketAddress {
    type V = SocketAddressView;

    open spec fn view(&self) -> SocketAddressView {
        match *self {
            SocketAddress::V4 { ip, port } => SocketAddressView::V4 { ip: ip@, port },
            SocketAddress::V6 { ip, port, flowinfo, scope_id } => SocketAddressView::V6 {
                ip: ip@,
                port,
                flowinfo,
                scope_id,
            },
        }
    }
}

impl SocketAddress {
    /// The IPv4 address `0.0.0.0` with port 0.
    pub open spec fn spec_unspecified() -> SocketAddressView {
        SocketAddressView::V4 { ip: seq![0u8, 0u8, 0u8, 0u8], port: 0 }
    }

    /// The IPv4 address `0.0.0.0` with port 0: what a slot holds before any
    /// peer is known, and what a reply names when it has no address to give.
    pub fn unspecified() -> (address: SocketAddress)
        ensures
            address@ == Self::spec_unspecified(),
    {
        let ip: [u8; 4] = [0, 0, 0, 0];
        assert(ip@ =~= seq![0u8, 0u8, 0u8, 0u8]);
        SocketAddress::V4 { ip, port: 0 }
    }

    /// The port of the address.
    pub fn port(&self) -> (port: u16)
        ensures
            port == self@.port(),
    {
        match self {
            SocketAddress::V4 { port, .. } => *port,
            SocketAddress::V6 { port, .. } => *port,
        }
    }

    /// The same host with another port.
    pub fn with_port(&self, port: u16) -> (address: SocketAddress)
        ensures
            address@ == self@.with_port(port),
    {
        match self {
            SocketAddress::V4 { ip, .. } => SocketAddress::V4 { ip: *ip, port },
            SocketAddress::V6 { ip, flowinfo, scope_id, .. } => SocketAddress::V6 {
                ip: *ip,
                port,
                flowinfo: *flowinfo,
                scope_id: *scope_id,
            },
        }
    }

    /// Tells whether the wire format carries every field of this address.
    pub fn is_portable(&self) -> (ok: bool)
        ensures
            ok == (self@.well_formed() && self@.portable()),
    {
        match self {
            SocketAddress::V4 { .. } => true,
            SocketAddress::V6 { flowinfo, scope_id, .. } => *flowinfo == 0 && *scope_id == 0,
        }
    }

    /// Every view of a socket address has octets of the right length.
    pub proof fn lemma_view_well_formed(self)
        ensures
            self@.well_formed(),
    {
    }
}

/// The target of a request or of one datagram: a socket address, or a host
/// name that is still to be resolved, with a port.
#[derive(Debug, PartialEq, Eq)]
pub enum Address {
    SocketAddress(SocketAddress),
    DomainAddress(String, u16),
}

/// The mathematical value of an [`Address`].
pub enum AddressView {
    Socket(SocketAddressView),
    Domain { name: Seq<char>, port: u16 },
}

impl AddressView {
    /// The octets of a socket address have the length of their family.
    pub open spec fn well_formed(self) -> bool {
        match self {
            AddressView::Socket(socket) => socket.well_formed(),
            AddressView::Domain { .. } => true,
        }
    }

    /// The address has a byte form that holds all of its host: a host name
    /// takes at most 255 bytes.
    pub open spec fn writable(self) -> bool {
        match self {
            AddressView::Socket(socket) => socket.well_formed(),
            AddressView::Domain { name, .. } => vstd::utf8::encode_utf8(name).len()
                <= MAX_DOMAIN_LEN,
        }
    }

    /// The byte form determines the address: it is writable, and a socket
    /// address has nothing that the byte form leaves out.
    pub open spec fn faithful(self) -> bool {
        match self {
            AddressView::Socket(socket) => socket.well_formed() && socket.portable(),
            AddressView::Domain { .. } => self.writable(),
        }
    }
}

/// Longest host name, in bytes, whose length fits the one length byte of the
/// wire format.
pub const MAX_DOMAIN_LEN: usize = 255;

impl View for Address {
    type V = AddressView;

    open spec fn view(&self) -> AddressView {
        match self {
            Address::SocketAddress(socket) => AddressView::Socket(socket@),
            Address::DomainAddress(name, port) => AddressView::Domain { name: name@, port: *port },
        }
    }
}

impl Clone for Address {
    fn clone(&self) -> (copy: Self)
        ensures
            copy@ == self@,
    {
        match self {
            Address::SocketAddress(socket) => Address::SocketAddress(*socket),
            Address::DomainAddress(name, port) => Address::DomainAddress(name.clone(), *port),
        }
    }
}

impl Address {
    /// The address that stands for "none": `0.0.0.0:0`.
    pub fn unspecified() -> (address: Address)
        ensures
            address@ == AddressView::Socket(SocketAddress::spec_unspecified()),
    {
        Address::SocketAddress(SocketAddress::unspecified())
    }

    /// Tells whether the address has a byte form that holds all of its host.
    pub fn is_writable(&self) -> (ok: bool)
        ensures
            ok == self@.writable(),
    {
        match self {
            Address::SocketAddress(socket) => {
                proof {
                    socket.lemma_view_well_formed();
                }
                true
            },
            Address::DomainAddress(name, _) => {
                let bytes = name.as_str().as_bytes();
                bytes.len() <= MAX_DOMAIN_LEN
            },
        }
    }

    /// Tells whether the byte form determines the address.
    pub fn is_faithful(&self) -> (ok: bool)
        ensures
            ok == self@.faithful(),
    {
        match self {
            Address::SocketAddress(socket) => socket.is_portable(),
            Address::DomainAddress(_, _) => self.is_writable(),
        }
    }
}

} // verus!
