//! Settings of the UDP sockets that an agent opens.

use vstd::prelude::*;

verus! {

/// Largest UDP payload accepted when no other value is configured.
pub const DEFAULT_MTU: usize = 9000;

/// Lowest port tried for a relay socket when no other value is configured.
pub const DEFAULT_MIN_PORT: u16 = 40000;

/// Highest port tried for a relay socket when no other value is configured.
pub const DEFAULT_MAX_PORT: u16 = 65535;

/// Room that a SOCKS5 UDP relay header can take in front of the payload:
/// two reserved bytes, the fragment number, and the longest address.
pub const MAX_UDP_HEADER_LEN: usize = 262;

/// Settings shared by every UDP socket of an agent.
#[derive(Clone, Copy, Debug, PartialEq, Eq, Structural)]
pub struct UdpConfig {
    /// The MTU of the UDP sockets.
    pub mtu: usize,
    /// The minimum possible port of all UDP sockets.
    pub min_port: u16,
    /// The maximum possible port of all UDP sockets.
    pub max_port: u16,
}

impl Default for UdpConfig {
    fn default() -> (config: Self)
        ensures
            config.mtu == DEFAULT_MTU,
            config.min_port == DEFAULT_MIN_PORT,
            config.max_port == DEFAULT_MAX_PORT,
    {
        UdpConfig { mtu: DEFAULT_MTU, min_port: DEFAULT_MIN_PORT, max_port: DEFAULT_MAX_PORT }
    }
}

impl UdpConfig {
    /// The port interval `[min_port, max_port]` holds at least one port.
    pub open spec fn well_formed(&self) -> bool {
        self.min_port <= self.max_port
    }

    /// Whether `port` lies in the closed interval `[min_port, max_port]`.
    pub open spec fn admits(&self, port: u16) -> bool {
        self.min_port <= port <= self.max_port
    }

    /// A configuration with the given values, if its port interval is not empty.
    pub fn new(mtu: usize, min_port: u16, max_port: u16) -> (config: Option<Self>)
        ensures
            config is Some <==> min_port <= max_port,
            config matches Some(c) ==> c.mtu == mtu && c.min_port == min_port && c.max_port
                == max_port,
    {
        if min_port <= max_port {
            Some(UdpConfig { mtu, min_port, max_port })
        } else {
            None
        }
    }

    /// Tells whether the port interval holds at least one port.
    pub fn is_well_formed(&self) -> (ok: bool)
        ensures
            ok == self.well_formed(),
    {
        self.min_port <= self.max_port
    }

    /// Tells whether `port` lies in the configured interval.
    pub fn contains_port(&self, port: u16) -> (inside: bool)
        ensures
            inside == self.admits(port),
    {
        self.min_port <= port && port <= self.max_port
    }

    /// Size of the receive buffer of the front agent's UDP socket: room for
    /// the longest relay header and `mtu` payload bytes behind it.  The
    /// buffer bounds the datagram, not the payload: behind a shorter header
    /// it takes in more than `mtu` payload bytes, which the pump then drops.
    /// `None` when that size does not fit the machine's address space.
    pub fn front_buffer_len(&self) -> (len: Option<usize>)
        ensures
            len is Some <==> self.mtu + MAX_UDP_HEADER_LEN <= usize::MAX,
            len matches Some(n) ==> n == self.mtu + MAX_UDP_HEADER_LEN,
    {
        self.mtu.checked_add(MAX_UDP_HEADER_LEN)
    }

    /// Size of the receive buffer of the back agent's UDP socket, which
    /// receives bare payloads: `mtu` bytes.
    pub fn back_buffer_len(&self) -> (len: usize)
        ensures
            len == self.mtu,
    {
        self.mtu
    }
}

} // verus!
