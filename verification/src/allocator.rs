//! Choosing the address of a relay socket: the configured host with a port
//! drawn at random from the configured interval, again after every failed
//! bind, without end.  The search fails only where the host has no address.

use crate::address::{Address, AddressView, SocketAddress};
use crate::config::UdpConfig;
use crate::error::RelayError;
use vstd::prelude::*;

verus! {

/// `rand::Rng::gen_range` on the generator that `rand::thread_rng` gives,
/// with the closed interval from `low` to `high`: some number of that
/// interval.  Which one is not said, and two calls may differ.  The
/// generator refuses an empty interval, so `low` may not exceed `high`.
#[verifier::external_body]
fn random_between(low: u16, high: u16) -> (value: u16)
    requires
        low <= high,
    ensures
        low <= value <= high,
{
    rand::Rng::gen_range(&mut rand::thread_rng(), low..=high)
}

/// What follows an attempt to bind.
#[derive(Debug, PartialEq, Eq)]
pub enum Allocation {
    /// The socket is bound; this is the address to report for it.
    Done(Address),
    /// The address was taken: try this one next.
    Retry(SocketAddress),
}

/// Draws a port of the configured interval.
pub fn draw_port(config: &UdpConfig) -> (port: u16)
    requires
        config.well_formed(),
    ensures
        config.admits(port),
{
    random_between(config.min_port, config.max_port)
}

/// The address to try: the host of `base`, with a port drawn from the
/// configured interval.  An interval of one port leaves no choice.
pub fn candidate(base: SocketAddress, config: &UdpConfig) -> (address: SocketAddress)
    requires
        config.well_formed(),
    ensures
        config.admits(address@.port()),
        address@ == base@.with_port(address@.port()),
        config.min_port == config.max_port ==> address@ == base@.with_port(config.min_port),
{
    base.with_port(draw_port(config))
}

/// The first address to try, from what the lookup of the configured host
/// gave.  A lookup without an address is the one error of the search; any
/// address it gave is the host, with a port drawn from the configured
/// interval.
pub fn first_candidate(found: Option<SocketAddress>, config: &UdpConfig) -> (start: Result<
    SocketAddress,
    RelayError,
>)
    requires
        config.well_formed(),
    ensures
        match found {
            None => start == Err::<SocketAddress, RelayError>(RelayError::Unresolved),
            Some(base) => {
                &&& start matches Ok(address)
                &&& config.admits(address@.port())
                &&& address@ == base@.with_port(address@.port())
                &&& config.min_port == config.max_port ==> address@ == base@.with_port(
                    config.min_port,
                )
            },
        },
{
    match found {
        None => Err(RelayError::Unresolved),
        Some(base) => Ok(candidate(base, config)),
    }
}

/// Says what follows an attempt to bind `tried`.  A bound socket ends the
/// search with its address; a failed bind is no error and leads to another
/// draw for the same host, however many have failed before.
pub fn after_bind(tried: SocketAddress, bound: bool, config: &UdpConfig) -> (next: Allocation)
    requires
        config.well_formed(),
    ensures
        match next {
            Allocation::Done(address) => bound && address@ == AddressView::Socket(tried@),
            Allocation::Retry(address) => {
                &&& !bound
                &&& config.admits(address@.port())
                &&& address@ == tried@.with_port(address@.port())
                &&& config.min_port == config.max_port ==> address@ == tried@.with_port(
                    config.min_port,
                )
            },
        },
{
    if bound {
        Allocation::Done(Address::SocketAddress(tried))
    } else {
        Allocation::Retry(candidate(tried, config))
    }
}

} // verus!
