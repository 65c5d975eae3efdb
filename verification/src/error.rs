//! Why a relay pump gives up.

use crate::frame::FrameError;
use crate::wire::WireError;
use vstd::prelude::*;

verus! {

/// Why a pump gives up.
#[derive(Clone, Copy, Debug, PartialEq, Eq, Structural)]
pub enum RelayError {
    /// A datagram ends inside its relay header.
    Truncated,
    /// A datagram's relay header is not one.
    Malformed(WireError),
    /// An address and a payload make no frame or datagram.
    Unframeable(FrameError),
    /// A host name has no address.
    Unresolved,
}

} // verus!
