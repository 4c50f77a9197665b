//! The failures that the player reports.

use vstd::prelude::*;

verus! {

/// Why a request could not be served.
#[derive(Clone, Copy, Debug, PartialEq, Eq, Structural)]
pub enum AudioError {
    /// The token is not a symbol of the alphabet.
    InvalidSymbol,
    /// The clip that belongs to the symbol is missing or cannot be read.
    ResourceNotFound,
    /// The clip is there but is not audio that can be decoded.
    DecodeError,
    /// The actor could not acquire the output device when it started.
    DeviceUnavailable,
    /// The actor has ended: its channel takes no more commands.
    ChannelClosed,
}

} // verus!
