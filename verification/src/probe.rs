//! How long a clip lasts, as a hint for the caller: taken from what the
//! decoder found in the encoded stream, without playing it.
//!
//! The decoder itself runs outside this library, on the thread of the caller
//! that submits the clip. It hands over what it found as a [`ProbeOutcome`].

use vstd::prelude::*;
use crate::error::AudioError;

verus! {

/// The duration that is reported for a clip whose stream tells no total
/// length, in milliseconds.
pub const DEFAULT_DURATION_MS: u64 = 500;

/// A length of time split as the decoder hands it over: whole seconds and
/// the nanoseconds of the second that has begun.
#[derive(Clone, Copy, Debug, PartialEq, Eq, Structural)]
pub struct TotalDuration {
    pub secs: u64,
    pub subsec_nanos: u32,
}

/// What the decoder made of a clip.
#[derive(Clone, Copy, Debug, PartialEq, Eq, Structural)]
pub enum ProbeOutcome {
    /// The stream is not audio that the decoder can read.
    Undecodable,
    /// The stream decodes. `total` is its total length, or `None` where the
    /// stream tells none.
    Decoded { total: Option<TotalDuration> },
}

impl TotalDuration {
    /// The length in whole milliseconds; what is left of a millisecond is
    /// dropped.
    pub open spec fn millis(self) -> nat {
        (self.secs * 1000 + self.subsec_nanos / 1_000_000) as nat
    }

    /// The length in whole milliseconds.
    pub fn as_millis(&self) -> (ms: u128)
        ensures
            ms == self.millis(),
    {
        let secs: u128 = self.secs as u128;
        let nanos: u128 = self.subsec_nanos as u128;
        secs * 1000 + nanos / 1_000_000
    }
}

/// The duration reported for a clip of the given total length: the length in
/// milliseconds, reduced to 64 bits, or the default where the length is not
/// known.
pub open spec fn duration_hint(total: Option<TotalDuration>) -> u64 {
    match total {
        Some(length) => (length.millis() % 0x1_0000_0000_0000_0000) as u64,
        None => DEFAULT_DURATION_MS,
    }
}

/// What a probe tells the caller: the duration hint of a clip that decodes,
/// a decode error for one that does not. A clip that decodes but tells no
/// total length gets the default duration, not an error.
pub open spec fn reply_to(outcome: ProbeOutcome) -> Result<u64, AudioError> {
    match outcome {
        ProbeOutcome::Decoded { total } => Ok(duration_hint(total)),
        ProbeOutcome::Undecodable => Err(AudioError::DecodeError),
    }
}

/// The duration to report for a clip of the given total length.
pub fn duration_hint_ms(total: Option<TotalDuration>) -> (ms: u64)
    ensures
        ms == duration_hint(total),
{
    match total {
        Some(length) => (length.as_millis() % 0x1_0000_0000_0000_0000) as u64,
        None => DEFAULT_DURATION_MS,
    }
}

/// The reply to a probe, given what the decoder made of the clip.
pub fn probe_reply(outcome: ProbeOutcome) -> (reply: Result<u64, AudioError>)
    ensures
        reply == reply_to(outcome),
{
    match outcome {
        ProbeOutcome::Decoded { total } => Ok(duration_hint_ms(total)),
        ProbeOutcome::Undecodable => Err(AudioError::DecodeError),
    }
}

} // verus!
