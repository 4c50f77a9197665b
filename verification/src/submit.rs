//! The caller's side of a request: what is checked, in which order, before a
//! command is handed to the actor, and what the caller is told.
//!
//! A submission moves through [`SubmitStep`]s. Each step but the last asks
//! the caller's thread for one thing; [`SubmitStep::proceed`] takes the
//! answer and gives the next step. The actor is not involved before the
//! command is enqueued, and is never waited for.

use vstd::prelude::*;
use crate::assets::{asset_location, location_in, AUDIO_DIR};
use crate::command::{AudioCommand, CommandView};
use crate::error::AudioError;
use crate::probe::{probe_reply, reply_to, ProbeOutcome};
use crate::symbols::{get_zhuyin_index, resolve};

verus! {

/// Where a submission of `Play` stands: the one thing to do next.
#[derive(Debug, PartialEq, Eq)]
pub enum SubmitStep {
    /// Find out whether the clip at `location` exists.
    Locate { location: String },
    /// Open the clip at `location` and have the decoder read its length.
    Probe { location: String },
    /// Enqueue `Play(location)`; `duration_ms` is what the caller is told
    /// once that is done.
    Enqueue { location: String, duration_ms: u64 },
    /// Tell the caller `result`: the duration of the clip in milliseconds,
    /// or why nothing was enqueued.
    Reply { result: Result<u64, AudioError> },
}

/// The answer to a step.
#[derive(Clone, Copy, Debug, PartialEq, Eq, Structural)]
pub enum SubmitEvent {
    /// Whether the clip exists.
    Located(bool),
    /// The clip could not be opened.
    Unreadable,
    /// The clip was opened, and the decoder made this of it.
    Probed(ProbeOutcome),
    /// Whether the channel took the command.
    Enqueued(bool),
}

/// [`SubmitStep`] as contracts see it.
pub ghost enum StepView {
    Locate { location: Seq<char> },
    Probe { location: Seq<char> },
    Enqueue { location: Seq<char>, duration_ms: u64 },
    Reply { result: Result<u64, AudioError> },
}

impl View for SubmitStep {
    type V = StepView;

    open spec fn view(&self) -> StepView {
        match self {
            SubmitStep::Locate { location } => StepView::Locate { location: location@ },
            SubmitStep::Probe { location } => StepView::Probe { location: location@ },
            SubmitStep::Enqueue { location, duration_ms } => StepView::Enqueue {
                location: location@,
                duration_ms: *duration_ms,
            },
            SubmitStep::Reply { result } => StepView::Reply { result: *result },
        }
    }
}

/// The first step for `symbol`: a token outside the alphabet is turned down
/// at once; a symbol has its clip looked for.
pub open spec fn begin(symbol: Seq<char>) -> StepView {
    match resolve(symbol) {
        Some(index) => StepView::Locate { location: location_in(AUDIO_DIR@, index) },
        None => StepView::Reply { result: Err(AudioError::InvalidSymbol) },
    }
}

/// The step after the clip at `location` was probed: enqueue it with its
/// duration hint, or tell the caller that it is no audio.
pub open spec fn probed(location: Seq<char>, outcome: ProbeOutcome) -> StepView {
    match reply_to(outcome) {
        Ok(duration_ms) => StepView::Enqueue { location, duration_ms },
        Err(error) => StepView::Reply { result: Err(error) },
    }
}

/// The step after `event` answered `step`. An answer that the step did not
/// ask for leaves it as it is.
pub open spec fn next_step(step: StepView, event: SubmitEvent) -> StepView {
    match (step, event) {
        (StepView::Locate { location }, SubmitEvent::Located(true)) => StepView::Probe {
            location,
        },
        (StepView::Locate { .. }, SubmitEvent::Located(false)) => StepView::Reply {
            result: Err(AudioError::ResourceNotFound),
        },
        (StepView::Probe { .. }, SubmitEvent::Unreadable) => StepView::Reply {
            result: Err(AudioError::ResourceNotFound),
        },
        (StepView::Probe { location }, SubmitEvent::Probed(outcome)) => probed(location, outcome),
        (StepView::Enqueue { duration_ms, .. }, SubmitEvent::Enqueued(true)) => StepView::Reply {
            result: Ok(duration_ms),
        },
        (StepView::Enqueue { .. }, SubmitEvent::Enqueued(false)) => StepView::Reply {
            result: Err(AudioError::ChannelClosed),
        },
        _ => step,
    }
}

/// Opens the submission of `Play` for `symbol`.
pub fn begin_play(symbol: &str) -> (step: SubmitStep)
    ensures
        step@ == begin(symbol@),
{
    match get_zhuyin_index(symbol) {
        Some(index) => SubmitStep::Locate { location: asset_location(index) },
        None => SubmitStep::Reply { result: Err(AudioError::InvalidSymbol) },
    }
}

impl SubmitStep {
    /// Takes the answer to this step and gives the next one, as
    /// [`next_step`] says.
    pub fn proceed(self, event: SubmitEvent) -> (step: SubmitStep)
        ensures
            step@ == next_step(self@, event),
    {
        match (self, event) {
            (SubmitStep::Locate { location }, SubmitEvent::Located(true)) => SubmitStep::Probe {
                location,
            },
            (SubmitStep::Locate { .. }, SubmitEvent::Located(false)) => SubmitStep::Reply {
                result: Err(AudioError::ResourceNotFound),
            },
            (SubmitStep::Probe { .. }, SubmitEvent::Unreadable) => SubmitStep::Reply {
                result: Err(AudioError::ResourceNotFound),
            },
            (SubmitStep::Probe { location }, SubmitEvent::Probed(outcome)) => {
                match probe_reply(outcome) {
                    Ok(duration_ms) => SubmitStep::Enqueue { location, duration_ms },
                    Err(error) => SubmitStep::Reply { result: Err(error) },
                }
            },
            (SubmitStep::Enqueue { duration_ms, .. }, SubmitEvent::Enqueued(true)) => {
                SubmitStep::Reply { result: Ok(duration_ms) }
            },
            (SubmitStep::Enqueue { .. }, SubmitEvent::Enqueued(false)) => SubmitStep::Reply {
                result: Err(AudioError::ChannelClosed),
            },
            (unchanged, _) => unchanged,
        }
    }

    /// The command to enqueue at this step: `Play` of the clip where the
    /// step is `Enqueue`, none at any other step.
    pub fn command(&self) -> (command: Option<AudioCommand>)
        ensures
            match self@ {
                StepView::Enqueue { location, .. } => command is Some && command.unwrap()@
                    == CommandView::Play(location),
                _ => command is None,
            },
    {
        match self {
            SubmitStep::Enqueue { location, .. } => Some(AudioCommand::Play(location.clone())),
            _ => None,
        }
    }

    /// The reply for the caller, once the submission has reached it.
    pub fn reply(&self) -> (reply: Option<Result<u64, AudioError>>)
        ensures
            match self@ {
                StepView::Reply { result } => reply == Some(result),
                _ => reply is None,
            },
    {
        match self {
            SubmitStep::Reply { result } => Some(*result),
            _ => None,
        }
    }
}

/// What the caller of `Stop` is told: success where the channel took the
/// command, else that the actor is gone.
pub fn stop_reply(delivered: bool) -> (reply: Result<(), AudioError>)
    ensures
        reply == if delivered {
            Ok::<(), AudioError>(())
        } else {
            Err(AudioError::ChannelClosed)
        },
{
    if delivered {
        Ok(())
    } else {
        Err(AudioError::ChannelClosed)
    }
}

/// Nothing reaches the actor before the checks are through: a submission
/// comes to enqueue its command only when a clip that was found and opened
/// has decoded, and the caller is told a duration only after the channel
/// took the command. A token outside the alphabet, a missing clip and a clip
/// that is no audio are all reported without a command being enqueued.
pub proof fn lemma_checked_before_enqueued(step: StepView, event: SubmitEvent)
    ensures
        forall|symbol: Seq<char>| !(#[trigger] begin(symbol) is Enqueue),
        next_step(step, event) is Enqueue && !(step is Enqueue) ==> {
            &&& step is Probe
            &&& event matches SubmitEvent::Probed(outcome)
            &&& outcome is Decoded
        },
        next_step(step, event) matches StepView::Reply { result: Ok(ms) } ==> step is Reply || {
            &&& step matches StepView::Enqueue { duration_ms, .. }
            &&& duration_ms == ms
            &&& event == SubmitEvent::Enqueued(true)
        },
        step is Reply ==> next_step(step, event) == step,
{
}

} // verus!
