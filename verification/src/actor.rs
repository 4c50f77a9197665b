//! The playback actor as a state machine.
//!
//! The actor owns the output device and the one session that may sound. Its
//! driver performs what the machine asks for and reports back what happened:
//! each call of [`ActorState::handle`] takes one report and answers with the
//! next thing to do. The machine asks for one thing at a time, so a command
//! is not taken before the device is done with the command before it.

use vstd::prelude::*;
use crate::command::{AudioCommand, CommandView};
use crate::error::AudioError;

verus! {

/// How an attempt to start a clip ended.
#[derive(Clone, Copy, Debug, PartialEq, Eq, Structural)]
pub enum StartOutcome {
    /// The clip was opened and decoded, and sounds now.
    Started,
    /// The clip is missing or cannot be decoded, or the device took no new
    /// session; nothing sounds.
    Failed,
}

/// Where the actor stands.
#[derive(Debug, PartialEq, Eq)]
pub enum ActorState {
    /// The output device has not been acquired yet.
    Booting,
    /// No session is active; the next command is awaited.
    Idle,
    /// The session of the clip at `location` is active: the clip was started
    /// and has neither been silenced nor been reported to have played to its
    /// end. The next command is awaited.
    Playing { location: String },
    /// The device was asked to silence the active session. `next` is the
    /// clip to start once that is done.
    Silencing { next: Option<String> },
    /// The device was asked to start the clip at `location`.
    Starting { location: String },
    /// The actor has left its loop and released the device.
    Terminated,
}

/// What the driver reports to the actor.
#[derive(Debug, PartialEq, Eq)]
pub enum ActorEvent {
    /// The output device was acquired.
    DeviceReady,
    /// The output device could not be acquired.
    DeviceUnavailable,
    /// The channel delivered this command.
    Received(AudioCommand),
    /// The channel is closed: no sender is left.
    Disconnected,
    /// The active session was silenced.
    Silenced,
    /// The start that was asked for ended this way.
    StartFinished(StartOutcome),
    /// The clip of the active session has played to its end: the session is
    /// over and nothing sounds.
    Finished,
}

/// What the actor asks its driver to do next.
#[derive(Debug, PartialEq, Eq)]
pub enum ActorAction {
    /// Wait for the next command on the channel.
    AwaitCommand,
    /// Silence the active session.
    Silence,
    /// Open the clip at this location and start it on the device.
    Start(String),
    /// Leave the loop and release the device, for this reason.
    Exit(AudioError),
}

/// [`ActorState`] as contracts see it.
pub ghost enum StateView {
    Booting,
    Idle,
    Playing { location: Seq<char> },
    Silencing { next: Option<Seq<char>> },
    Starting { location: Seq<char> },
    Terminated,
}

/// [`ActorEvent`] as contracts see it.
pub ghost enum EventView {
    DeviceReady,
    DeviceUnavailable,
    Received(CommandView),
    Disconnected,
    Silenced,
    StartFinished(StartOutcome),
    Finished,
}

/// [`ActorAction`] as contracts see it.
pub ghost enum ActionView {
    AwaitCommand,
    Silence,
    Start(Seq<char>),
    Exit(AudioError),
}

/// The characters of a location that may be absent.
pub open spec fn location_view(location: Option<String>) -> Option<Seq<char>> {
    match location {
        Some(l) => Some(l@),
        None => None,
    }
}

impl View for ActorState {
    type V = StateView;

    open spec fn view(&self) -> StateView {
        match self {
            ActorState::Booting => StateView::Booting,
            ActorState::Idle => StateView::Idle,
            ActorState::Playing { location } => StateView::Playing { location: location@ },
            ActorState::Silencing { next } => StateView::Silencing { next: location_view(*next) },
            ActorState::Starting { location } => StateView::Starting { location: location@ },
            ActorState::Terminated => StateView::Terminated,
        }
    }
}

impl View for ActorEvent {
    type V = EventView;

    open spec fn view(&self) -> EventView {
        match self {
            ActorEvent::DeviceReady => EventView::DeviceReady,
            ActorEvent::DeviceUnavailable => EventView::DeviceUnavailable,
            ActorEvent::Received(command) => EventView::Received(command@),
            ActorEvent::Disconnected => EventView::Disconnected,
            ActorEvent::Silenced => EventView::Silenced,
            ActorEvent::StartFinished(outcome) => EventView::StartFinished(*outcome),
            ActorEvent::Finished => EventView::Finished,
        }
    }
}

impl View for ActorAction {
    type V = ActionView;

    open spec fn view(&self) -> ActionView {
        match self {
            ActorAction::AwaitCommand => ActionView::AwaitCommand,
            ActorAction::Silence => ActionView::Silence,
            ActorAction::Start(location) => ActionView::Start(location@),
            ActorAction::Exit(reason) => ActionView::Exit(*reason),
        }
    }
}

/// One move of the machine: the state after `event` was reported in `state`,
/// and what the driver is asked to do next. `None` where the state does not
/// await that event; the actor then stays as it is and asks for nothing.
///
/// A command is awaited in `Idle` and `Playing` only. Taking `Stop` in
/// `Idle` touches nothing. Taking any command in `Playing` first has the
/// active session silenced; a `Play` then starts its clip, which ends in
/// `Playing` if the start succeeds and in `Idle` if it fails. A clip that
/// has played to its end leaves the actor `Idle`, with nothing asked of the
/// device: a command that comes after it is taken as in `Idle`. A device
/// that cannot be acquired ends the actor before it takes any command, and
/// so does a closed channel whenever a command is awaited.
pub open spec fn step(state: StateView, event: EventView) -> Option<(StateView, ActionView)> {
    match (state, event) {
        (StateView::Booting, EventView::DeviceReady) => Some(
            (StateView::Idle, ActionView::AwaitCommand),
        ),
        (StateView::Booting, EventView::DeviceUnavailable) => Some(
            (StateView::Terminated, ActionView::Exit(AudioError::DeviceUnavailable)),
        ),
        (StateView::Idle, EventView::Received(CommandView::Stop)) => Some(
            (StateView::Idle, ActionView::AwaitCommand),
        ),
        (StateView::Idle, EventView::Received(CommandView::Play(location))) => Some(
            (StateView::Starting { location }, ActionView::Start(location)),
        ),
        (StateView::Playing { .. }, EventView::Received(CommandView::Stop)) => Some(
            (StateView::Silencing { next: None }, ActionView::Silence),
        ),
        (StateView::Playing { .. }, EventView::Received(CommandView::Play(location))) => Some(
            (StateView::Silencing { next: Some(location) }, ActionView::Silence),
        ),
        (StateView::Idle, EventView::Disconnected) => Some(
            (StateView::Terminated, ActionView::Exit(AudioError::ChannelClosed)),
        ),
        (StateView::Playing { .. }, EventView::Disconnected) => Some(
            (StateView::Terminated, ActionView::Exit(AudioError::ChannelClosed)),
        ),
        (StateView::Playing { .. }, EventView::Finished) => Some(
            (StateView::Idle, ActionView::AwaitCommand),
        ),
        (StateView::Silencing { next: None }, EventView::Silenced) => Some(
            (StateView::Idle, ActionView::AwaitCommand),
        ),
        (StateView::Silencing { next: Some(location) }, EventView::Silenced) => Some(
            (StateView::Starting { location }, ActionView::Start(location)),
        ),
        (StateView::Starting { location }, EventView::StartFinished(StartOutcome::Started)) => Some(
            (StateView::Playing { location }, ActionView::AwaitCommand),
        ),
        (StateView::Starting { .. }, EventView::StartFinished(StartOutcome::Failed)) => Some(
            (StateView::Idle, ActionView::AwaitCommand),
        ),
        _ => None,
    }
}

impl ActorState {
    /// The actor before it has acquired the output device.
    pub fn new() -> (actor: ActorState)
        ensures
            actor@ == StateView::Booting,
    {
        ActorState::Booting
    }

    /// Whether a session is active: a clip was started, and since then it
    /// has neither been silenced nor been reported to have played to its
    /// end.
    pub fn is_playing(&self) -> (playing: bool)
        ensures
            playing == (self@ is Playing),
    {
        match self {
            ActorState::Playing { .. } => true,
            _ => false,
        }
    }

    /// Whether the actor has left its loop.
    pub fn is_terminated(&self) -> (terminated: bool)
        ensures
            terminated == (self@ is Terminated),
    {
        match self {
            ActorState::Terminated => true,
            _ => false,
        }
    }

    /// Takes one report from the driver and answers with what to do next, as
    /// [`step`] says. A report that the state does not await changes nothing
    /// and is answered with `None`.
    pub fn handle(&mut self, event: ActorEvent) -> (action: Option<ActorAction>)
        ensures
            match step(old(self)@, event@) {
                Some((next, asked)) => final(self)@ == next && action is Some && action.unwrap()@
                    == asked,
                None => final(self)@ == old(self)@ && action is None,
            },
    {
        let mut current = ActorState::Terminated;
        core::mem::swap(self, &mut current);
        let (next, action) = match (current, event) {
            (ActorState::Booting, ActorEvent::DeviceReady) => (
                ActorState::Idle,
                Some(ActorAction::AwaitCommand),
            ),
            (ActorState::Booting, ActorEvent::DeviceUnavailable) => (
                ActorState::Terminated,
                Some(ActorAction::Exit(AudioError::DeviceUnavailable)),
            ),
            (ActorState::Idle, ActorEvent::Received(AudioCommand::Stop)) => (
                ActorState::Idle,
                Some(ActorAction::AwaitCommand),
            ),
            (ActorState::Idle, ActorEvent::Received(AudioCommand::Play(location))) => {
                let asked = location.clone();
                (ActorState::Starting { location }, Some(ActorAction::Start(asked)))
            },
            (ActorState::Playing { .. }, ActorEvent::Received(AudioCommand::Stop)) => (
                ActorState::Silencing { next: None },
                Some(ActorAction::Silence),
            ),
            (ActorState::Playing { .. }, ActorEvent::Received(AudioCommand::Play(location))) => (
                ActorState::Silencing { next: Some(location) },
                Some(ActorAction::Silence),
            ),
            (ActorState::Idle, ActorEvent::Disconnected) => (
                ActorState::Terminated,
                Some(ActorAction::Exit(AudioError::ChannelClosed)),
            ),
            (ActorState::Playing { .. }, ActorEvent::Disconnected) => (
                ActorState::Terminated,
                Some(ActorAction::Exit(AudioError::ChannelClosed)),
            ),
            (ActorState::Playing { .. }, ActorEvent::Finished) => (
                ActorState::Idle,
                Some(ActorAction::AwaitCommand),
            ),
            (ActorState::Silencing { next: None }, ActorEvent::Silenced) => (
                ActorState::Idle,
                Some(ActorAction::AwaitCommand),
            ),
            (ActorState::Silencing { next: Some(location) }, ActorEvent::Silenced) => {
                let asked = location.clone();
                (ActorState::Starting { location }, Some(ActorAction::Start(asked)))
            },
            (
                ActorState::Starting { location },
                ActorEvent::StartFinished(StartOutcome::Started),
            ) => (ActorState::Playing { location }, Some(ActorAction::AwaitCommand)),
            (ActorState::Starting { .. }, ActorEvent::StartFinished(StartOutcome::Failed)) => (
                ActorState::Idle,
                Some(ActorAction::AwaitCommand),
            ),
            (unchanged, _) => (unchanged, None),
        };
        *self = next;
        action
    }
}

} // verus!
