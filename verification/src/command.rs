//! The commands that callers send to the playback actor.

use vstd::prelude::*;

verus! {

/// A request to the actor. A command is made once, sent once and taken once.
#[derive(Clone, Debug, PartialEq, Eq)]
pub enum AudioCommand {
    /// Play the clip at this location, in place of whatever sounds now.
    Play(String),
    /// Silence whatever sounds now.
    Stop,
}

/// A command as contracts see it: the location is the sequence of its
/// characters.
pub ghost enum CommandView {
    Play(Seq<char>),
    Stop,
}

impl View for AudioCommand {
    type V = CommandView;

    open spec fn view(&self) -> CommandView {
        match self {
            AudioCommand::Play(location) => CommandView::Play(location@),
            AudioCommand::Stop => CommandView::Stop,
        }
    }
}

} // verus!
