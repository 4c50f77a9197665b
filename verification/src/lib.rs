//! Single-flight playback of Zhuyin (Bopomofo) pronunciation clips.
//!
//! The crate holds the decisions of the player: which clip belongs to a
//! symbol, how long a clip is reported to last, what a caller is told, and
//! how the playback actor reacts to commands so that at most one clip sounds
//! at a time. Reading and decoding files, waiting on the channel and driving
//! the output device are left to the program around it, which reports what
//! it found as plain values.

pub mod actor;
pub mod assets;
pub mod command;
pub mod error;
pub mod flight;
pub mod probe;
pub mod submit;
pub mod symbols;

pub use actor::{ActorAction, ActorEvent, ActorState, StartOutcome};
pub use command::AudioCommand;
pub use error::AudioError;
pub use symbols::get_zhuyin_index;
