//! Failures of the playback commands.

pub mod back;
pub mod play_pause;
pub mod skip;

pub use play_pause::Error as PlayPauseError;

use crate::error::command::require::SetPauseWithError;
use crate::error::{LavalinkError, TwilightHttpError};
use vstd::prelude::*;

verus! {

/// Pausing or resuming on a change of voice state failed.
#[derive(Clone, Copy, Debug, PartialEq, Eq, Structural)]
pub enum HandleVoiceStateUpdateError {
    Lavalink(LavalinkError),
    TwilightHttp(TwilightHttpError),
    SetPauseWith(SetPauseWithError),
}

} // verus!
