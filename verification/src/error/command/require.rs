//! Failures of the requirements a command checks before it runs.

use crate::error::lavalink::UpdateNowPlayingMessageError;
use crate::error::{Cache, InVoiceWithoutSomeoneElse, LavalinkError, Suppressed};
use vstd::prelude::*;

verus! {

/// Requiring the bot to be heard failed.
#[derive(Clone, Copy, Debug, PartialEq, Eq, Structural)]
pub enum UnsuppressedError {
    Cache(Cache),
    Suppressed(Suppressed),
}

/// Requiring someone else in the voice channel failed.
#[derive(Clone, Copy, Debug, PartialEq, Eq, Structural)]
pub enum InVoiceWithSomeoneElseError {
    Cache(Cache),
    InVoiceWithoutSomeoneElse(InVoiceWithoutSomeoneElse),
}

/// Seeking in the current track failed.
#[derive(Clone, Copy, Debug, PartialEq, Eq, Structural)]
pub enum SeekToWithError {
    Lavalink(LavalinkError),
    UpdateNowPlayingMessage(UpdateNowPlayingMessageError),
}

/// Pausing or resuming fails as seeking does.
pub type SetPauseWithError = SeekToWithError;

} // verus!
