//! Failures of skipping the current track.

use crate::error::command::check::UsersTrackError;
use crate::error::command::require::UnsuppressedError;
use crate::error::respond::RespondError;
use crate::error::{InVoiceWithoutUser, LavalinkError, NotInVoice, NotPlaying};
use vstd::prelude::*;

verus! {

/// Skipping the current track failed.
#[derive(Clone, Copy, Debug, PartialEq, Eq, Structural)]
pub enum SkipError {
    NotPlaying(NotPlaying),
    NotInVoice(NotInVoice),
    Unsuppressed(UnsuppressedError),
    InVoiceWithoutUser(InVoiceWithoutUser),
    UsersTrackError(UsersTrackError),
    Respond(RespondError),
    Lavalink(LavalinkError),
}

} // verus!
