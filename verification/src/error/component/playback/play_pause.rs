//! Failures of pausing and resuming.

use crate::error::command::check::{UserOnlyInError, UsersTrackError};
use crate::error::command::require::{SetPauseWithError, UnsuppressedError};
use crate::error::respond::RespondError;
use crate::error::{InVoiceWithoutUser, LavalinkError, NotInVoice, NotPlaying};
use vstd::prelude::*;

verus! {

/// Pausing or resuming failed.
#[derive(Clone, Copy, Debug, PartialEq, Eq, Structural)]
pub enum Error {
    NotInVoice(NotInVoice),
    Unsuppressed(UnsuppressedError),
    InVoiceWithoutUser(InVoiceWithoutUser),
    UserOnlyIn(UserOnlyInError),
    NotPlaying(NotPlaying),
    UsersTrack(UsersTrackError),
    Lavalink(LavalinkError),
    Respond(RespondError),
    SetPauseWith(SetPauseWithError),
}

} // verus!
