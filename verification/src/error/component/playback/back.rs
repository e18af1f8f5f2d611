//! Failures of going back to the previous track.

use crate::error::command::check::UserOnlyInError;
use crate::error::command::require::UnsuppressedError;
use crate::error::respond::RespondError;
use crate::error::{InVoiceWithoutUser, LavalinkError, NotInVoice};
use vstd::prelude::*;

verus! {

/// Going back to the previous track failed.
#[derive(Clone, Copy, Debug, PartialEq, Eq, Structural)]
pub enum BackError {
    NotInVoice(NotInVoice),
    Unsuppressed(UnsuppressedError),
    InVoiceWithoutUser(InVoiceWithoutUser),
    UserOnlyIn(UserOnlyInError),
    Respond(RespondError),
    Lavalink(LavalinkError),
}

} // verus!
