//! Failures of toggling shuffle.

use crate::error::command::check::UserOnlyInError;
use crate::error::respond::RespondError;
use crate::error::lavalink::UpdateNowPlayingMessageError;
use crate::error::{InVoiceWithoutUser, NotInVoice};
use vstd::prelude::*;

verus! {

/// Toggling shuffle failed.
#[derive(Clone, Copy, Debug, PartialEq, Eq, Structural)]
pub enum ShuffleError {
    NotInVoice(NotInVoice),
    InVoiceWithoutUser(InVoiceWithoutUser),
    UserOnlyIn(UserOnlyInError),
    UpdateNowPlayingMessage(UpdateNowPlayingMessageError),
    Respond(RespondError),
}

} // verus!
