//! Failures of changing the repeat mode.

use crate::error::command::check::UserOnlyInError;
use crate::error::respond::RespondError;
use crate::error::lavalink::UpdateNowPlayingMessageError;
use crate::error::{InVoiceWithoutUser, NotInVoice, UnrecognisedConnection};
use vstd::prelude::*;

verus! {

/// Changing the repeat mode failed.
#[derive(Clone, Copy, Debug, PartialEq, Eq, Structural)]
pub enum RepeatError {
    UnrecognisedConnection(UnrecognisedConnection),
    NotInVoice(NotInVoice),
    InVoiceWithoutUser(InVoiceWithoutUser),
    UpdateNowPlayingMessage(UpdateNowPlayingMessageError),
    Respond(RespondError),
    UserOnlyIn(UserOnlyInError),
}

} // verus!
