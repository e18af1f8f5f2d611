//! Failures of the queue commands.

pub mod play;
pub mod repeat;
pub mod shuffle;

use crate::error::respond::{DeserialiseBodyFromHttpError, RespondError, RespondOrFollowupError};
use crate::error::lavalink::UpdateNowPlayingMessageError;
use crate::error::LavalinkError;
use vstd::prelude::*;

verus! {

/// Removing tracks from the queue failed.
#[derive(Clone, Copy, Debug, PartialEq, Eq, Structural)]
pub enum RemoveTracksError {
    Lavalink(LavalinkError),
    DeserialiseBodyFromHttp(DeserialiseBodyFromHttpError),
    UpdateNowPlayingMessage(UpdateNowPlayingMessageError),
    Respond(RespondError),
    RespondOrFollowup(RespondOrFollowupError),
}

} // verus!
