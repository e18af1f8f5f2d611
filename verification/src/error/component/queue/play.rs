//! Failures of playing and loading tracks.

use crate::error::command::require::UnsuppressedError;
use crate::error::command::util::AutoJoinOrCheckInVoiceWithUserError;
use crate::error::respond::RespondOrFollowupError;
use crate::error::lavalink::UpdateNowPlayingMessageError;
use crate::error::{LavalinkError, LoadFailed, TwilightHttpError};
use vstd::prelude::*;

verus! {

/// Loading several tracks failed.
#[derive(Clone, Debug, PartialEq, Eq)]
pub enum LoadTrackProcessManyError {
    Lavalink(LavalinkError),
    Query(QueryError),
}

/// A query for tracks gave nothing to play.
#[derive(Clone, Debug, PartialEq, Eq)]
pub enum QueryError {
    /// Loading the query failed
    LoadFailed(LoadFailed),
    /// No track matches the query
    NoMatches(String),
    /// The query gave search results, not tracks
    SearchResult(String),
}

/// Playing failed.
#[derive(Clone, Copy, Debug, PartialEq, Eq, Structural)]
pub enum Error {
    TwilightHttp(TwilightHttpError),
    RespondOrFollowup(RespondOrFollowupError),
    Lavalink(LavalinkError),
    HandleLoadTrackResults(HandleLoadTrackResultsError),
}

/// Enqueueing the loaded tracks failed.
#[derive(Clone, Copy, Debug, PartialEq, Eq, Structural)]
pub enum HandleLoadTrackResultsError {
    Lavalink(LavalinkError),
    RespondOrFollowup(RespondOrFollowupError),
    RequireUnsuppressed(UnsuppressedError),
    AutoJoinOrCheckInVoiceWithUser(AutoJoinOrCheckInVoiceWithUserError),
    UpdateNowPlayingMessage(UpdateNowPlayingMessageError),
}

} // verus!
