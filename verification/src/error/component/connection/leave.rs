//! Failures of leaving a voice channel.

use crate::error::command::check::UserOnlyInError;
use crate::error::{
    EventSendError, GatewaySendError, InVoiceWithoutUser, LavalinkError, NotInVoice,
    UnrecognisedConnection,
};
use vstd::prelude::*;

verus! {

/// Cleaning up before leaving a voice channel failed.
#[derive(Clone, Copy, Debug, PartialEq, Eq, Structural)]
pub enum DisconnectCleanupError {
    EventSend(EventSendError),
    Lavalink(LavalinkError),
}

/// Leaving a voice channel failed.
#[derive(Clone, Copy, Debug, PartialEq, Eq, Structural)]
pub enum Error {
    NotInVoice(NotInVoice),
    InVoiceWithoutUser(InVoiceWithoutUser),
    CheckUserOnlyIn(UserOnlyInError),
    DisconnectCleanup(DisconnectCleanupError),
    GatewaySend(GatewaySendError),
    UnrecognisedConnection(UnrecognisedConnection),
}

impl Error {
    /// Sets apart the failure of not being in a voice channel at all.
    pub fn match_not_in_voice_into(self) -> (r: NotInVoiceMatchedError)
        ensures
            r == match self {
                Error::NotInVoice(e) => NotInVoiceMatchedError::NotInVoice(e),
                Error::InVoiceWithoutUser(e) => NotInVoiceMatchedError::Other(
                    ResidualError::InVoiceWithoutUser(e),
                ),
                Error::CheckUserOnlyIn(e) => NotInVoiceMatchedError::Other(
                    ResidualError::CheckUserOnlyIn(e),
                ),
                Error::DisconnectCleanup(e) => NotInVoiceMatchedError::Other(
                    ResidualError::DisconnectCleanupError(e),
                ),
                Error::GatewaySend(e) => NotInVoiceMatchedError::Other(ResidualError::GatewaySend(e)),
                Error::UnrecognisedConnection(e) => NotInVoiceMatchedError::Other(
                    ResidualError::UnrecognisedConnection(e),
                ),
            },
    {
        match self {
            Self::NotInVoice(e) => NotInVoiceMatchedError::NotInVoice(e),
            Self::InVoiceWithoutUser(e) => NotInVoiceMatchedError::Other(
                ResidualError::InVoiceWithoutUser(e),
            ),
            Self::CheckUserOnlyIn(e) => NotInVoiceMatchedError::Other(
                ResidualError::CheckUserOnlyIn(e),
            ),
            Self::DisconnectCleanup(e) => NotInVoiceMatchedError::Other(
                ResidualError::DisconnectCleanupError(e),
            ),
            Self::GatewaySend(e) => NotInVoiceMatchedError::Other(ResidualError::GatewaySend(e)),
            Self::UnrecognisedConnection(e) => NotInVoiceMatchedError::Other(
                ResidualError::UnrecognisedConnection(e),
            ),
        }
    }
}

/// A leave failure, with not being in a voice channel set apart.
#[derive(Clone, Copy, Debug, PartialEq, Eq, Structural)]
pub enum NotInVoiceMatchedError {
    NotInVoice(NotInVoice),
    Other(ResidualError),
}

/// A failure of leaving other than not being in a voice channel.
#[derive(Clone, Copy, Debug, PartialEq, Eq, Structural)]
pub enum ResidualError {
    InVoiceWithoutUser(InVoiceWithoutUser),
    CheckUserOnlyIn(UserOnlyInError),
    DisconnectCleanupError(DisconnectCleanupError),
    GatewaySend(GatewaySendError),
    UnrecognisedConnection(UnrecognisedConnection),
}

} // verus!
