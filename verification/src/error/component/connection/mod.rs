//! Failures of joining, leaving and watching voice channels.

pub mod join;
pub mod leave;

use crate::error::command::require::SetPauseWithError;
use crate::error::{
    Cache, EventSendError, GatewaySendError, LavalinkError, MessageValidationError,
    TwilightHttpError, UnrecognisedConnection,
};
use vstd::prelude::*;

verus! {

/// Starting the timeout that leaves an inactive voice channel failed.
#[derive(Clone, Copy, Debug, PartialEq, Eq, Structural)]
pub enum StartInactivityTimeoutError {
    EventSend(EventSendError),
    GatewaySend(GatewaySendError),
    MessageValidation(MessageValidationError),
    Http(TwilightHttpError),
    DisconnectCleanup(leave::DisconnectCleanupError),
    UnrecognisedConnection(UnrecognisedConnection),
}

/// Handling a change of voice state failed.
#[derive(Clone, Copy, Debug, PartialEq, Eq, Structural)]
pub enum HandleVoiceStateUpdateError {
    EventSend(EventSendError),
    Http(TwilightHttpError),
    MessageValidation(MessageValidationError),
    MatchStateChannelID(MatchStateChannelIdError),
    DisconnectCleanup(leave::DisconnectCleanupError),
    Lavalink(LavalinkError),
    SetPauseWith(SetPauseWithError),
}

/// Handling the voice channel of a changed voice state failed.
#[derive(Clone, Copy, Debug, PartialEq, Eq, Structural)]
pub enum MatchStateChannelIdError {
    Http(TwilightHttpError),
    MessageValidation(MessageValidationError),
    Cache(Cache),
    Lavalink(LavalinkError),
}

} // verus!
