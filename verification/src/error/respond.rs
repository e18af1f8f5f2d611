//! Failures of the basic ways the bot answers.

use crate::error::{BuildError, DeserializeBodyError, MessageValidationError, TwilightHttpError};
use vstd::prelude::*;

verus! {

/// Creating a followup message failed.
#[derive(Clone, Copy, Debug, PartialEq, Eq, Structural)]
pub enum FollowupError {
    TwilightHttp(TwilightHttpError),
    MessageValidation(MessageValidationError),
}

/// Reading a model from an HTTP response failed.
#[derive(Clone, Copy, Debug, PartialEq, Eq, Structural)]
pub enum DeserialiseBodyFromHttpError {
    TwilightHttp(TwilightHttpError),
    DeserializeBody(DeserializeBodyError),
}

/// Registering the global commands failed.
#[derive(Clone, Copy, Debug, PartialEq, Eq, Structural)]
pub enum SetGlobalCommandsError {
    TwilightHttp(TwilightHttpError),
    DeserializeBody(DeserializeBodyError),
}

/// Responding to an interaction failed.
#[derive(Clone, Copy, Debug, PartialEq, Eq, Structural)]
pub enum RespondError {
    TwilightHttp(TwilightHttpError),
    Builder(BuildError),
}

/// Responding to an interaction, or following it up, failed.
#[derive(Clone, Copy, Debug, PartialEq, Eq, Structural)]
pub enum RespondOrFollowupError {
    Respond(RespondError),
    Followup(TwilightHttpError),
}

} // verus!
