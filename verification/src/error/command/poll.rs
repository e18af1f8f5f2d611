//! Failures while a poll runs.

use crate::error::respond;
use crate::error::{
    Cache, DeserializeBodyError, EmbedValidationError, EventRecvError, ImageSourceUrlError,
    MessageValidationError, TwilightHttpError,
};
use vstd::prelude::*;

verus! {

/// Building the embed of a poll failed.
#[derive(Clone, Copy, Debug, PartialEq, Eq, Structural)]
pub enum GenerateEmbedError {
    ImageSourceUrl(ImageSourceUrlError),
    EmbedValidation(EmbedValidationError),
}

/// Updating the embed of a poll failed.
#[derive(Clone, Copy, Debug, PartialEq, Eq, Structural)]
pub enum UpdateEmbedError {
    Http(TwilightHttpError),
    EmbedValidation(EmbedValidationError),
    MessageValidation(MessageValidationError),
    Followup(respond::FollowupError),
    Respond(respond::RespondError),
}

/// Starting a poll failed.
#[derive(Clone, Copy, Debug, PartialEq, Eq, Structural)]
pub enum StartPollError {
    GenerateEmbed(GenerateEmbedError),
    Cache(Cache),
    DeserializeBody(DeserializeBodyError),
    WaitForVotes(WaitForVotesError),
    Respond(respond::RespondError),
    DeserialiseBodyFromHttp(respond::DeserialiseBodyFromHttpError),
}

/// Waiting for the votes of a poll failed.
#[derive(Clone, Copy, Debug, PartialEq, Eq, Structural)]
pub enum WaitForVotesError {
    Respond(respond::RespondError),
    UpdateEmbed(UpdateEmbedError),
    EventRecv(EventRecvError),
}

} // verus!
