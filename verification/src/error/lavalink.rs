//! Failures around the audio server and the now-playing message.

use crate::error::respond::{DeserialiseBodyFromHttpError, RespondError};
use crate::error::{
    Cache, DeserializeBodyError, ImageError, ImageSourceUrlError, LavalinkError, ReqwestError,
    SqlxError, TimestampParseError, TwilightHttpError,
};
use vstd::prelude::*;

verus! {

/// The player does not yet exist.
#[derive(Clone, Copy, Debug, PartialEq, Eq, Structural)]
pub struct NoPlayerError;

/// Processing an event of the audio server failed.
#[derive(Clone, Copy, Debug, PartialEq, Eq, Structural)]
pub enum ProcessError {
    Lavalink(LavalinkError),
    TwilightHttp(TwilightHttpError),
    Sqlx(SqlxError),
    DeserialiseBody(DeserializeBodyError),
    DeserialiseBodyFromHttp(DeserialiseBodyFromHttpError),
    NewNowPlayingMessage(NewNowPlayingMessageError),
    NewNowPlayingData(NewNowPlayingDataError),
}

/// Gathering what the now-playing message shows failed.
#[derive(Clone, Copy, Debug, PartialEq, Eq, Structural)]
pub enum NewNowPlayingDataError {
    Cache(Cache),
    GetDominantPaletteFromUrl(GetDominantPaletteFromUrlError),
}

/// Building the embed of the now-playing message failed.
#[derive(Clone, Copy, Debug, PartialEq, Eq, Structural)]
pub enum BuildNowPlayingEmbedError {
    ImageSourceUrl(ImageSourceUrlError),
    TimestampParse(TimestampParseError),
}

/// Sending a new now-playing message failed.
#[derive(Clone, Copy, Debug, PartialEq, Eq, Structural)]
pub enum NewNowPlayingMessageError {
    TwilightHttp(TwilightHttpError),
    DeserialiseBody(DeserializeBodyError),
    DeserialiseBodyFromHttp(DeserialiseBodyFromHttpError),
    BuildNowPlayingEmbed(BuildNowPlayingEmbedError),
}

/// Updating the now-playing message failed.
#[derive(Clone, Copy, Debug, PartialEq, Eq, Structural)]
pub enum UpdateNowPlayingMessageError {
    BuildNowPlayingEmbed(BuildNowPlayingEmbedError),
    DeserialiseBodyFromHttp(DeserialiseBodyFromHttpError),
    Respond(RespondError),
    TwilightHttp(TwilightHttpError),
}

/// Finding the dominant colours of an image at a url failed.
#[derive(Clone, Copy, Debug, PartialEq, Eq, Structural)]
pub enum GetDominantPaletteFromUrlError {
    Reqwest(ReqwestError),
    Image(ImageError),
}

} // verus!
