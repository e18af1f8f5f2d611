//! Failures of the buttons of the now-playing message, and how they are
//! reduced to what decides the answer to the user.

pub use FlattenedControllerError as Fe;

use crate::error::command::{self, check, require};
use crate::error::component::{playback, queue};
use crate::error::respond::{DeserialiseBodyFromHttpError, RespondError};
use crate::error::lavalink::{BuildNowPlayingEmbedError, UpdateNowPlayingMessageError};
use crate::error::{
    InVoiceWithSomeoneElse, InVoiceWithoutUser, LavalinkError, NotUsersTrack, Suppressed,
};
use vstd::prelude::*;

verus! {

/// A button of the now-playing message failed.
#[derive(Clone, Copy, Debug, PartialEq, Eq, Structural)]
pub enum ControllerError {
    Shuffle(queue::shuffle::ShuffleError),
    Back(playback::back::BackError),
    PlayPause(playback::PlayPauseError),
    Skip(playback::skip::SkipError),
    Repeat(queue::repeat::RepeatError),
}

/// A failure of a button, reduced to what decides the answer to the user.
#[derive(Clone, Copy, Debug)]
pub enum FlattenedControllerError<'a> {
    NotInVoice,
    NotPlaying,
    UnrecognisedConnection,
    Cache,
    TwilightHttp,
    ImageSourceUrl,
    TimestampParse,
    DeserializeBody,
    Builder,
    InVoiceWithoutUser(&'a InVoiceWithoutUser),
    InVoiceWithSomeoneElse(&'a InVoiceWithSomeoneElse),
    Lavalink(&'a LavalinkError),
    Suppressed(&'a Suppressed),
    NotUsersTrack(&'a NotUsersTrack),
}

impl<'a> FlattenedControllerError<'a> {
    pub open spec fn spec_from_shuffle(error: &'a queue::shuffle::ShuffleError) -> Self {
        match error {
            queue::shuffle::ShuffleError::NotInVoice(_) => Self::NotInVoice,
            queue::shuffle::ShuffleError::InVoiceWithoutUser(e) => Self::InVoiceWithoutUser(e),
            queue::shuffle::ShuffleError::UserOnlyIn(e) => Self::spec_from_check_user_only_in(e),
            queue::shuffle::ShuffleError::UpdateNowPlayingMessage(e) => Self::spec_from_update_now_playing_message(e),
            queue::shuffle::ShuffleError::Respond(e) => Self::spec_from_respond(e),
        }
    }

    pub open spec fn spec_from_back(error: &'a playback::back::BackError) -> Self {
        match error {
            playback::back::BackError::NotInVoice(_) => Self::NotInVoice,
            playback::back::BackError::InVoiceWithoutUser(e) => Self::InVoiceWithoutUser(e),
            playback::back::BackError::Lavalink(e) => Self::Lavalink(e),
            playback::back::BackError::UserOnlyIn(e) => Self::spec_from_check_user_only_in(e),
            playback::back::BackError::Unsuppressed(e) => Self::spec_from_require_unsuppressed_error(e),
            playback::back::BackError::Respond(e) => Self::spec_from_respond(e),
        }
    }

    pub open spec fn spec_from_play_pause(error: &'a playback::PlayPauseError) -> Self {
        match error {
            playback::PlayPauseError::Lavalink(e) => Self::Lavalink(e),
            playback::PlayPauseError::NotInVoice(_) => Self::NotInVoice,
            playback::PlayPauseError::NotPlaying(_) => Self::NotPlaying,
            playback::PlayPauseError::InVoiceWithoutUser(e) => Self::InVoiceWithoutUser(e),
            playback::PlayPauseError::Respond(e) => Self::spec_from_respond(e),
            playback::PlayPauseError::SetPauseWith(e) => Self::spec_from_set_pause_with(e),
            playback::PlayPauseError::Unsuppressed(e) => Self::spec_from_require_unsuppressed_error(e),
            playback::PlayPauseError::UserOnlyIn(e) => Self::spec_from_check_user_only_in(e),
            playback::PlayPauseError::UsersTrack(e) => Self::spec_from_users_track_error(e),
        }
    }

    pub open spec fn spec_from_skip(error: &'a playback::skip::SkipError) -> Self {
        match error {
            playback::skip::SkipError::NotPlaying(_) => Self::NotPlaying,
            playback::skip::SkipError::NotInVoice(_) => Self::NotInVoice,
            playback::skip::SkipError::InVoiceWithoutUser(e) => Self::InVoiceWithoutUser(e),
            playback::skip::SkipError::Lavalink(e) => Self::Lavalink(e),
            playback::skip::SkipError::Unsuppressed(e) => Self::spec_from_require_unsuppressed_error(e),
            playback::skip::SkipError::UsersTrackError(e) => Self::spec_from_users_track_error(e),
            playback::skip::SkipError::Respond(e) => Self::spec_from_respond(e),
        }
    }

    pub open spec fn spec_from_repeat(error: &'a queue::repeat::RepeatError) -> Self {
        match error {
            queue::repeat::RepeatError::UnrecognisedConnection(_) => Self::UnrecognisedConnection,
            queue::repeat::RepeatError::NotInVoice(_) => Self::NotInVoice,
            queue::repeat::RepeatError::InVoiceWithoutUser(e) => Self::InVoiceWithoutUser(e),
            queue::repeat::RepeatError::UpdateNowPlayingMessage(e) => Self::spec_from_update_now_playing_message(e),
            queue::repeat::RepeatError::Respond(e) => Self::spec_from_respond(e),
            queue::repeat::RepeatError::UserOnlyIn(e) => Self::spec_from_check_user_only_in(e),
        }
    }

    pub open spec fn spec_from_check_user_only_in(error: &'a check::UserOnlyInError) -> Self {
        match error {
            check::UserOnlyInError::Cache(_) => Self::Cache,
            check::UserOnlyInError::InVoiceWithSomeoneElse(e) => Self::InVoiceWithSomeoneElse(e),
        }
    }

    pub open spec fn spec_from_update_now_playing_message(error: &'a UpdateNowPlayingMessageError) -> Self {
        match error {
            UpdateNowPlayingMessageError::TwilightHttp(_) => Self::TwilightHttp,
            UpdateNowPlayingMessageError::BuildNowPlayingEmbed(e) => Self::spec_from_build_now_playing_embed(e),
            UpdateNowPlayingMessageError::DeserialiseBodyFromHttp(e) => Self::spec_from_deserialize_body_from_http_error(e),
            UpdateNowPlayingMessageError::Respond(e) => Self::spec_from_respond(e),
        }
    }

    pub open spec fn spec_from_build_now_playing_embed(error: &'a BuildNowPlayingEmbedError) -> Self {
        match error {
            BuildNowPlayingEmbedError::ImageSourceUrl(_) => Self::ImageSourceUrl,
            BuildNowPlayingEmbedError::TimestampParse(_) => Self::TimestampParse,
        }
    }

    pub open spec fn spec_from_deserialize_body_from_http_error(error: &'a DeserialiseBodyFromHttpError) -> Self {
        match error {
            DeserialiseBodyFromHttpError::TwilightHttp(_) => Self::TwilightHttp,
            DeserialiseBodyFromHttpError::DeserializeBody(_) => Self::DeserializeBody,
        }
    }

    pub open spec fn spec_from_respond(error: &'a RespondError) -> Self {
        match error {
            RespondError::TwilightHttp(_) => Self::TwilightHttp,
            RespondError::Builder(_) => Self::Builder,
        }
    }

    pub open spec fn spec_from_require_unsuppressed_error(error: &'a require::UnsuppressedError) -> Self {
        match error {
            require::UnsuppressedError::Cache(_) => Self::Cache,
            require::UnsuppressedError::Suppressed(e) => Self::Suppressed(e),
        }
    }

    pub open spec fn spec_from_seek_to_with(error: &'a require::SeekToWithError) -> Self {
        match error {
            require::SeekToWithError::Lavalink(e) => Self::Lavalink(e),
            require::SeekToWithError::UpdateNowPlayingMessage(e) => Self::spec_from_update_now_playing_message(e),
        }
    }

    pub open spec fn spec_from_users_track_error(error: &'a check::UsersTrackError) -> Self {
        match error {
            check::UsersTrackError::Cache(_) => Self::Cache,
            check::UsersTrackError::NotUsersTrack(e) => Self::NotUsersTrack(e),
        }
    }

    pub open spec fn spec_from_set_pause_with(error: &'a require::SetPauseWithError) -> Self {
        Self::spec_from_seek_to_with(error)
    }

    fn from_shuffle(error: &'a queue::shuffle::ShuffleError) -> (r: Self)
        ensures
            r == Self::spec_from_shuffle(error),
    {
        match error {
            queue::shuffle::ShuffleError::NotInVoice(_) => Self::NotInVoice,
            queue::shuffle::ShuffleError::InVoiceWithoutUser(e) => Self::InVoiceWithoutUser(e),
            queue::shuffle::ShuffleError::UserOnlyIn(e) => Self::from_check_user_only_in(e),
            queue::shuffle::ShuffleError::UpdateNowPlayingMessage(e) => Self::from_update_now_playing_message(e),
            queue::shuffle::ShuffleError::Respond(e) => Self::from_respond(e),
        }
    }

    fn from_back(error: &'a playback::back::BackError) -> (r: Self)
        ensures
            r == Self::spec_from_back(error),
    {
        match error {
            playback::back::BackError::NotInVoice(_) => Self::NotInVoice,
            playback::back::BackError::InVoiceWithoutUser(e) => Self::InVoiceWithoutUser(e),
            playback::back::BackError::Lavalink(e) => Self::Lavalink(e),
            playback::back::BackError::UserOnlyIn(e) => Self::from_check_user_only_in(e),
            playback::back::BackError::Unsuppressed(e) => Self::from_require_unsuppressed_error(e),
            playback::back::BackError::Respond(e) => Self::from_respond(e),
        }
    }

    fn from_play_pause(error: &'a playback::PlayPauseError) -> (r: Self)
        ensures
            r == Self::spec_from_play_pause(error),
    {
        match error {
            playback::PlayPauseError::Lavalink(e) => Self::Lavalink(e),
            playback::PlayPauseError::NotInVoice(_) => Self::NotInVoice,
            playback::PlayPauseError::NotPlaying(_) => Self::NotPlaying,
            playback::PlayPauseError::InVoiceWithoutUser(e) => Self::InVoiceWithoutUser(e),
            playback::PlayPauseError::Respond(e) => Self::from_respond(e),
            playback::PlayPauseError::SetPauseWith(e) => Self::from_set_pause_with(e),
            playback::PlayPauseError::Unsuppressed(e) => Self::from_require_unsuppressed_error(e),
            playback::PlayPauseError::UserOnlyIn(e) => Self::from_check_user_only_in(e),
            playback::PlayPauseError::UsersTrack(e) => Self::from_users_track_error(e),
        }
    }

    fn from_skip(error: &'a playback::skip::SkipError) -> (r: Self)
        ensures
            r == Self::spec_from_skip(error),
    {
        match error {
            playback::skip::SkipError::NotPlaying(_) => Self::NotPlaying,
            playback::skip::SkipError::NotInVoice(_) => Self::NotInVoice,
            playback::skip::SkipError::InVoiceWithoutUser(e) => Self::InVoiceWithoutUser(e),
            playback::skip::SkipError::Lavalink(e) => Self::Lavalink(e),
            playback::skip::SkipError::Unsuppressed(e) => Self::from_require_unsuppressed_error(e),
            playback::skip::SkipError::UsersTrackError(e) => Self::from_users_track_error(e),
            playback::skip::SkipError::Respond(e) => Self::from_respond(e),
        }
    }

    fn from_repeat(error: &'a queue::repeat::RepeatError) -> (r: Self)
        ensures
            r == Self::spec_from_repeat(error),
    {
        match error {
            queue::repeat::RepeatError::UnrecognisedConnection(_) => Self::UnrecognisedConnection,
            queue::repeat::RepeatError::NotInVoice(_) => Self::NotInVoice,
            queue::repeat::RepeatError::InVoiceWithoutUser(e) => Self::InVoiceWithoutUser(e),
            queue::repeat::RepeatError::UpdateNowPlayingMessage(e) => Self::from_update_now_playing_message(e),
            queue::repeat::RepeatError::Respond(e) => Self::from_respond(e),
            queue::repeat::RepeatError::UserOnlyIn(e) => Self::from_check_user_only_in(e),
        }
    }

    fn from_check_user_only_in(error: &'a check::UserOnlyInError) -> (r: Self)
        ensures
            r == Self::spec_from_check_user_only_in(error),
    {
        match error {
            check::UserOnlyInError::Cache(_) => Self::Cache,
            check::UserOnlyInError::InVoiceWithSomeoneElse(e) => Self::InVoiceWithSomeoneElse(e),
        }
    }

    fn from_update_now_playing_message(error: &'a UpdateNowPlayingMessageError) -> (r: Self)
        ensures
            r == Self::spec_from_update_now_playing_message(error),
    {
        match error {
            UpdateNowPlayingMessageError::TwilightHttp(_) => Self::TwilightHttp,
            UpdateNowPlayingMessageError::BuildNowPlayingEmbed(e) => Self::from_build_now_playing_embed(e),
            UpdateNowPlayingMessageError::DeserialiseBodyFromHttp(e) => Self::from_deserialize_body_from_http_error(e),
            UpdateNowPlayingMessageError::Respond(e) => Self::from_respond(e),
        }
    }

    fn from_build_now_playing_embed(error: &'a BuildNowPlayingEmbedError) -> (r: Self)
        ensures
            r == Self::spec_from_build_now_playing_embed(error),
    {
        match error {
            BuildNowPlayingEmbedError::ImageSourceUrl(_) => Self::ImageSourceUrl,
            BuildNowPlayingEmbedError::TimestampParse(_) => Self::TimestampParse,
        }
    }

    fn from_deserialize_body_from_http_error(error: &'a DeserialiseBodyFromHttpError) -> (r: Self)
        ensures
            r == Self::spec_from_deserialize_body_from_http_error(error),
    {
        match error {
            DeserialiseBodyFromHttpError::TwilightHttp(_) => Self::TwilightHttp,
            DeserialiseBodyFromHttpError::DeserializeBody(_) => Self::DeserializeBody,
        }
    }

    fn from_respond(error: &'a RespondError) -> (r: Self)
        ensures
            r == Self::spec_from_respond(error),
    {
        match error {
            RespondError::TwilightHttp(_) => Self::TwilightHttp,
            RespondError::Builder(_) => Self::Builder,
        }
    }

    fn from_require_unsuppressed_error(error: &'a require::UnsuppressedError) -> (r: Self)
        ensures
            r == Self::spec_from_require_unsuppressed_error(error),
    {
        match error {
            require::UnsuppressedError::Cache(_) => Self::Cache,
            require::UnsuppressedError::Suppressed(e) => Self::Suppressed(e),
        }
    }

    fn from_seek_to_with(error: &'a require::SeekToWithError) -> (r: Self)
        ensures
            r == Self::spec_from_seek_to_with(error),
    {
        match error {
            require::SeekToWithError::Lavalink(e) => Self::Lavalink(e),
            require::SeekToWithError::UpdateNowPlayingMessage(e) => Self::from_update_now_playing_message(e),
        }
    }

    fn from_users_track_error(error: &'a check::UsersTrackError) -> (r: Self)
        ensures
            r == Self::spec_from_users_track_error(error),
    {
        match error {
            check::UsersTrackError::Cache(_) => Self::Cache,
            check::UsersTrackError::NotUsersTrack(e) => Self::NotUsersTrack(e),
        }
    }

    fn from_set_pause_with(error: &'a require::SetPauseWithError) -> (r: Self)
        ensures
            r == Self::spec_from_set_pause_with(error),
    {
        Self::from_seek_to_with(error)
    }
}

impl ControllerError {
    /// The kind of failure, as the answer to the user is chosen by it.
    pub open spec fn flattened(&self) -> FlattenedControllerError<'_> {
        match self {
            ControllerError::Shuffle(e) => Fe::spec_from_shuffle(e),
            ControllerError::Back(e) => Fe::spec_from_back(e),
            ControllerError::PlayPause(e) => Fe::spec_from_play_pause(e),
            ControllerError::Skip(e) => Fe::spec_from_skip(e),
            ControllerError::Repeat(e) => Fe::spec_from_repeat(e),
        }
    }

    /// Reduces the failure to what decides the answer to the user.
    pub fn flatten_as(&self) -> (r: FlattenedControllerError<'_>)
        ensures
            r == self.flattened(),
    {
        match self {
            Self::Shuffle(e) => Fe::from_shuffle(e),
            Self::Back(e) => Fe::from_back(e),
            Self::PlayPause(e) => Fe::from_play_pause(e),
            Self::Skip(e) => Fe::from_skip(e),
            Self::Repeat(e) => Fe::from_repeat(e),
        }
    }

    /// The failure of the audio server that this failure is reduced to.
    pub fn flatten_as_lavalink(&self) -> (r: &LavalinkError)
        requires
            self.flattened() is Lavalink,
        ensures
            self.flattened() == Fe::Lavalink(r),
    {
        match self.flatten_as() {
            Fe::Lavalink(e) => e,
            _ => unreached(),
        }
    }
}

impl<'a> FlattenedControllerError<'a> {
    /// The same kind of failure, as a command failure.
    pub open spec fn as_command_kind(self) -> command::FlattenedError<'a> {
        match self {
            Fe::NotInVoice => command::Fe::NotInVoice,
            Fe::NotPlaying => command::Fe::NotPlaying,
            Fe::UnrecognisedConnection => command::Fe::UnrecognisedConnection,
            Fe::Cache => command::Fe::Cache,
            Fe::TwilightHttp => command::Fe::TwilightHttp,
            Fe::ImageSourceUrl => command::Fe::ImageSourceUrl,
            Fe::TimestampParse => command::Fe::TimestampParse,
            Fe::DeserializeBody => command::Fe::DeserializeBody,
            Fe::Builder => command::Fe::Builder,
            Fe::InVoiceWithoutUser(e) => command::Fe::InVoiceWithoutUser(e),
            Fe::InVoiceWithSomeoneElse(e) => command::Fe::InVoiceWithSomeoneElse(e),
            Fe::Lavalink(e) => command::Fe::Lavalink(e),
            Fe::Suppressed(e) => command::Fe::Suppressed(e),
            Fe::NotUsersTrack(e) => command::Fe::NotUsersTrack(e),
        }
    }
}

impl ControllerError {
    /// The command failure that holds the same failure.
    pub open spec fn as_command_error(self) -> command::Error {
        match self {
            ControllerError::Shuffle(e) => command::Error::Shuffle(e),
            ControllerError::Back(e) => command::Error::Back(e),
            ControllerError::PlayPause(e) => command::Error::PlayPause(e),
            ControllerError::Skip(e) => command::Error::Skip(e),
            ControllerError::Repeat(e) => command::Error::Repeat(e),
        }
    }
}

/// A failure of a button is reduced to the same kind as the same failure of
/// the command that does what the button does.
pub proof fn lemma_controller_kind_agrees_with_command(error: ControllerError)
    ensures
        error.flattened().as_command_kind() == error.as_command_error().flattened(),
{
    match error {
        ControllerError::Shuffle(e) => match e {
            queue::shuffle::ShuffleError::UpdateNowPlayingMessage(u) => {
                lemma_update_now_playing_kind_agrees(u)
            },
            _ => {},
        },
        ControllerError::Back(_) => {},
        ControllerError::PlayPause(e) => match e {
            playback::PlayPauseError::SetPauseWith(p) => match p {
                require::SeekToWithError::UpdateNowPlayingMessage(u) => {
                    lemma_update_now_playing_kind_agrees(u)
                },
                _ => {},
            },
            _ => {},
        },
        ControllerError::Skip(_) => {},
        ControllerError::Repeat(e) => match e {
            queue::repeat::RepeatError::UpdateNowPlayingMessage(u) => {
                lemma_update_now_playing_kind_agrees(u)
            },
            _ => {},
        },
    }
}

proof fn lemma_update_now_playing_kind_agrees(error: UpdateNowPlayingMessageError)
    ensures
        Fe::spec_from_update_now_playing_message(&error).as_command_kind()
            == command::Fe::spec_from_update_now_playing_message(&error),
{
}

} // verus!
