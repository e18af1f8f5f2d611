//! Failures of commands, and how they are reduced to what decides the answer
//! given to the user.

pub mod check;
pub mod declare;
pub mod poll;
pub mod require;
pub mod util;

pub use FlattenedError as Fe;

use crate::error::{component, lavalink, respond};
use crate::error::{
    AutoJoinAttemptFailed, Cache, EmbedValidationError, InVoiceWithSomeoneElse,
    InVoiceWithoutSomeoneElse, InVoiceWithoutUser, LavalinkError, LoadFailed, NotInGuild,
    NotInVoice, NotPlaying, NotUsersTrack, Paused, PositionOutOfRange, QueueEmpty,
    QueueNotSeekable, SqlxError, Suppressed, TaskJoinError, TwilightHttpError,
    UnrecognisedConnection, UserNotAccessManager, UserNotDj,
};
use vstd::prelude::*;

verus! {

/// Creating a followup message failed.
#[derive(Clone, Copy, Debug, PartialEq, Eq, Structural)]
pub enum FollowupError {
    DeserialiseBodyFromHttp(respond::DeserialiseBodyFromHttpError),
    Followup(respond::FollowupError),
}

/// A command failed.
#[derive(Clone, Copy, Debug, PartialEq, Eq, Structural)]
pub enum Error {
    UserNotAccessManager(UserNotAccessManager),
    Sqlx(SqlxError),
    TaskJoin(TaskJoinError),
    EmbedValidation(EmbedValidationError),
    NotInVoice(NotInVoice),
    InVoiceWithoutUser(InVoiceWithoutUser),
    QueueEmpty(QueueEmpty),
    RequireUnsuppressed(require::UnsuppressedError),
    CheckUsersTrack(check::UsersTrackError),
    UserNotDj(UserNotDj),
    RequireInVoiceWithSomeoneElse(require::InVoiceWithSomeoneElseError),
    PositionOutOfRange(PositionOutOfRange),
    Leave(component::connection::leave::ResidualError),
    NoPlayer(lavalink::NoPlayerError),
    NotInGuild(NotInGuild),
    CheckUserOnlyIn(check::UserOnlyInError),
    Cache(Cache),
    NotPlaying(NotPlaying),
    Paused(Paused),
    UnrecognisedConnection(UnrecognisedConnection),
    NewNowPlayingData(lavalink::NewNowPlayingDataError),
    Lavalink(LavalinkError),
    Skip(component::playback::skip::SkipError),
    Back(component::playback::back::BackError),
    Shuffle(component::queue::shuffle::ShuffleError),
    Play(component::queue::play::Error),
    RemoveTracks(component::queue::RemoveTracksError),
    PromptForConfirmation(util::PromptForConfirmationError),
    TwilightHttp(TwilightHttpError),
    Join(component::connection::join::ResidualError),
    PlayPause(component::playback::PlayPauseError),
    Repeat(component::queue::repeat::RepeatError),
    UpdateNowPlayingMessage(lavalink::UpdateNowPlayingMessageError),
    SeekToWith(require::SeekToWithError),
    NewNowPlayingMessage(lavalink::NewNowPlayingMessageError),
    Respond(respond::RespondError),
}

/// A command failure reduced to what decides the answer to the user, with a
/// reference to the details that the answer shows.
#[derive(Clone, Copy, Debug)]
pub enum FlattenedError<'a> {
    InVoiceWithoutUser(&'a InVoiceWithoutUser),
    Suppressed(&'a Suppressed),
    NotUsersTrack(&'a NotUsersTrack),
    InVoiceWithoutSomeoneElse(&'a InVoiceWithoutSomeoneElse),
    InVoiceWithSomeoneElse(&'a InVoiceWithSomeoneElse),
    QueueNotSeekable(&'a QueueNotSeekable),
    AnotherPollOngoing(&'a check::AnotherPollOngoingError),
    PositionOutOfRange(&'a PositionOutOfRange),
    PollLoss(&'a check::PollLossError),
    PollVoided(&'a check::PollVoidedError),
    AutoJoinSuppressed(&'a util::AutoJoinSuppressedError),
    AutoJoinAttemptFailed(&'a AutoJoinAttemptFailed),
    UserNotAccessManager,
    Sqlx,
    TaskJoin,
    EmbedValidation,
    NotInVoice,
    QueueEmpty,
    Cache,
    UserNotDj,
    NotPlaying,
    Paused,
    Stopped,
    TwilightHttp,
    DeserializeBody,
    EventSend,
    EventRecv,
    ImageSourceUrl,
    MessageValidation,
    StandbyCanceled,
    ConfirmationTimedOut,
    GatewaySend,
    Lavalink(&'a LavalinkError),
    NoPlayer,
    NotInGuild,
    UnrecognisedConnection,
    TimestampParse,
    GetDominantPaletteFromUrl,
    Builder,
}

impl<'a> FlattenedError<'a> {
    pub open spec fn spec_from_require_unsuppressed_error(error: &'a require::UnsuppressedError) -> Self {
        match error {
            require::UnsuppressedError::Cache(_) => Self::Cache,
            require::UnsuppressedError::Suppressed(e) => Self::Suppressed(e),
        }
    }

    pub open spec fn spec_from_deserialize_body_from_http_error(error: &'a respond::DeserialiseBodyFromHttpError) -> Self {
        match error {
            respond::DeserialiseBodyFromHttpError::TwilightHttp(_) => Self::TwilightHttp,
            respond::DeserialiseBodyFromHttpError::DeserializeBody(_) => Self::DeserializeBody,
        }
    }

    pub open spec fn spec_from_users_track_error(error: &'a check::UsersTrackError) -> Self {
        match error {
            check::UsersTrackError::Cache(_) => Self::Cache,
            check::UsersTrackError::NotUsersTrack(e) => Self::NotUsersTrack(e),
        }
    }

    pub open spec fn spec_from_require_in_voice_with_someone_else_error(error: &'a require::InVoiceWithSomeoneElseError) -> Self {
        match error {
            require::InVoiceWithSomeoneElseError::Cache(_) => Self::Cache,
            require::InVoiceWithSomeoneElseError::InVoiceWithoutSomeoneElse(e) => Self::InVoiceWithoutSomeoneElse(e),
        }
    }

    pub open spec fn spec_from_respond(error: &'a respond::RespondError) -> Self {
        match error {
            respond::RespondError::TwilightHttp(_) => Self::TwilightHttp,
            respond::RespondError::Builder(_) => Self::Builder,
        }
    }

    pub open spec fn spec_from_respond_or_followup(error: &'a respond::RespondOrFollowupError) -> Self {
        match error {
            respond::RespondOrFollowupError::Respond(e) => Self::spec_from_respond(e),
            respond::RespondOrFollowupError::Followup(_) => Self::TwilightHttp,
        }
    }

    pub open spec fn spec_from_prompt_for_confirmation(error: &'a util::PromptForConfirmationError) -> Self {
        match error {
            util::PromptForConfirmationError::StandbyCanceled(_) => Self::StandbyCanceled,
            util::PromptForConfirmationError::ConfirmationTimedout(_) => Self::ConfirmationTimedOut,
            util::PromptForConfirmationError::Respond(e) => Self::spec_from_respond(e),
        }
    }

    pub open spec fn spec_from_access_calculator_build(error: &'a check::AccessCalculatorBuildError) -> Self {
        match error {
            check::AccessCalculatorBuildError::Sqlx(_) => Self::Sqlx,
            check::AccessCalculatorBuildError::TaskJoin(_) => Self::TaskJoin,
        }
    }

    pub open spec fn spec_from_check_user_only_in(error: &'a check::UserOnlyInError) -> Self {
        match error {
            check::UserOnlyInError::Cache(_) => Self::Cache,
            check::UserOnlyInError::InVoiceWithSomeoneElse(e) => Self::InVoiceWithSomeoneElse(e),
        }
    }

    pub open spec fn spec_from_check_user_allowed_residual(error: &'a component::connection::join::ResidualUserAllowedError) -> Self {
        match error {
            component::connection::join::ResidualUserAllowedError::AccessCalculatorBuild(e) => Self::spec_from_access_calculator_build(e),
        }
    }

    pub open spec fn spec_from_impl_connect_to_residual(error: &'a component::connection::join::ResidualImplConnectToError) -> Self {
        match error {
            component::connection::join::ResidualImplConnectToError::Cache(_) => Self::Cache,
            component::connection::join::ResidualImplConnectToError::GatewaySend(_) => Self::GatewaySend,
            component::connection::join::ResidualImplConnectToError::TwilightHttp(_) => Self::TwilightHttp,
            component::connection::join::ResidualImplConnectToError::Lavalink(e) => Self::Lavalink(e),
            component::connection::join::ResidualImplConnectToError::UnrecognisedConnection(_) => Self::UnrecognisedConnection,
            component::connection::join::ResidualImplConnectToError::CheckUserAllowed(e) => Self::spec_from_check_user_allowed_residual(e),
        }
    }

    pub open spec fn spec_from_connect_to_residual(error: &'a component::connection::join::ResidualConnectToError) -> Self {
        match error {
            component::connection::join::ResidualConnectToError::CheckUserOnlyIn(e) => Self::spec_from_check_user_only_in(e),
            component::connection::join::ResidualConnectToError::ImplConnectTo(e) => Self::spec_from_impl_connect_to_residual(e),
        }
    }

    pub open spec fn spec_from_get_users_voice_channel_residual(error: &'a component::connection::join::ResidualGetUsersVoiceChannelError) -> Self {
        match error {
            component::connection::join::ResidualGetUsersVoiceChannelError::Cache(_) => Self::Cache,
        }
    }

    pub open spec fn spec_from_impl_join_residual(error: &'a component::connection::join::ResidualImplJoinError) -> Self {
        match error {
            component::connection::join::ResidualImplJoinError::GetUsersVoiceChannel(e) => Self::spec_from_get_users_voice_channel_residual(e),
            component::connection::join::ResidualImplJoinError::ConnectTo(e) => Self::spec_from_connect_to_residual(e),
        }
    }

    pub open spec fn spec_from_handle_response(error: &'a component::connection::join::HandleResponseError) -> Self {
        match error {
            component::connection::join::HandleResponseError::Cache(_) => Self::Cache,
            component::connection::join::HandleResponseError::RespondOrFollowup(e) => Self::spec_from_respond_or_followup(e),
            component::connection::join::HandleResponseError::Respond(e) => Self::spec_from_respond(e),
            component::connection::join::HandleResponseError::DeserialiseBodyFromHttp(e) => Self::spec_from_deserialize_body_from_http_error(e),
        }
    }

    pub open spec fn spec_from_join_residual(error: &'a component::connection::join::ResidualError) -> Self {
        match error {
            component::connection::join::ResidualError::ImplJoin(e) => Self::spec_from_impl_join_residual(e),
            component::connection::join::ResidualError::HandleResponse(e) => Self::spec_from_handle_response(e),
        }
    }

    pub open spec fn spec_from_pre_disconnect_cleanup(error: &'a component::connection::leave::DisconnectCleanupError) -> Self {
        match error {
            component::connection::leave::DisconnectCleanupError::EventSend(_) => Self::EventSend,
            component::connection::leave::DisconnectCleanupError::Lavalink(e) => Self::Lavalink(e),
        }
    }

    pub open spec fn spec_from_leave_residual(error: &'a component::connection::leave::ResidualError) -> Self {
        match error {
            component::connection::leave::ResidualError::GatewaySend(_) => Self::GatewaySend,
            component::connection::leave::ResidualError::UnrecognisedConnection(_) => Self::UnrecognisedConnection,
            component::connection::leave::ResidualError::InVoiceWithoutUser(e) => Self::InVoiceWithoutUser(e),
            component::connection::leave::ResidualError::CheckUserOnlyIn(e) => Self::spec_from_check_user_only_in(e),
            component::connection::leave::ResidualError::DisconnectCleanupError(e) => Self::spec_from_pre_disconnect_cleanup(e),
        }
    }

    pub open spec fn spec_from_handle_suppressed_auto_join(error: &'a util::HandleSuppressedAutoJoinError) -> Self {
        match error {
            util::HandleSuppressedAutoJoinError::DeserializeBody(_) => Self::DeserializeBody,
            util::HandleSuppressedAutoJoinError::AutoJoinSuppressed(e) => Self::AutoJoinSuppressed(e),
            util::HandleSuppressedAutoJoinError::Respond(e) => Self::spec_from_respond(e),
        }
    }

    pub open spec fn spec_from_get_users_voice_channel_residual_2(error: &'a util::ResidualGetUsersVoiceChannelError) -> Self {
        match error {
            util::ResidualGetUsersVoiceChannelError::Cache(_) => Self::Cache,
        }
    }

    pub open spec fn spec_from_check_user_allowed_residual_2(error: &'a util::ResidualUserAllowedError) -> Self {
        match error {
            util::ResidualUserAllowedError::AccessCalculatorBuild(e) => Self::spec_from_access_calculator_build(e),
        }
    }

    pub open spec fn spec_from_impl_connect_to_residual_2(error: &'a util::ResidualImplConnectToError) -> Self {
        match error {
            util::ResidualImplConnectToError::Lavalink(e) => Self::Lavalink(e),
            util::ResidualImplConnectToError::Cache(_) => Self::Cache,
            util::ResidualImplConnectToError::GatewaySend(_) => Self::GatewaySend,
            util::ResidualImplConnectToError::TwilightHttp(_) => Self::TwilightHttp,
            util::ResidualImplConnectToError::CheckUserAllowed(e) => Self::spec_from_check_user_allowed_residual_2(e),
        }
    }

    pub open spec fn spec_from_connect_to_new_residual(error: &'a util::ResidualConnectToNewError) -> Self {
        match error {
            util::ResidualConnectToNewError::ImplConnectTo(e) => Self::spec_from_impl_connect_to_residual_2(e),
        }
    }

    pub open spec fn spec_from_impl_auto_join_residual(error: &'a util::ResidualImplAutoJoinError) -> Self {
        match error {
            util::ResidualImplAutoJoinError::GetUsersVoiceChannel(e) => Self::spec_from_get_users_voice_channel_residual_2(e),
            util::ResidualImplAutoJoinError::ConnectToNew(e) => Self::spec_from_connect_to_new_residual(e),
        }
    }

    pub open spec fn spec_from_auto_join_attempt(error: &'a util::AutoJoinAttemptError) -> Self {
        match error {
            util::AutoJoinAttemptError::Failed(e) => Self::AutoJoinAttemptFailed(e),
            util::AutoJoinAttemptError::ImplAutoJoin(e) => Self::spec_from_impl_auto_join_residual(e),
            util::AutoJoinAttemptError::HandleResponse(e) => Self::spec_from_handle_response(e),
        }
    }

    pub open spec fn spec_from_auto_join_or_check_in_voice_with_user(error: &'a util::AutoJoinOrCheckInVoiceWithUserError) -> Self {
        match error {
            util::AutoJoinOrCheckInVoiceWithUserError::InVoiceWithoutUser(e) => Self::InVoiceWithoutUser(e),
            util::AutoJoinOrCheckInVoiceWithUserError::RequireUnsuppressed(e) => Self::spec_from_require_unsuppressed_error(e),
            util::AutoJoinOrCheckInVoiceWithUserError::HandleSuppressedAutoJoin(e) => Self::spec_from_handle_suppressed_auto_join(e),
            util::AutoJoinOrCheckInVoiceWithUserError::AutoJoinAttempt(e) => Self::spec_from_auto_join_attempt(e),
        }
    }

    pub open spec fn spec_from_play(error: &'a component::queue::play::Error) -> Self {
        match error {
            component::queue::play::Error::TwilightHttp(_) => Self::TwilightHttp,
            component::queue::play::Error::Lavalink(e) => Self::Lavalink(e),
            component::queue::play::Error::RespondOrFollowup(e) => Self::spec_from_respond_or_followup(e),
            component::queue::play::Error::HandleLoadTrackResults(e) => Self::spec_from_handle_load_track_results(e),
        }
    }

    pub open spec fn spec_from_handle_load_track_results(error: &'a component::queue::play::HandleLoadTrackResultsError) -> Self {
        match error {
            component::queue::play::HandleLoadTrackResultsError::Lavalink(e) => Self::Lavalink(e),
            component::queue::play::HandleLoadTrackResultsError::RespondOrFollowup(e) => Self::spec_from_respond_or_followup(e),
            component::queue::play::HandleLoadTrackResultsError::RequireUnsuppressed(e) => Self::spec_from_require_unsuppressed_error(e),
            component::queue::play::HandleLoadTrackResultsError::AutoJoinOrCheckInVoiceWithUser(e) => Self::spec_from_auto_join_or_check_in_voice_with_user(e),
            component::queue::play::HandleLoadTrackResultsError::UpdateNowPlayingMessage(e) => Self::spec_from_update_now_playing_message(e),
        }
    }

    pub open spec fn spec_from_remove_tracks(error: &'a component::queue::RemoveTracksError) -> Self {
        match error {
            component::queue::RemoveTracksError::Lavalink(e) => Self::Lavalink(e),
            component::queue::RemoveTracksError::DeserialiseBodyFromHttp(e) => Self::spec_from_deserialize_body_from_http_error(e),
            component::queue::RemoveTracksError::UpdateNowPlayingMessage(e) => Self::spec_from_update_now_playing_message(e),
            component::queue::RemoveTracksError::Respond(e) => Self::spec_from_respond(e),
            component::queue::RemoveTracksError::RespondOrFollowup(e) => Self::spec_from_respond_or_followup(e),
        }
    }

    pub open spec fn spec_from_play_pause(error: &'a component::playback::PlayPauseError) -> Self {
        match error {
            component::playback::PlayPauseError::Lavalink(e) => Self::Lavalink(e),
            component::playback::PlayPauseError::NotInVoice(_) => Self::NotInVoice,
            component::playback::PlayPauseError::NotPlaying(_) => Self::NotPlaying,
            component::playback::PlayPauseError::InVoiceWithoutUser(e) => Self::InVoiceWithoutUser(e),
            component::playback::PlayPauseError::Respond(e) => Self::spec_from_respond(e),
            component::playback::PlayPauseError::SetPauseWith(e) => Self::spec_from_set_pause_with(e),
            component::playback::PlayPauseError::Unsuppressed(e) => Self::spec_from_require_unsuppressed_error(e),
            component::playback::PlayPauseError::UserOnlyIn(e) => Self::spec_from_check_user_only_in(e),
            component::playback::PlayPauseError::UsersTrack(e) => Self::spec_from_users_track_error(e),
        }
    }

    pub open spec fn spec_from_back(error: &'a component::playback::back::BackError) -> Self {
        match error {
            component::playback::back::BackError::NotInVoice(_) => Self::NotInVoice,
            component::playback::back::BackError::InVoiceWithoutUser(e) => Self::InVoiceWithoutUser(e),
            component::playback::back::BackError::Lavalink(e) => Self::Lavalink(e),
            component::playback::back::BackError::UserOnlyIn(e) => Self::spec_from_check_user_only_in(e),
            component::playback::back::BackError::Unsuppressed(e) => Self::spec_from_require_unsuppressed_error(e),
            component::playback::back::BackError::Respond(e) => Self::spec_from_respond(e),
        }
    }

    pub open spec fn spec_from_skip(error: &'a component::playback::skip::SkipError) -> Self {
        match error {
            component::playback::skip::SkipError::NotPlaying(_) => Self::NotPlaying,
            component::playback::skip::SkipError::NotInVoice(_) => Self::NotInVoice,
            component::playback::skip::SkipError::InVoiceWithoutUser(e) => Self::InVoiceWithoutUser(e),
            component::playback::skip::SkipError::Lavalink(e) => Self::Lavalink(e),
            component::playback::skip::SkipError::Unsuppressed(e) => Self::spec_from_require_unsuppressed_error(e),
            component::playback::skip::SkipError::UsersTrackError(e) => Self::spec_from_users_track_error(e),
            component::playback::skip::SkipError::Respond(e) => Self::spec_from_respond(e),
        }
    }

    pub open spec fn spec_from_shuffle(error: &'a component::queue::shuffle::ShuffleError) -> Self {
        match error {
            component::queue::shuffle::ShuffleError::NotInVoice(_) => Self::NotInVoice,
            component::queue::shuffle::ShuffleError::InVoiceWithoutUser(e) => Self::InVoiceWithoutUser(e),
            component::queue::shuffle::ShuffleError::UserOnlyIn(e) => Self::spec_from_check_user_only_in(e),
            component::queue::shuffle::ShuffleError::UpdateNowPlayingMessage(e) => Self::spec_from_update_now_playing_message(e),
            component::queue::shuffle::ShuffleError::Respond(e) => Self::spec_from_respond(e),
        }
    }

    pub open spec fn spec_from_repeat(error: &'a component::queue::repeat::RepeatError) -> Self {
        match error {
            component::queue::repeat::RepeatError::UnrecognisedConnection(_) => Self::UnrecognisedConnection,
            component::queue::repeat::RepeatError::NotInVoice(_) => Self::NotInVoice,
            component::queue::repeat::RepeatError::InVoiceWithoutUser(e) => Self::InVoiceWithoutUser(e),
            component::queue::repeat::RepeatError::UpdateNowPlayingMessage(e) => Self::spec_from_update_now_playing_message(e),
            component::queue::repeat::RepeatError::Respond(e) => Self::spec_from_respond(e),
            component::queue::repeat::RepeatError::UserOnlyIn(e) => Self::spec_from_check_user_only_in(e),
        }
    }

    pub open spec fn spec_from_update_now_playing_message(error: &'a lavalink::UpdateNowPlayingMessageError) -> Self {
        match error {
            lavalink::UpdateNowPlayingMessageError::BuildNowPlayingEmbed(e) => Self::spec_from_build_now_playing_embed(e),
            lavalink::UpdateNowPlayingMessageError::DeserialiseBodyFromHttp(e) => Self::spec_from_deserialize_body_from_http_error(e),
            lavalink::UpdateNowPlayingMessageError::Respond(e) => Self::spec_from_respond(e),
            lavalink::UpdateNowPlayingMessageError::TwilightHttp(_) => Self::TwilightHttp,
        }
    }

    pub open spec fn spec_from_build_now_playing_embed(error: &'a lavalink::BuildNowPlayingEmbedError) -> Self {
        match error {
            lavalink::BuildNowPlayingEmbedError::ImageSourceUrl(_) => Self::ImageSourceUrl,
            lavalink::BuildNowPlayingEmbedError::TimestampParse(_) => Self::TimestampParse,
        }
    }

    pub open spec fn spec_from_seek_to_with(error: &'a require::SeekToWithError) -> Self {
        match error {
            require::SeekToWithError::Lavalink(e) => Self::Lavalink(e),
            require::SeekToWithError::UpdateNowPlayingMessage(e) => Self::spec_from_update_now_playing_message(e),
        }
    }

    pub open spec fn spec_from_new_now_playing_data(error: &'a lavalink::NewNowPlayingDataError) -> Self {
        match error {
            lavalink::NewNowPlayingDataError::Cache(_) => Self::Cache,
            lavalink::NewNowPlayingDataError::GetDominantPaletteFromUrl(_) => Self::GetDominantPaletteFromUrl,
        }
    }

    pub open spec fn spec_from_new_now_playing_message(error: &'a lavalink::NewNowPlayingMessageError) -> Self {
        match error {
            lavalink::NewNowPlayingMessageError::TwilightHttp(_) => Self::TwilightHttp,
            lavalink::NewNowPlayingMessageError::DeserialiseBody(_) => Self::DeserializeBody,
            lavalink::NewNowPlayingMessageError::DeserialiseBodyFromHttp(e) => Self::spec_from_deserialize_body_from_http_error(e),
            lavalink::NewNowPlayingMessageError::BuildNowPlayingEmbed(e) => Self::spec_from_build_now_playing_embed(e),
        }
    }

    pub open spec fn spec_from_set_pause_with(error: &'a require::SetPauseWithError) -> Self {
        Self::spec_from_seek_to_with(error)
    }

    fn from_require_unsuppressed_error(error: &'a require::UnsuppressedError) -> (r: Self)
        ensures
            r == Self::spec_from_require_unsuppressed_error(error),
    {
        match error {
            require::UnsuppressedError::Cache(_) => Self::Cache,
            require::UnsuppressedError::Suppressed(e) => Self::Suppressed(e),
        }
    }

    fn from_deserialize_body_from_http_error(error: &'a respond::DeserialiseBodyFromHttpError) -> (r: Self)
        ensures
            r == Self::spec_from_deserialize_body_from_http_error(error),
    {
        match error {
            respond::DeserialiseBodyFromHttpError::TwilightHttp(_) => Self::TwilightHttp,
            respond::DeserialiseBodyFromHttpError::DeserializeBody(_) => Self::DeserializeBody,
        }
    }

    fn from_users_track_error(error: &'a check::UsersTrackError) -> (r: Self)
        ensures
            r == Self::spec_from_users_track_error(error),
    {
        match error {
            check::UsersTrackError::Cache(_) => Self::Cache,
            check::UsersTrackError::NotUsersTrack(e) => Self::NotUsersTrack(e),
        }
    }

    fn from_require_in_voice_with_someone_else_error(error: &'a require::InVoiceWithSomeoneElseError) -> (r: Self)
        ensures
            r == Self::spec_from_require_in_voice_with_someone_else_error(error),
    {
        match error {
            require::InVoiceWithSomeoneElseError::Cache(_) => Self::Cache,
            require::InVoiceWithSomeoneElseError::InVoiceWithoutSomeoneElse(e) => Self::InVoiceWithoutSomeoneElse(e),
        }
    }

    fn from_respond(error: &'a respond::RespondError) -> (r: Self)
        ensures
            r == Self::spec_from_respond(error),
    {
        match error {
            respond::RespondError::TwilightHttp(_) => Self::TwilightHttp,
            respond::RespondError::Builder(_) => Self::Builder,
        }
    }

    fn from_respond_or_followup(error: &'a respond::RespondOrFollowupError) -> (r: Self)
        ensures
            r == Self::spec_from_respond_or_followup(error),
    {
        match error {
            respond::RespondOrFollowupError::Respond(e) => Self::from_respond(e),
            respond::RespondOrFollowupError::Followup(_) => Self::TwilightHttp,
        }
    }

    fn from_prompt_for_confirmation(error: &'a util::PromptForConfirmationError) -> (r: Self)
        ensures
            r == Self::spec_from_prompt_for_confirmation(error),
    {
        match error {
            util::PromptForConfirmationError::StandbyCanceled(_) => Self::StandbyCanceled,
            util::PromptForConfirmationError::ConfirmationTimedout(_) => Self::ConfirmationTimedOut,
            util::PromptForConfirmationError::Respond(e) => Self::from_respond(e),
        }
    }

    fn from_access_calculator_build(error: &'a check::AccessCalculatorBuildError) -> (r: Self)
        ensures
            r == Self::spec_from_access_calculator_build(error),
    {
        match error {
            check::AccessCalculatorBuildError::Sqlx(_) => Self::Sqlx,
            check::AccessCalculatorBuildError::TaskJoin(_) => Self::TaskJoin,
        }
    }

    fn from_check_user_only_in(error: &'a check::UserOnlyInError) -> (r: Self)
        ensures
            r == Self::spec_from_check_user_only_in(error),
    {
        match error {
            check::UserOnlyInError::Cache(_) => Self::Cache,
            check::UserOnlyInError::InVoiceWithSomeoneElse(e) => Self::InVoiceWithSomeoneElse(e),
        }
    }

    fn from_check_user_allowed_residual(error: &'a component::connection::join::ResidualUserAllowedError) -> (r: Self)
        ensures
            r == Self::spec_from_check_user_allowed_residual(error),
    {
        match error {
            component::connection::join::ResidualUserAllowedError::AccessCalculatorBuild(e) => Self::from_access_calculator_build(e),
        }
    }

    fn from_impl_connect_to_residual(error: &'a component::connection::join::ResidualImplConnectToError) -> (r: Self)
        ensures
            r == Self::spec_from_impl_connect_to_residual(error),
    {
        match error {
            component::connection::join::ResidualImplConnectToError::Cache(_) => Self::Cache,
            component::connection::join::ResidualImplConnectToError::GatewaySend(_) => Self::GatewaySend,
            component::connection::join::ResidualImplConnectToError::TwilightHttp(_) => Self::TwilightHttp,
            component::connection::join::ResidualImplConnectToError::Lavalink(e) => Self::Lavalink(e),
            component::connection::join::ResidualImplConnectToError::UnrecognisedConnection(_) => Self::UnrecognisedConnection,
            component::connection::join::ResidualImplConnectToError::CheckUserAllowed(e) => Self::from_check_user_allowed_residual(e),
        }
    }

    fn from_connect_to_residual(error: &'a component::connection::join::ResidualConnectToError) -> (r: Self)
        ensures
            r == Self::spec_from_connect_to_residual(error),
    {
        match error {
            component::connection::join::ResidualConnectToError::CheckUserOnlyIn(e) => Self::from_check_user_only_in(e),
            component::connection::join::ResidualConnectToError::ImplConnectTo(e) => Self::from_impl_connect_to_residual(e),
        }
    }

    fn from_get_users_voice_channel_residual(error: &'a component::connection::join::ResidualGetUsersVoiceChannelError) -> (r: Self)
        ensures
            r == Self::spec_from_get_users_voice_channel_residual(error),
    {
        match error {
            component::connection::join::ResidualGetUsersVoiceChannelError::Cache(_) => Self::Cache,
        }
    }

    fn from_impl_join_residual(error: &'a component::connection::join::ResidualImplJoinError) -> (r: Self)
        ensures
            r == Self::spec_from_impl_join_residual(error),
    {
        match error {
            component::connection::join::ResidualImplJoinError::GetUsersVoiceChannel(e) => Self::from_get_users_voice_channel_residual(e),
            component::connection::join::ResidualImplJoinError::ConnectTo(e) => Self::from_connect_to_residual(e),
        }
    }

    fn from_handle_response(error: &'a component::connection::join::HandleResponseError) -> (r: Self)
        ensures
            r == Self::spec_from_handle_response(error),
    {
        match error {
            component::connection::join::HandleResponseError::Cache(_) => Self::Cache,
            component::connection::join::HandleResponseError::RespondOrFollowup(e) => Self::from_respond_or_followup(e),
            component::connection::join::HandleResponseError::Respond(e) => Self::from_respond(e),
            component::connection::join::HandleResponseError::DeserialiseBodyFromHttp(e) => Self::from_deserialize_body_from_http_error(e),
        }
    }

    fn from_join_residual(error: &'a component::connection::join::ResidualError) -> (r: Self)
        ensures
            r == Self::spec_from_join_residual(error),
    {
        match error {
            component::connection::join::ResidualError::ImplJoin(e) => Self::from_impl_join_residual(e),
            component::connection::join::ResidualError::HandleResponse(e) => Self::from_handle_response(e),
        }
    }

    fn from_pre_disconnect_cleanup(error: &'a component::connection::leave::DisconnectCleanupError) -> (r: Self)
        ensures
            r == Self::spec_from_pre_disconnect_cleanup(error),
    {
        match error {
            component::connection::leave::DisconnectCleanupError::EventSend(_) => Self::EventSend,
            component::connection::leave::DisconnectCleanupError::Lavalink(e) => Self::Lavalink(e),
        }
    }

    fn from_leave_residual(error: &'a component::connection::leave::ResidualError) -> (r: Self)
        ensures
            r == Self::spec_from_leave_residual(error),
    {
        match error {
            component::connection::leave::ResidualError::GatewaySend(_) => Self::GatewaySend,
            component::connection::leave::ResidualError::UnrecognisedConnection(_) => Self::UnrecognisedConnection,
            component::connection::leave::ResidualError::InVoiceWithoutUser(e) => Self::InVoiceWithoutUser(e),
            component::connection::leave::ResidualError::CheckUserOnlyIn(e) => Self::from_check_user_only_in(e),
            component::connection::leave::ResidualError::DisconnectCleanupError(e) => Self::from_pre_disconnect_cleanup(e),
        }
    }

    fn from_handle_suppressed_auto_join(error: &'a util::HandleSuppressedAutoJoinError) -> (r: Self)
        ensures
            r == Self::spec_from_handle_suppressed_auto_join(error),
    {
        match error {
            util::HandleSuppressedAutoJoinError::DeserializeBody(_) => Self::DeserializeBody,
            util::HandleSuppressedAutoJoinError::AutoJoinSuppressed(e) => Self::AutoJoinSuppressed(e),
            util::HandleSuppressedAutoJoinError::Respond(e) => Self::from_respond(e),
        }
    }

    fn from_get_users_voice_channel_residual_2(error: &'a util::ResidualGetUsersVoiceChannelError) -> (r: Self)
        ensures
            r == Self::spec_from_get_users_voice_channel_residual_2(error),
    {
        match error {
            util::ResidualGetUsersVoiceChannelError::Cache(_) => Self::Cache,
        }
    }

    fn from_check_user_allowed_residual_2(error: &'a util::ResidualUserAllowedError) -> (r: Self)
        ensures
            r == Self::spec_from_check_user_allowed_residual_2(error),
    {
        match error {
            util::ResidualUserAllowedError::AccessCalculatorBuild(e) => Self::from_access_calculator_build(e),
        }
    }

    fn from_impl_connect_to_residual_2(error: &'a util::ResidualImplConnectToError) -> (r: Self)
        ensures
            r == Self::spec_from_impl_connect_to_residual_2(error),
    {
        match error {
            util::ResidualImplConnectToError::Lavalink(e) => Self::Lavalink(e),
            util::ResidualImplConnectToError::Cache(_) => Self::Cache,
            util::ResidualImplConnectToError::GatewaySend(_) => Self::GatewaySend,
            util::ResidualImplConnectToError::TwilightHttp(_) => Self::TwilightHttp,
            util::ResidualImplConnectToError::CheckUserAllowed(e) => Self::from_check_user_allowed_residual_2(e),
        }
    }

    fn from_connect_to_new_residual(error: &'a util::ResidualConnectToNewError) -> (r: Self)
        ensures
            r == Self::spec_from_connect_to_new_residual(error),
    {
        match error {
            util::ResidualConnectToNewError::ImplConnectTo(e) => Self::from_impl_connect_to_residual_2(e),
        }
    }

    fn from_impl_auto_join_residual(error: &'a util::ResidualImplAutoJoinError) -> (r: Self)
        ensures
            r == Self::spec_from_impl_auto_join_residual(error),
    {
        match error {
            util::ResidualImplAutoJoinError::GetUsersVoiceChannel(e) => Self::from_get_users_voice_channel_residual_2(e),
            util::ResidualImplAutoJoinError::ConnectToNew(e) => Self::from_connect_to_new_residual(e),
        }
    }

    fn from_auto_join_attempt(error: &'a util::AutoJoinAttemptError) -> (r: Self)
        ensures
            r == Self::spec_from_auto_join_attempt(error),
    {
        match error {
            util::AutoJoinAttemptError::Failed(e) => Self::AutoJoinAttemptFailed(e),
            util::AutoJoinAttemptError::ImplAutoJoin(e) => Self::from_impl_auto_join_residual(e),
            util::AutoJoinAttemptError::HandleResponse(e) => Self::from_handle_response(e),
        }
    }

    fn from_auto_join_or_check_in_voice_with_user(error: &'a util::AutoJoinOrCheckInVoiceWithUserError) -> (r: Self)
        ensures
            r == Self::spec_from_auto_join_or_check_in_voice_with_user(error),
    {
        match error {
            util::AutoJoinOrCheckInVoiceWithUserError::InVoiceWithoutUser(e) => Self::InVoiceWithoutUser(e),
            util::AutoJoinOrCheckInVoiceWithUserError::RequireUnsuppressed(e) => Self::from_require_unsuppressed_error(e),
            util::AutoJoinOrCheckInVoiceWithUserError::HandleSuppressedAutoJoin(e) => Self::from_handle_suppressed_auto_join(e),
            util::AutoJoinOrCheckInVoiceWithUserError::AutoJoinAttempt(e) => Self::from_auto_join_attempt(e),
        }
    }

    fn from_play(error: &'a component::queue::play::Error) -> (r: Self)
        ensures
            r == Self::spec_from_play(error),
    {
        match error {
            component::queue::play::Error::TwilightHttp(_) => Self::TwilightHttp,
            component::queue::play::Error::Lavalink(e) => Self::Lavalink(e),
            component::queue::play::Error::RespondOrFollowup(e) => Self::from_respond_or_followup(e),
            component::queue::play::Error::HandleLoadTrackResults(e) => Self::from_handle_load_track_results(e),
        }
    }

    fn from_handle_load_track_results(error: &'a component::queue::play::HandleLoadTrackResultsError) -> (r: Self)
        ensures
            r == Self::spec_from_handle_load_track_results(error),
    {
        match error {
            component::queue::play::HandleLoadTrackResultsError::Lavalink(e) => Self::Lavalink(e),
            component::queue::play::HandleLoadTrackResultsError::RespondOrFollowup(e) => Self::from_respond_or_followup(e),
            component::queue::play::HandleLoadTrackResultsError::RequireUnsuppressed(e) => Self::from_require_unsuppressed_error(e),
            component::queue::play::HandleLoadTrackResultsError::AutoJoinOrCheckInVoiceWithUser(e) => Self::from_auto_join_or_check_in_voice_with_user(e),
            component::queue::play::HandleLoadTrackResultsError::UpdateNowPlayingMessage(e) => Self::from_update_now_playing_message(e),
        }
    }

    fn from_remove_tracks(error: &'a component::queue::RemoveTracksError) -> (r: Self)
        ensures
            r == Self::spec_from_remove_tracks(error),
    {
        match error {
            component::queue::RemoveTracksError::Lavalink(e) => Self::Lavalink(e),
            component::queue::RemoveTracksError::DeserialiseBodyFromHttp(e) => Self::from_deserialize_body_from_http_error(e),
            component::queue::RemoveTracksError::UpdateNowPlayingMessage(e) => Self::from_update_now_playing_message(e),
            component::queue::RemoveTracksError::Respond(e) => Self::from_respond(e),
            component::queue::RemoveTracksError::RespondOrFollowup(e) => Self::from_respond_or_followup(e),
        }
    }

    fn from_play_pause(error: &'a component::playback::PlayPauseError) -> (r: Self)
        ensures
            r == Self::spec_from_play_pause(error),
    {
        match error {
            component::playback::PlayPauseError::Lavalink(e) => Self::Lavalink(e),
            component::playback::PlayPauseError::NotInVoice(_) => Self::NotInVoice,
            component::playback::PlayPauseError::NotPlaying(_) => Self::NotPlaying,
            component::playback::PlayPauseError::InVoiceWithoutUser(e) => Self::InVoiceWithoutUser(e),
            component::playback::PlayPauseError::Respond(e) => Self::from_respond(e),
            component::playback::PlayPauseError::SetPauseWith(e) => Self::from_set_pause_with(e),
            component::playback::PlayPauseError::Unsuppressed(e) => Self::from_require_unsuppressed_error(e),
            component::playback::PlayPauseError::UserOnlyIn(e) => Self::from_check_user_only_in(e),
            component::playback::PlayPauseError::UsersTrack(e) => Self::from_users_track_error(e),
        }
    }

    fn from_back(error: &'a component::playback::back::BackError) -> (r: Self)
        ensures
            r == Self::spec_from_back(error),
    {
        match error {
            component::playback::back::BackError::NotInVoice(_) => Self::NotInVoice,
            component::playback::back::BackError::InVoiceWithoutUser(e) => Self::InVoiceWithoutUser(e),
            component::playback::back::BackError::Lavalink(e) => Self::Lavalink(e),
            component::playback::back::BackError::UserOnlyIn(e) => Self::from_check_user_only_in(e),
            component::playback::back::BackError::Unsuppressed(e) => Self::from_require_unsuppressed_error(e),
            component::playback::back::BackError::Respond(e) => Self::from_respond(e),
        }
    }

    fn from_skip(error: &'a component::playback::skip::SkipError) -> (r: Self)
        ensures
            r == Self::spec_from_skip(error),
    {
        match error {
            component::playback::skip::SkipError::NotPlaying(_) => Self::NotPlaying,
            component::playback::skip::SkipError::NotInVoice(_) => Self::NotInVoice,
            component::playback::skip::SkipError::InVoiceWithoutUser(e) => Self::InVoiceWithoutUser(e),
            component::playback::skip::SkipError::Lavalink(e) => Self::Lavalink(e),
            component::playback::skip::SkipError::Unsuppressed(e) => Self::from_require_unsuppressed_error(e),
            component::playback::skip::SkipError::UsersTrackError(e) => Self::from_users_track_error(e),
            component::playback::skip::SkipError::Respond(e) => Self::from_respond(e),
        }
    }

    fn from_shuffle(error: &'a component::queue::shuffle::ShuffleError) -> (r: Self)
        ensures
            r == Self::spec_from_shuffle(error),
    {
        match error {
            component::queue::shuffle::ShuffleError::NotInVoice(_) => Self::NotInVoice,
            component::queue::shuffle::ShuffleError::InVoiceWithoutUser(e) => Self::InVoiceWithoutUser(e),
            component::queue::shuffle::ShuffleError::UserOnlyIn(e) => Self::from_check_user_only_in(e),
            component::queue::shuffle::ShuffleError::UpdateNowPlayingMessage(e) => Self::from_update_now_playing_message(e),
            component::queue::shuffle::ShuffleError::Respond(e) => Self::from_respond(e),
        }
    }

    fn from_repeat(error: &'a component::queue::repeat::RepeatError) -> (r: Self)
        ensures
            r == Self::spec_from_repeat(error),
    {
        match error {
            component::queue::repeat::RepeatError::UnrecognisedConnection(_) => Self::UnrecognisedConnection,
            component::queue::repeat::RepeatError::NotInVoice(_) => Self::NotInVoice,
            component::queue::repeat::RepeatError::InVoiceWithoutUser(e) => Self::InVoiceWithoutUser(e),
            component::queue::repeat::RepeatError::UpdateNowPlayingMessage(e) => Self::from_update_now_playing_message(e),
            component::queue::repeat::RepeatError::Respond(e) => Self::from_respond(e),
            component::queue::repeat::RepeatError::UserOnlyIn(e) => Self::from_check_user_only_in(e),
        }
    }

    fn from_update_now_playing_message(error: &'a lavalink::UpdateNowPlayingMessageError) -> (r: Self)
        ensures
            r == Self::spec_from_update_now_playing_message(error),
    {
        match error {
            lavalink::UpdateNowPlayingMessageError::BuildNowPlayingEmbed(e) => Self::from_build_now_playing_embed(e),
            lavalink::UpdateNowPlayingMessageError::DeserialiseBodyFromHttp(e) => Self::from_deserialize_body_from_http_error(e),
            lavalink::UpdateNowPlayingMessageError::Respond(e) => Self::from_respond(e),
            lavalink::UpdateNowPlayingMessageError::TwilightHttp(_) => Self::TwilightHttp,
        }
    }

    fn from_build_now_playing_embed(error: &'a lavalink::BuildNowPlayingEmbedError) -> (r: Self)
        ensures
            r == Self::spec_from_build_now_playing_embed(error),
    {
        match error {
            lavalink::BuildNowPlayingEmbedError::ImageSourceUrl(_) => Self::ImageSourceUrl,
            lavalink::BuildNowPlayingEmbedError::TimestampParse(_) => Self::TimestampParse,
        }
    }

    fn from_seek_to_with(error: &'a require::SeekToWithError) -> (r: Self)
        ensures
            r == Self::spec_from_seek_to_with(error),
    {
        match error {
            require::SeekToWithError::Lavalink(e) => Self::Lavalink(e),
            require::SeekToWithError::UpdateNowPlayingMessage(e) => Self::from_update_now_playing_message(e),
        }
    }

    fn from_new_now_playing_data(error: &'a lavalink::NewNowPlayingDataError) -> (r: Self)
        ensures
            r == Self::spec_from_new_now_playing_data(error),
    {
        match error {
            lavalink::NewNowPlayingDataError::Cache(_) => Self::Cache,
            lavalink::NewNowPlayingDataError::GetDominantPaletteFromUrl(_) => Self::GetDominantPaletteFromUrl,
        }
    }

    fn from_new_now_playing_message(error: &'a lavalink::NewNowPlayingMessageError) -> (r: Self)
        ensures
            r == Self::spec_from_new_now_playing_message(error),
    {
        match error {
            lavalink::NewNowPlayingMessageError::TwilightHttp(_) => Self::TwilightHttp,
            lavalink::NewNowPlayingMessageError::DeserialiseBody(_) => Self::DeserializeBody,
            lavalink::NewNowPlayingMessageError::DeserialiseBodyFromHttp(e) => Self::from_deserialize_body_from_http_error(e),
            lavalink::NewNowPlayingMessageError::BuildNowPlayingEmbed(e) => Self::from_build_now_playing_embed(e),
        }
    }

    fn from_set_pause_with(error: &'a require::SetPauseWithError) -> (r: Self)
        ensures
            r == Self::spec_from_set_pause_with(error),
    {
        Self::from_seek_to_with(error)
    }
}

impl Error {
    /// The kind of failure, as the answer to the user is chosen by it.
    pub open spec fn flattened(&self) -> FlattenedError<'_> {
        match self {
            Error::UserNotAccessManager(_) => Fe::UserNotAccessManager,
            Error::Sqlx(_) => Fe::Sqlx,
            Error::TaskJoin(_) => Fe::TaskJoin,
            Error::EmbedValidation(_) => Fe::EmbedValidation,
            Error::NotInVoice(_) => Fe::NotInVoice,
            Error::InVoiceWithoutUser(e) => Fe::InVoiceWithoutUser(e),
            Error::QueueEmpty(_) => Fe::QueueEmpty,
            Error::RequireUnsuppressed(e) => Fe::spec_from_require_unsuppressed_error(e),
            Error::CheckUsersTrack(e) => Fe::spec_from_users_track_error(e),
            Error::UserNotDj(_) => Fe::UserNotDj,
            Error::RequireInVoiceWithSomeoneElse(e) => Fe::spec_from_require_in_voice_with_someone_else_error(e),
            Error::PositionOutOfRange(e) => Fe::PositionOutOfRange(e),
            Error::Leave(e) => Fe::spec_from_leave_residual(e),
            Error::NoPlayer(_) => Fe::NoPlayer,
            Error::NotInGuild(_) => Fe::NotInGuild,
            Error::CheckUserOnlyIn(e) => Fe::spec_from_check_user_only_in(e),
            Error::Cache(_) => Fe::Cache,
            Error::NotPlaying(_) => Fe::NotPlaying,
            Error::Paused(_) => Fe::Paused,
            Error::UnrecognisedConnection(_) => Fe::UnrecognisedConnection,
            Error::NewNowPlayingData(e) => Fe::spec_from_new_now_playing_data(e),
            Error::Lavalink(e) => Fe::Lavalink(e),
            Error::Skip(e) => Fe::spec_from_skip(e),
            Error::Back(e) => Fe::spec_from_back(e),
            Error::Shuffle(e) => Fe::spec_from_shuffle(e),
            Error::Play(e) => Fe::spec_from_play(e),
            Error::RemoveTracks(e) => Fe::spec_from_remove_tracks(e),
            Error::PromptForConfirmation(e) => Fe::spec_from_prompt_for_confirmation(e),
            Error::TwilightHttp(_) => Fe::TwilightHttp,
            Error::Join(e) => Fe::spec_from_join_residual(e),
            Error::PlayPause(e) => Fe::spec_from_play_pause(e),
            Error::Repeat(e) => Fe::spec_from_repeat(e),
            Error::UpdateNowPlayingMessage(e) => Fe::spec_from_update_now_playing_message(e),
            Error::SeekToWith(e) => Fe::spec_from_seek_to_with(e),
            Error::NewNowPlayingMessage(e) => Fe::spec_from_new_now_playing_message(e),
            Error::Respond(e) => Fe::spec_from_respond(e),
        }
    }

    /// Reduces the failure to what decides the answer to the user.
    pub fn flatten_as(&self) -> (r: FlattenedError<'_>)
        ensures
            r == self.flattened(),
    {
        match self {
            Error::UserNotAccessManager(_) => Fe::UserNotAccessManager,
            Error::Sqlx(_) => Fe::Sqlx,
            Error::TaskJoin(_) => Fe::TaskJoin,
            Error::EmbedValidation(_) => Fe::EmbedValidation,
            Error::NotInVoice(_) => Fe::NotInVoice,
            Error::InVoiceWithoutUser(e) => Fe::InVoiceWithoutUser(e),
            Error::QueueEmpty(_) => Fe::QueueEmpty,
            Error::RequireUnsuppressed(e) => Fe::from_require_unsuppressed_error(e),
            Error::CheckUsersTrack(e) => Fe::from_users_track_error(e),
            Error::UserNotDj(_) => Fe::UserNotDj,
            Error::RequireInVoiceWithSomeoneElse(e) => Fe::from_require_in_voice_with_someone_else_error(e),
            Error::PositionOutOfRange(e) => Fe::PositionOutOfRange(e),
            Error::Leave(e) => Fe::from_leave_residual(e),
            Error::NoPlayer(_) => Fe::NoPlayer,
            Error::NotInGuild(_) => Fe::NotInGuild,
            Error::CheckUserOnlyIn(e) => Fe::from_check_user_only_in(e),
            Error::Cache(_) => Fe::Cache,
            Error::NotPlaying(_) => Fe::NotPlaying,
            Error::Paused(_) => Fe::Paused,
            Error::UnrecognisedConnection(_) => Fe::UnrecognisedConnection,
            Error::NewNowPlayingData(e) => Fe::from_new_now_playing_data(e),
            Error::Lavalink(e) => Fe::Lavalink(e),
            Error::Skip(e) => Fe::from_skip(e),
            Error::Back(e) => Fe::from_back(e),
            Error::Shuffle(e) => Fe::from_shuffle(e),
            Error::Play(e) => Fe::from_play(e),
            Error::RemoveTracks(e) => Fe::from_remove_tracks(e),
            Error::PromptForConfirmation(e) => Fe::from_prompt_for_confirmation(e),
            Error::TwilightHttp(_) => Fe::TwilightHttp,
            Error::Join(e) => Fe::from_join_residual(e),
            Error::PlayPause(e) => Fe::from_play_pause(e),
            Error::Repeat(e) => Fe::from_repeat(e),
            Error::UpdateNowPlayingMessage(e) => Fe::from_update_now_playing_message(e),
            Error::SeekToWith(e) => Fe::from_seek_to_with(e),
            Error::NewNowPlayingMessage(e) => Fe::from_new_now_playing_message(e),
            Error::Respond(e) => Fe::from_respond(e),
        }
    }

    /// The failure of the audio server that this failure is reduced to.
    pub fn flatten_as_lavalink(&self) -> (r: &LavalinkError)
        requires
            self.flattened() is Lavalink,
        ensures
            self.flattened() == Fe::Lavalink(r),
    {
        match self.flatten_as() {
            Fe::Lavalink(e) => e,
            _ => unreached(),
        }
    }
}

/// Suggesting completions for a command failed.
#[derive(Clone, Copy, Debug, PartialEq, Eq, Structural)]
pub enum AutocompleteError {
    LoadFailed(LoadFailed),
    TwilightHttp(TwilightHttpError),
    Lavalink(LavalinkError),
    NotInGuild(NotInGuild),
}

} // verus!
