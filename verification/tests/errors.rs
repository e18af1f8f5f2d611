use lyra::connection::{MessageLinkComponent, VoidingEvent};
use lyra::error::command::check::{
    AccessCalculatorBuildError, PollResolvableError, PollVoidedError, PrettyPollResolvableErrorDisplayer,
    PrettyVoidedErrorDisplayer, QueueSeekableError, UserAllowedError, UserOnlyInError, UsersTrackError,
};
use lyra::error::command::declare::{CommandExecuteError, Fuunacee, PartialCommandData};
use lyra::error::command::require::{SeekToWithError, UnsuppressedError};
use lyra::error::command::util::{
    AutoJoinAttemptError, PromptForConfirmationError, ResidualConnectToNewError,
    ResidualImplAutoJoinError, ResidualImplConnectToError,
};
use lyra::error::command::{Error, Fe};
use lyra::error::component::connection::join::{
    self, AutoJoinError, ConnectToError, ConnectToNewError, GetUsersVoiceChannelError,
    HandleResponseError, ImplAutoJoinError, ImplConnectToError, ImplJoinError, Pfe,
    ResidualConnectToError, ResidualImplJoinError,
};
use lyra::error::component::connection::leave::{self, NotInVoiceMatchedError};
use lyra::error::component::playback::back::BackError;
use lyra::error::component::playback::PlayPauseError;
use lyra::error::component::queue::repeat::RepeatError;
use lyra::error::component::queue::shuffle::ShuffleError;
use lyra::error::gateway::component::{self as controller, ControllerError};
use lyra::error::lavalink::{BuildNowPlayingEmbedError, NewNowPlayingDataError, UpdateNowPlayingMessageError};
use lyra::error::respond::{DeserialiseBodyFromHttpError, RespondError, RespondOrFollowupError};
use lyra::error::{
    AutoJoinAttemptFailed, BuildError, Cache, ConnectionForbidden, DeserializeBodyError,
    ImageSourceUrlError, InVoiceAlready, InVoiceWithSomeoneElse, InVoiceWithoutUser,
    InteractionParseError, LavalinkError, NotInVoice, NotUsersTrack, QueueNotSeekable, SqlxError,
    StandbyCanceled, Suppressed, TaskJoinError, TwilightHttpError, UnrecognisedConnection,
    UserNotAllowed, UserNotInVoice, UserNotStageModerator,
};

#[test]
fn leaf_failures_flatten_to_their_kind() {
    assert!(matches!(Error::Cache(Cache).flatten_as(), Fe::Cache));
    assert!(matches!(Error::NotInVoice(NotInVoice).flatten_as(), Fe::NotInVoice));
    assert!(matches!(Error::Sqlx(SqlxError).flatten_as(), Fe::Sqlx));
    assert!(matches!(Error::TwilightHttp(TwilightHttpError).flatten_as(), Fe::TwilightHttp));
    match Error::InVoiceWithoutUser(InVoiceWithoutUser(5)).flatten_as() {
        Fe::InVoiceWithoutUser(e) => assert_eq!(e.0, 5),
        _ => panic!("wrong kind"),
    }
}

#[test]
fn nested_failures_flatten_to_the_leaf() {
    let e = Error::RequireUnsuppressed(UnsuppressedError::Suppressed(Suppressed::Muted));
    assert!(matches!(e.flatten_as(), Fe::Suppressed(Suppressed::Muted)));
    let e = Error::CheckUsersTrack(UsersTrackError::NotUsersTrack(NotUsersTrack));
    assert!(matches!(e.flatten_as(), Fe::NotUsersTrack(_)));
    let e = Error::Respond(RespondError::Builder(BuildError));
    assert!(matches!(e.flatten_as(), Fe::Builder));
    let e = Error::UpdateNowPlayingMessage(UpdateNowPlayingMessageError::BuildNowPlayingEmbed(
        BuildNowPlayingEmbedError::ImageSourceUrl(ImageSourceUrlError),
    ));
    assert!(matches!(e.flatten_as(), Fe::ImageSourceUrl));
    let e = Error::UpdateNowPlayingMessage(UpdateNowPlayingMessageError::DeserialiseBodyFromHttp(
        DeserialiseBodyFromHttpError::DeserializeBody(DeserializeBodyError),
    ));
    assert!(matches!(e.flatten_as(), Fe::DeserializeBody));
    let e = Error::PromptForConfirmation(PromptForConfirmationError::StandbyCanceled(StandbyCanceled));
    assert!(matches!(e.flatten_as(), Fe::StandbyCanceled));
    let e = Error::SeekToWith(SeekToWithError::Lavalink(LavalinkError::TrackError));
    assert!(matches!(e.flatten_as(), Fe::Lavalink(LavalinkError::TrackError)));
    let e = Error::PlayPause(PlayPauseError::SetPauseWith(SeekToWithError::UpdateNowPlayingMessage(
        UpdateNowPlayingMessageError::TwilightHttp(TwilightHttpError),
    )));
    assert!(matches!(e.flatten_as(), Fe::TwilightHttp));
    let e = Error::NewNowPlayingData(NewNowPlayingDataError::Cache(Cache));
    assert!(matches!(e.flatten_as(), Fe::Cache));
}

#[test]
fn join_and_leave_residuals_flatten() {
    let e = Error::Join(join::ResidualError::ImplJoin(ResidualImplJoinError::ConnectTo(
        ResidualConnectToError::ImplConnectTo(join::ResidualImplConnectToError::UnrecognisedConnection(
            UnrecognisedConnection,
        )),
    )));
    assert!(matches!(e.flatten_as(), Fe::UnrecognisedConnection));
    let e = Error::Join(join::ResidualError::HandleResponse(HandleResponseError::RespondOrFollowup(
        RespondOrFollowupError::Followup(TwilightHttpError),
    )));
    assert!(matches!(e.flatten_as(), Fe::TwilightHttp));
    let e = Error::Leave(leave::ResidualError::CheckUserOnlyIn(UserOnlyInError::InVoiceWithSomeoneElse(
        InVoiceWithSomeoneElse(9),
    )));
    match e.flatten_as() {
        Fe::InVoiceWithSomeoneElse(x) => assert_eq!(x.0, 9),
        _ => panic!("wrong kind"),
    }
}

#[test]
fn lavalink_failure_is_found() {
    let e = Error::Lavalink(LavalinkError::Other);
    assert_eq!(*e.flatten_as_lavalink(), LavalinkError::Other);
    let c = ControllerError::Back(BackError::Lavalink(LavalinkError::TrackError));
    assert_eq!(*c.flatten_as_lavalink(), LavalinkError::TrackError);
}

#[test]
fn controller_failures_flatten_as_the_command_would() {
    let cases = [
        ControllerError::Shuffle(ShuffleError::NotInVoice(NotInVoice)),
        ControllerError::Back(BackError::Unsuppressed(UnsuppressedError::Cache(Cache))),
        ControllerError::PlayPause(PlayPauseError::UsersTrack(UsersTrackError::NotUsersTrack(NotUsersTrack))),
        ControllerError::Repeat(RepeatError::UnrecognisedConnection(UnrecognisedConnection)),
        ControllerError::Repeat(RepeatError::Respond(RespondError::TwilightHttp(TwilightHttpError))),
    ];
    let expected = ["NotInVoice", "Cache", "NotUsersTrack", "UnrecognisedConnection", "TwilightHttp"];
    for (c, name) in cases.iter().zip(expected) {
        let flat = format!("{:?}", c.flatten_as());
        assert!(flat.starts_with(name), "{flat}");
    }
    assert!(matches!(
        ControllerError::Shuffle(ShuffleError::InVoiceWithoutUser(InVoiceWithoutUser(1))).flatten_as(),
        controller::Fe::InVoiceWithoutUser(_)
    ));
}

#[test]
fn partial_flattening_sets_apart_what_the_user_can_act_on() {
    let e = join::Error::ImplJoin(ImplJoinError::GetUsersVoiceChannel(GetUsersVoiceChannelError::UserNotInVoice(UserNotInVoice)));
    assert!(matches!(e.flatten_partially_into(), Pfe::UserNotInVoice(_)));
    let e = join::Error::ImplJoin(ImplJoinError::ConnectTo(ConnectToError::InVoiceAlready(InVoiceAlready(3))));
    assert!(matches!(e.flatten_partially_into(), Pfe::InVoiceAlready(InVoiceAlready(3))));
    let forbidden = ConnectionForbidden { channel_id: 4, missing: 1 };
    let e = join::Error::ImplJoin(ImplJoinError::ConnectTo(ConnectToError::ImplConnectTo(ImplConnectToError::Forbidden(forbidden))));
    assert!(matches!(e.flatten_partially_into(), Pfe::Forbidden(f) if f == forbidden));
    let e = join::Error::ImplJoin(ImplJoinError::ConnectTo(ConnectToError::ImplConnectTo(
        ImplConnectToError::CheckUserAllowed(UserAllowedError::UserNotAllowed(UserNotAllowed)),
    )));
    assert!(matches!(e.flatten_partially_into(), Pfe::UserNotAllowed(_)));
    let e = join::Error::ImplJoin(ImplJoinError::ConnectTo(ConnectToError::ImplConnectTo(ImplConnectToError::Cache(Cache))));
    assert!(matches!(
        e.flatten_partially_into(),
        Pfe::Other(join::ResidualError::ImplJoin(ResidualImplJoinError::ConnectTo(
            ResidualConnectToError::ImplConnectTo(join::ResidualImplConnectToError::Cache(Cache))
        )))
    ));
    let e = join::Error::HandleResponse(HandleResponseError::Cache(Cache));
    assert!(matches!(e.flatten_partially_into(), Pfe::Other(join::ResidualError::HandleResponse(HandleResponseError::Cache(_)))));
    let e = join::Error::ImplJoin(ImplJoinError::ConnectTo(ConnectToError::UserNotStageModerator(UserNotStageModerator)));
    assert!(matches!(e.flatten_partially_into(), Pfe::UserNotStageModerator(_)));
}

#[test]
fn auto_join_failures_are_sorted() {
    let e = AutoJoinError::ImplAutoJoin(ImplAutoJoinError::GetUsersVoiceChannel(GetUsersVoiceChannelError::UserNotInVoice(UserNotInVoice)));
    assert!(matches!(e.unflatten_into_auto_join_attempt(), AutoJoinAttemptError::Failed(AutoJoinAttemptFailed::UserNotInVoice(_))));
    let e = AutoJoinError::ImplAutoJoin(ImplAutoJoinError::ConnectToNew(ConnectToNewError::UserNotStageModerator(UserNotStageModerator)));
    assert!(matches!(e.unflatten_into_auto_join_attempt(), AutoJoinAttemptError::Failed(AutoJoinAttemptFailed::UserNotStageModerator(_))));
    let e = AutoJoinError::ImplAutoJoin(ImplAutoJoinError::ConnectToNew(ConnectToNewError::ImplConnectTo(
        ImplConnectToError::CheckUserAllowed(UserAllowedError::AccessCalculatorBuild(AccessCalculatorBuildError::TaskJoin(TaskJoinError))),
    )));
    assert!(matches!(
        e.unflatten_into_auto_join_attempt(),
        AutoJoinAttemptError::ImplAutoJoin(ResidualImplAutoJoinError::ConnectToNew(ResidualConnectToNewError::ImplConnectTo(
            ResidualImplConnectToError::CheckUserAllowed(_)
        )))
    ));
    let e = AutoJoinError::HandleResponse(HandleResponseError::Cache(Cache));
    assert!(matches!(e.unflatten_into_auto_join_attempt(), AutoJoinAttemptError::HandleResponse(_)));
    let e = AutoJoinError::ImplAutoJoin(ImplAutoJoinError::ConnectToNew(ConnectToNewError::ImplConnectTo(
        ImplConnectToError::Forbidden(ConnectionForbidden { channel_id: 1, missing: 2 }),
    )));
    assert!(matches!(e.unflatten_into_auto_join_attempt(), AutoJoinAttemptError::Failed(AutoJoinAttemptFailed::Forbidden(_))));
}

#[test]
fn not_in_voice_is_set_apart_when_leaving() {
    assert!(matches!(leave::Error::NotInVoice(NotInVoice).match_not_in_voice_into(), NotInVoiceMatchedError::NotInVoice(_)));
    assert!(matches!(
        leave::Error::UnrecognisedConnection(UnrecognisedConnection).match_not_in_voice_into(),
        NotInVoiceMatchedError::Other(leave::ResidualError::UnrecognisedConnection(_))
    ));
    assert!(matches!(
        leave::Error::InVoiceWithoutUser(InVoiceWithoutUser(2)).match_not_in_voice_into(),
        NotInVoiceMatchedError::Other(leave::ResidualError::InVoiceWithoutUser(InVoiceWithoutUser(2)))
    ));
}

#[test]
fn command_execution_failures_flatten_until_user_not_allowed() {
    let e = CommandExecuteError::CheckUserAllowed(UserAllowedError::UserNotAllowed(UserNotAllowed));
    assert_eq!(e.flatten_until_user_not_allowed_as(), Fuunacee::UserNotAllowed);
    let e = CommandExecuteError::CheckUserAllowed(UserAllowedError::AccessCalculatorBuild(AccessCalculatorBuildError::Sqlx(SqlxError)));
    assert_eq!(e.flatten_until_user_not_allowed_as(), Fuunacee::Sqlx);
    let e = CommandExecuteError::CheckUserAllowed(UserAllowedError::AccessCalculatorBuild(AccessCalculatorBuildError::TaskJoin(TaskJoinError)));
    assert_eq!(e.flatten_until_user_not_allowed_as(), Fuunacee::TaskJoin);
    assert_eq!(CommandExecuteError::InteractionParse(InteractionParseError).flatten_until_user_not_allowed_as(), Fuunacee::InteractionParse);
    assert_eq!(
        CommandExecuteError::UnknownCommand(PartialCommandData { name: "x".to_owned() }).flatten_until_user_not_allowed_as(),
        Fuunacee::UnknownCommand
    );
    assert_eq!(CommandExecuteError::Command(Error::Cache(Cache)).flatten_until_user_not_allowed_as(), Fuunacee::Command);
}

#[test]
fn poll_resolvable_errors() {
    assert_eq!(
        PollResolvableError::from(QueueSeekableError::QueueNotSeekable(QueueNotSeekable)),
        PollResolvableError::QueueNotSeekable(QueueNotSeekable)
    );
    assert_eq!(
        PollResolvableError::from(QueueSeekableError::NotUsersTrack(NotUsersTrack)),
        PollResolvableError::NotUsersTrack(NotUsersTrack)
    );
    let e = PollResolvableError::InVoiceWithSomeoneElse(InVoiceWithSomeoneElse(6));
    assert!(matches!(e.pretty_display(), PrettyPollResolvableErrorDisplayer::InVoiceWithSomeoneElse(x) if x.0 == 6));
    assert!(matches!(
        PollResolvableError::QueueNotSeekable(QueueNotSeekable).pretty_display(),
        PrettyPollResolvableErrorDisplayer::QueueNotSeekable
    ));
}

#[test]
fn voided_polls_are_explained() {
    let d = PollVoidedError(VoidingEvent::QueueClear).pretty_display();
    assert_eq!(d, PrettyVoidedErrorDisplayer::QueueClear);
    assert_eq!(d.text(), "the queue had been cleared");
    let d = PollVoidedError(VoidingEvent::QueueRepeat).pretty_display();
    assert_eq!(d.text(), "the queue had been set to repeat in another manner");
    let _ = MessageLinkComponent { guild_id: 1, channel_id: 2, message_id: 3 };
}

#[test]
fn references_point_at_the_innermost_failure() {
    let x = InVoiceWithSomeoneElse(31);
    let e = Error::Join(join::ResidualError::ImplJoin(ResidualImplJoinError::ConnectTo(
        ResidualConnectToError::CheckUserOnlyIn(UserOnlyInError::InVoiceWithSomeoneElse(x)),
    )));
    match e.flatten_as() {
        Fe::InVoiceWithSomeoneElse(r) => {
            assert_eq!(*r, x);
            let Error::Join(join::ResidualError::ImplJoin(ResidualImplJoinError::ConnectTo(
                ResidualConnectToError::CheckUserOnlyIn(UserOnlyInError::InVoiceWithSomeoneElse(inner)),
            ))) = &e
            else {
                unreachable!()
            };
            assert!(std::ptr::eq(r, inner));
        }
        _ => panic!("wrong kind"),
    }
}
