use lyra::answer::{
    answer_command_error, answer_command_execute_error, answer_controller_error,
    controller_applies, Answer, CommandName, Delivery, Segment, Tone,
};
use lyra::connection::{MessageLinkComponent, Vote};
use lyra::error::command::check::{AlternateVoteResponse, AnotherPollOngoingError, UserAllowedError};
use lyra::error::command::declare::CommandExecuteError;
use lyra::error::command::util::{AutoJoinAttemptError, AutoJoinOrCheckInVoiceWithUserError, AutoJoinSuppressedError, HandleSuppressedAutoJoinError};
use lyra::error::command::Error;
use lyra::error::component::playback::skip::SkipError;
use lyra::error::component::queue::play;
use lyra::error::component::queue::repeat::RepeatError;
use lyra::error::gateway::component::ControllerError;
use lyra::error::respond::RespondError;
use lyra::error::{
    AutoJoinAttemptFailed, Cache, ConnectionForbidden, EmbedValidationError, InVoiceWithoutUser,
    InteractionParseError, LavalinkError, NotInVoice, PositionOutOfRange, QueueEmpty,
    TwilightHttpError, UserNotAllowed, UserNotDj,
};

fn texts(a: &Answer) -> Vec<String> {
    a.text
        .iter()
        .map(|s| match s {
            Segment::Text(t) => t.to_string(),
            Segment::Integer(n) => n.to_string(),
            Segment::Count(n) => n.to_string(),
            Segment::Channel(c) => format!("<#{c}>"),
            other => format!("{other:?}"),
        })
        .collect()
}

#[test]
fn cache_failure_is_answered_as_temporary() {
    let a = answer_command_error(&Error::Cache(Cache));
    assert_eq!(a.tone, Tone::Unkn);
    assert_eq!(a.delivery, Delivery::Followup);
    assert_eq!(texts(&a), vec!["Something isn't working at the moment, try again later."]);
    assert!(!a.unexpected);
}

#[test]
fn user_not_in_voice_with_the_bot_is_told_the_channel() {
    let a = answer_command_error(&Error::InVoiceWithoutUser(InVoiceWithoutUser(42)));
    assert_eq!(a.tone, Tone::Nope);
    assert_eq!(
        texts(&a).concat(),
        "You are not with the bot in <#42>.\n-# Members who are a ***DJ*** bypass this."
    );
}

#[test]
fn not_in_voice_mentions_join_and_play() {
    let a = answer_command_error(&Error::NotInVoice(NotInVoice));
    assert_eq!(a.tone, Tone::Warn);
    assert_eq!(a.delivery, Delivery::Respond);
    assert!(matches!(a.text[1], Segment::Command(CommandName::Join)));
    assert!(matches!(a.text[3], Segment::Command(CommandName::Play)));
}

#[test]
fn position_out_of_range_names_the_bounds() {
    let a = answer_command_error(&Error::PositionOutOfRange(PositionOutOfRange::OutOfRange { position: 9, queue_len: 4 }));
    assert_eq!(texts(&a).concat(), "Invalid track position: `9`; Track position must be from `1` to `4`.");
    let a = answer_command_error(&Error::PositionOutOfRange(PositionOutOfRange::OnlyTrack(-2)));
    assert_eq!(
        texts(&a).concat(),
        "Invalid track position: `-2`; Track position must be `1` as the queue currently only has one track."
    );
    assert_eq!(a.tone, Tone::Wrng);
}

#[test]
fn simple_refusals() {
    let a = answer_command_error(&Error::UserNotDj(UserNotDj));
    assert_eq!((a.tone, a.delivery), (Tone::Nope, Delivery::Respond));
    assert_eq!(texts(&a), vec!["You need to be a ***DJ*** to do that."]);
    let a = answer_command_error(&Error::QueueEmpty(QueueEmpty));
    assert_eq!(texts(&a), vec!["The queue is currently empty."]);
}

#[test]
fn unexpected_failures_are_reported() {
    let a = answer_command_error(&Error::TwilightHttp(TwilightHttpError));
    assert!(a.unexpected);
    assert_eq!((a.tone, a.delivery), (Tone::Erro, Delivery::Followup));
    assert!(matches!(a.text[1], Segment::Report));
    let a = answer_command_error(&Error::EmbedValidation(EmbedValidationError));
    assert!(a.unexpected);
    assert_eq!(a.delivery, Delivery::Respond);
}

#[test]
fn lavalink_track_errors_are_explained() {
    let a = answer_command_error(&Error::Lavalink(LavalinkError::TrackError));
    assert_eq!(a.tone, Tone::Hid);
    assert!(!a.unexpected);
    assert!(matches!(a.text[1], Segment::SupportedServices));
    let a = answer_command_error(&Error::Lavalink(LavalinkError::Other));
    assert!(a.unexpected);
    assert_eq!(texts(&a)[0], "Something went wrong with lavalink: ");
}

#[test]
fn auto_join_failures_are_explained() {
    let forbidden = ConnectionForbidden { channel_id: 5, missing: 1024 };
    let e = Error::Play(play::Error::HandleLoadTrackResults(
        play::HandleLoadTrackResultsError::AutoJoinOrCheckInVoiceWithUser(
            AutoJoinOrCheckInVoiceWithUserError::AutoJoinAttempt(AutoJoinAttemptError::Failed(
                AutoJoinAttemptFailed::Forbidden(forbidden),
            )),
        ),
    ));
    let a = answer_command_error(&e);
    assert_eq!(a.tone, Tone::Blck);
    assert!(matches!(a.text[1], Segment::Channel(5)));
    assert!(matches!(a.text[3], Segment::Permissions(1024)));

    let e = Error::Play(play::Error::HandleLoadTrackResults(
        play::HandleLoadTrackResultsError::AutoJoinOrCheckInVoiceWithUser(
            AutoJoinOrCheckInVoiceWithUserError::HandleSuppressedAutoJoin(
                HandleSuppressedAutoJoinError::AutoJoinSuppressed(AutoJoinSuppressedError::StillNotSpeaker { last_followup_id: 77 }),
            ),
        ),
    ));
    let a = answer_command_error(&e);
    assert_eq!(a.tone, Tone::Dubious);
    assert_eq!(a.delivery, Delivery::UpdateFollowup(77));
}

#[test]
fn another_poll_answers_depend_on_the_vote() {
    let message = MessageLinkComponent { guild_id: 1, channel_id: 2, message_id: 3 };
    let cases = [
        (Some(AlternateVoteResponse::Casted), Tone::Note),
        (Some(AlternateVoteResponse::DjCasted), Tone::Hid),
        (Some(AlternateVoteResponse::CastDenied), Tone::Nope),
        (Some(AlternateVoteResponse::CastedAlready(Vote::Upvote)), Tone::Warn),
        (None, Tone::Susp),
    ];
    for (alternate_vote, tone) in cases {
        let e = AnotherPollOngoingError { message, alternate_vote };
        let kind = lyra::error::command::Fe::AnotherPollOngoing(&e);
        let a = lyra::answer::answer_command_kind(kind);
        assert_eq!(a.tone, tone);
        assert!(a.text.iter().any(|s| matches!(s, Segment::Link(m) if *m == message)));
    }
}

#[test]
fn button_failures_are_answered() {
    let a = answer_controller_error(&ControllerError::Skip(SkipError::NotInVoice(NotInVoice)));
    assert_eq!(a.tone, Tone::Warn);
    let a = answer_controller_error(&ControllerError::Repeat(RepeatError::Respond(RespondError::TwilightHttp(TwilightHttpError))));
    // a button answers a failed request in the response itself
    assert_eq!((a.tone, a.delivery, a.unexpected), (Tone::Erro, Delivery::Respond, true));
}

#[test]
fn execution_failures_are_answered() {
    let a = answer_command_execute_error(&CommandExecuteError::CheckUserAllowed(UserAllowedError::UserNotAllowed(UserNotAllowed)));
    assert_eq!(a.tone, Tone::Nope);
    assert_eq!(texts(&a), vec!["You are not allowed to use commands in this context."]);
    let a = answer_command_execute_error(&CommandExecuteError::InteractionParse(InteractionParseError));
    assert_eq!(a.tone, Tone::Unkn);
    assert!(a.unexpected);
    let a = answer_command_execute_error(&CommandExecuteError::Command(Error::QueueEmpty(QueueEmpty)));
    assert_eq!(texts(&a), vec!["The queue is currently empty."]);
}

#[test]
fn buttons_apply_only_to_the_current_message() {
    assert!(controller_applies(Some(5), 5));
    assert!(!controller_applies(Some(5), 6));
    assert!(!controller_applies(None, 5));
}
