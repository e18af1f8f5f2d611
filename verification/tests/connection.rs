use lyra::connection::{
    AlternateVoteCastUserId, Connection, ConnectionHead, ConnectionsActor, Event, GuildIdAware,
    Instruction, MessageLinkComponent, Poll, Reply,
};
use lyra::error::UnrecognisedConnection;

fn actor_with(guild: u64) -> ConnectionsActor {
    let mut a = ConnectionsActor::new();
    assert!(matches!(a.apply(Instruction::Insert(guild, Connection::new(10, 20))), Reply::Done));
    a
}

#[test]
fn new_connection_is_unmuted_without_poll() {
    let c = Connection::new(1, 2);
    assert_eq!(c.channel_id, 1);
    assert_eq!(c.text_channel_id, 2);
    assert!(!c.mute);
    assert!(c.poll().is_none());
    assert!(c.vsu_handler_enabled);
}

#[test]
fn connection_setters() {
    let mut c = Connection::new(1, 2);
    let poll = Poll { message: MessageLinkComponent { guild_id: 3, channel_id: 4, message_id: 5 } };
    c.set_poll(Some(poll));
    assert_eq!(c.poll(), Some(&poll));
    c.disable_vsu_handler();
    assert!(!c.vsu_handler_enabled);
    c.enable_vsu_handler();
    assert!(c.vsu_handler_enabled);
    let head = ConnectionHead::from_connection(&c);
    assert_eq!((head.channel_id(), head.text_channel_id(), head.mute()), (1, 2, false));
}

#[test]
fn insert_then_exists_and_head() {
    let mut a = actor_with(7);
    assert!(matches!(a.apply(Instruction::Exists(7)), Reply::Exists(true)));
    assert!(matches!(a.apply(Instruction::Exists(8)), Reply::Exists(false)));
    match a.apply(Instruction::Head(7)) {
        Reply::Head(Ok(h)) => assert_eq!((h.channel_id(), h.text_channel_id(), h.mute()), (10, 20, false)),
        _ => panic!("expected the head of the connection"),
    }
}

#[test]
fn remove_then_absent() {
    let mut a = actor_with(7);
    a.apply(Instruction::Remove(7));
    assert!(matches!(a.apply(Instruction::Exists(7)), Reply::Exists(false)));
}

#[test]
fn unknown_guild_is_refused() {
    let mut a = actor_with(7);
    assert!(matches!(a.apply(Instruction::ToggleMute(8)), Reply::ToggleMute(Err(UnrecognisedConnection))));
    assert!(matches!(a.apply(Instruction::SetMute(8, true)), Reply::Unit(Err(_))));
    assert!(matches!(a.apply(Instruction::Head(8)), Reply::Head(Err(_))));
    assert!(matches!(a.apply(Instruction::GetPoll(8)), Reply::GetPoll(Err(_))));
    assert!(matches!(a.apply(Instruction::Dispatch(8, Event::QueueClear)), Reply::Dispatch(Err(_))));
    assert!(matches!(a.apply(Instruction::Subscribe(8)), Reply::Subscribe(Err(_))));
    assert!(matches!(a.apply(Instruction::SetVsuHandlerState(8, false)), Reply::SetVsuHandlerState(Err(_))));
    // the known guild is untouched
    match a.apply(Instruction::Head(7)) {
        Reply::Head(Ok(h)) => assert!(!h.mute()),
        _ => panic!("expected the head of the connection"),
    }
}

#[test]
fn toggle_mute_twice_restores() {
    let mut a = actor_with(7);
    assert!(matches!(a.apply(Instruction::ToggleMute(7)), Reply::ToggleMute(Ok(true))));
    assert!(matches!(a.apply(Instruction::ToggleMute(7)), Reply::ToggleMute(Ok(false))));
    match a.apply(Instruction::Head(7)) {
        Reply::Head(Ok(h)) => assert!(!h.mute()),
        _ => panic!("expected the head of the connection"),
    }
}

#[test]
fn set_mute_channel_text_channel_then_head() {
    let mut a = actor_with(7);
    assert!(matches!(a.apply(Instruction::SetMute(7, true)), Reply::Unit(Ok(()))));
    a.apply(Instruction::SetChannel(7, 11));
    a.apply(Instruction::SetTextChannel(7, 21));
    match a.apply(Instruction::Head(7)) {
        Reply::Head(Ok(h)) => assert_eq!((h.channel_id(), h.text_channel_id(), h.mute()), (11, 21, true)),
        _ => panic!("expected the head of the connection"),
    }
}

#[test]
fn polls_and_vsu_handler_state() {
    let mut a = actor_with(7);
    assert!(matches!(a.apply(Instruction::GetPoll(7)), Reply::GetPoll(Ok(None))));
    let poll = Poll { message: MessageLinkComponent { guild_id: 7, channel_id: 4, message_id: 5 } };
    a.apply(Instruction::SetPoll(7, Some(poll)));
    match a.apply(Instruction::GetPoll(7)) {
        Reply::GetPoll(Ok(Some(p))) => assert_eq!(p, poll),
        _ => panic!("expected the poll"),
    }
    assert!(matches!(a.apply(Instruction::SubscribeToVsuHandlerEnabler(7)), Reply::SubscribeToVsuHandlerEnabler(Ok(true))));
    assert!(matches!(a.apply(Instruction::SetVsuHandlerState(7, false)), Reply::SetVsuHandlerState(Ok(false))));
    assert!(matches!(a.apply(Instruction::SubscribeToVsuHandlerEnabler(7)), Reply::SubscribeToVsuHandlerEnabler(Ok(false))));
}

#[test]
fn dispatch_hands_back_the_event() {
    let mut a = actor_with(7);
    let user = AlternateVoteCastUserId::from_user_id(42);
    match a.apply(Instruction::Dispatch(7, Event::AlternateVoteCast(user))) {
        Reply::Dispatch(Ok(Event::AlternateVoteCast(u))) => assert_eq!(u.user_id(), 42),
        _ => panic!("expected the event"),
    }
    assert!(matches!(a.apply(Instruction::Subscribe(7)), Reply::Subscribe(Ok(()))));
}

#[test]
fn message_link_belongs_to_its_guild() {
    let m = MessageLinkComponent { guild_id: 3, channel_id: 4, message_id: 5 };
    assert_eq!(m.guild_id(), 3);
}

#[test]
fn a_run_of_instructions_ends_as_its_last_insert_or_remove_says() {
    let mut a = ConnectionsActor::new();
    let replies = a.apply_all(vec![
        Instruction::Insert(1, Connection::new(10, 20)),
        Instruction::Insert(2, Connection::new(11, 21)),
        Instruction::Remove(1),
        Instruction::Exists(1),
        Instruction::Insert(1, Connection::new(12, 22)),
        Instruction::Insert(1, Connection::new(13, 23)),
        Instruction::Head(1),
        Instruction::Exists(2),
    ]);
    assert_eq!(replies.len(), 8);
    assert!(matches!(replies[3], Reply::Exists(false)));
    match &replies[6] {
        Reply::Head(Ok(h)) => assert_eq!((h.channel_id(), h.text_channel_id()), (13, 23)),
        _ => panic!("expected the head of the last inserted connection"),
    }
    assert!(matches!(replies[7], Reply::Exists(true)));
    assert!(matches!(a.apply(Instruction::Exists(1)), Reply::Exists(true)));
}
