use lyra::events::{counts_guild_create, counts_guild_delete, exception_notice, GuildCreate, NowPlayingPlan, TrackEndAction, STUCK_NOTICE};
use lyra::indexer::IndexerType;
use lyra::now_playing::{requester_of, Data, MemberIdentity, Message, Queue as Shown, Update};
use lyra::player::{RawPlayerData, DEFAULT_VOLUME};
use lyra::queue::{Item, RepeatMode};
use lyra::track::{PlaylistAwareTrackData, TrackData, TrackInfo};
use std::time::Duration;

fn track(title: &str) -> PlaylistAwareTrackData {
    PlaylistAwareTrackData::from(TrackData {
        encoded: String::new(),
        info: TrackInfo {
            identifier: title.to_owned(),
            is_seekable: true,
            author: "a".to_owned(),
            length: 1000,
            is_stream: false,
            position: 0,
            title: title.to_owned(),
            uri: Some("https://example.com".to_owned()),
            artwork_url: None,
            isrc: None,
            source_name: "http".to_owned(),
        },
        plugin_info: None,
    })
}

fn message(p: &RawPlayerData) -> Message {
    let item = Item::new(track("now"), 1);
    let member = Some(MemberIdentity { nick: Some("n".to_owned()), guild_avatar_url: Some("a".to_owned()) });
    let shown = Shown::of(p.queue());
    let requester = requester_of(member, None).unwrap();
    let data = Data::new(requester, &item, shown, false, Duration::ZERO, None).unwrap();
    Message::new(99, p.text_channel_id(), data)
}

#[test]
fn new_player_state() {
    let p = RawPlayerData::new(5);
    assert_eq!(p.volume(), DEFAULT_VOLUME);
    assert_eq!(p.volume(), 100);
    assert_eq!(p.text_channel_id(), 5);
    assert!(p.now_playing_message_id().is_none());
    assert!(p.queue().is_empty());
}

#[test]
fn setters_keep_the_rest() {
    let mut p = RawPlayerData::new(5);
    p.set_volume(30);
    p.set_text_channel_id(6);
    assert_eq!((p.volume(), p.text_channel_id()), (30, 6));
    p.queue_mut().enqueue(vec![track("a")], 1);
    assert_eq!(p.queue().len(), 1);
}

#[test]
fn updates_reach_the_message_only_when_there_is_one() {
    let mut p = RawPlayerData::new(5);
    assert!(!p.update_now_playing(Update::Paused(true), Duration::ZERO));
    assert!(!p.set_repeat_mode_then_update(RepeatMode::All, Duration::ZERO));
    assert!(matches!(p.queue().repeat_mode(), RepeatMode::All));

    let m = message(&p);
    p.set_now_playing_message(m);
    assert_eq!(p.now_playing_message_id(), Some(99));
    assert!(p.set_repeat_mode_then_update(RepeatMode::Track, Duration::from_secs(1)));
    let shown = p.now_playing_message().unwrap().data();
    assert!(matches!(shown.queue.repeat_mode, RepeatMode::Track));
    assert_eq!(shown.timestamp, Duration::from_secs(1));

    p.queue_mut().enqueue(vec![track("a"), track("b")], 1);
    assert!(p.set_indexer_then_update(IndexerType::Shuffled, Duration::from_secs(2)));
    assert_eq!(p.now_playing_message().unwrap().data().timestamp, Duration::from_secs(2));
    assert_eq!(p.now_playing_message().unwrap().data().queue.indexer, IndexerType::Shuffled);
    assert_eq!(p.queue().indexer_type(), IndexerType::Shuffled);

    assert!(p.update_now_playing_timestamp(Duration::from_secs(4)));
    assert_eq!(p.now_playing_message().unwrap().data().timestamp, Duration::from_secs(4));
    let taken = p.take_now_playing_message().unwrap();
    assert_eq!(taken.id(), 99);
    assert!(p.now_playing_message_id().is_none());
    assert!(!p.update_now_playing_timestamp(Duration::ZERO));
}

#[test]
fn replacing_the_shown_data() {
    let mut p = RawPlayerData::new(5);
    let m = message(&p);
    let d = message(&p).data;
    assert!(!p.replace_now_playing_data(d));
    p.set_now_playing_message(m);
    let d = message(&p).data;
    assert!(p.replace_now_playing_data(d));
}

#[test]
fn now_playing_plan_when_a_track_starts() {
    let mut p = RawPlayerData::new(5);
    assert_eq!(p.now_playing_plan(true), NowPlayingPlan::Skip);
    p.queue_mut().enqueue(vec![track("a")], 1);
    assert_eq!(p.now_playing_plan(false), NowPlayingPlan::Skip);
    assert_eq!(p.now_playing_plan(true), NowPlayingPlan::Create);
    let m = message(&p);
    p.set_now_playing_message(m);
    assert_eq!(p.now_playing_plan(true), NowPlayingPlan::Refresh);
}

#[test]
fn track_end_moves_on_unless_forced() {
    let mut p = RawPlayerData::new(5);
    p.queue_mut().enqueue(vec![track("a"), track("b")], 1);
    let m = message(&p);
    p.set_now_playing_message(m);

    p.queue_mut().disable_advancing();
    assert!(matches!(p.on_track_end(), TrackEndAction::Forced));
    assert_eq!(p.queue().index(), 0);
    assert!(p.now_playing_message_id().is_some());

    match p.on_track_end() {
        TrackEndAction::Advanced { stale_message, play } => {
            assert_eq!(stale_message.map(|m| m.id()), Some(99));
            assert_eq!(play, Some(1));
        }
        TrackEndAction::Forced => panic!("the end was not forced"),
    }
    assert!(p.now_playing_message_id().is_none());
    match p.on_track_end() {
        TrackEndAction::Advanced { stale_message, play } => {
            assert!(stale_message.is_none());
            assert_eq!(play, None);
        }
        TrackEndAction::Forced => panic!("the end was not forced"),
    }
}

#[test]
fn track_exception_takes_the_message_when_shown() {
    let mut p = RawPlayerData::new(5);
    let m = message(&p);
    p.set_now_playing_message(m);
    assert!(p.on_track_exception(false).is_none());
    assert!(p.now_playing_message_id().is_some());
    assert_eq!(p.on_track_exception(true).map(|m| m.id()), Some(99));
    assert!(p.now_playing_message_id().is_none());
}

#[test]
fn notices() {
    assert_eq!(exception_notice("Song"), "💔**`ー`** ~~`Song`~~ `(Error playing this track)`");
    assert_eq!(STUCK_NOTICE, "🌀 Playback interrupted. Please wait or try using the bot again later.");
}

#[test]
fn guild_counting() {
    assert!(counts_guild_create(GuildCreate::Available { unavailable: None }));
    assert!(!counts_guild_create(GuildCreate::Available { unavailable: Some(false) }));
    assert!(counts_guild_create(GuildCreate::Unavailable));
    assert!(counts_guild_delete(None));
    assert!(counts_guild_delete(Some(false)));
    assert!(!counts_guild_delete(Some(true)));
}

