use lyra::error::lavalink::{
    BuildNowPlayingEmbedError, GetDominantPaletteFromUrlError, NewNowPlayingDataError,
};
use lyra::error::{Cache, ReqwestError, TimestampParseError};
use lyra::indexer::IndexerType;
use lyra::now_playing::{
    artwork_url_of, requester_of, ButtonEmoji, ButtonStyle, Data, MemberIdentity, Message,
    NowPlayingButtonType, Piece, Queue as Shown, Update, UserIdentity,
};
use lyra::queue::{Item, Queue, RepeatMode};
use lyra::track::{
    PlaylistAwareTrackData, PlaylistInfo, PlaylistMetadata, PluginPlaylistInfo, PluginTrackInfo,
    PlaylistType, TrackData, TrackInfo,
};
use std::sync::Arc;
use std::time::Duration;

fn info(artwork: Option<&str>) -> TrackInfo {
    TrackInfo {
        identifier: "id".to_owned(),
        is_seekable: true,
        author: "Unknown artist".to_owned(),
        length: 90_000,
        is_stream: false,
        position: 0,
        title: "Song".to_owned(),
        uri: Some("https://example.com/song".to_owned()),
        artwork_url: artwork.map(str::to_owned),
        isrc: None,
        source_name: "http".to_owned(),
    }
}

fn plugin(album_art: Option<&str>) -> PluginTrackInfo {
    PluginTrackInfo {
        album_name: Some("Album".to_owned()),
        album_art_url: album_art.map(str::to_owned),
        artist_url: Some("https://example.com/artist".to_owned()),
        artist_artwork_uri: None,
        preview_url: None,
        is_preview: true,
    }
}

fn playlist(artwork: Option<&str>) -> PlaylistMetadata {
    PlaylistMetadata::new(
        "https://example.com/list".to_owned(),
        PlaylistInfo { name: "List".to_owned(), selected_track: -1 },
        Some(PluginPlaylistInfo {
            kind: PlaylistType::Playlist,
            url: None,
            artwork_url: artwork.map(str::to_owned),
            author: None,
            total_tracks: None,
        }),
    )
}

fn member(nick: Option<&str>, avatar: Option<&str>) -> Option<MemberIdentity> {
    Some(MemberIdentity { nick: nick.map(str::to_owned), guild_avatar_url: avatar.map(str::to_owned) })
}

fn user() -> Option<UserIdentity> {
    Some(UserIdentity { display_name: "user".to_owned(), display_avatar_url: "u.png".to_owned() })
}

#[test]
fn requester_prefers_the_guild_identity() {
    let r = requester_of(member(Some("nick"), Some("g.png")), None).unwrap();
    assert_eq!((r.name(), r.avatar()), ("nick", "g.png"));
    let r = requester_of(member(Some("nick"), None), user()).unwrap();
    assert_eq!((r.name(), r.avatar()), ("nick", "u.png"));
    let r = requester_of(member(None, Some("g.png")), user()).unwrap();
    assert_eq!((r.name(), r.avatar()), ("user", "g.png"));
    let r = requester_of(member(None, None), user()).unwrap();
    assert_eq!((r.name(), r.avatar()), ("user", "u.png"));
}

#[test]
fn requester_needs_the_cache() {
    assert!(matches!(requester_of(None, user()), Err(Cache)));
    assert!(matches!(requester_of(member(Some("nick"), None), None), Err(Cache)));
    assert!(matches!(requester_of(member(None, None), None), Err(Cache)));
}

#[test]
fn artwork_comes_from_the_album_then_the_track_then_the_playlist() {
    let p = plugin(Some("album.png"));
    let i = info(Some("track.png"));
    let l = playlist(Some("list.png"));
    assert_eq!(artwork_url_of(Some(&p), &i, Some(&l)), Some("album.png"));
    let p = plugin(None);
    assert_eq!(artwork_url_of(Some(&p), &i, Some(&l)), Some("track.png"));
    let i = info(None);
    assert_eq!(artwork_url_of(Some(&p), &i, Some(&l)), Some("list.png"));
    assert_eq!(artwork_url_of(None, &i, None), None);
    let l = playlist(None);
    assert_eq!(artwork_url_of(None, &i, Some(&l)), None);
}

fn item(with_plugin: bool, list: bool) -> Item {
    let data = TrackData {
        encoded: String::new(),
        info: info(Some("track.png")),
        plugin_info: if with_plugin { Some(plugin(None)) } else { None },
    };
    let track = if list {
        PlaylistAwareTrackData::new(data, Arc::new(playlist(None)))
    } else {
        PlaylistAwareTrackData::from(data)
    };
    Item::new(track, 9)
}

fn shown() -> Shown {
    Shown { len: 3, position: 2, indexer: IndexerType::Standard, repeat_mode: RepeatMode::Off }
}

#[test]
fn data_gathers_what_the_message_shows() {
    let it = item(true, true);
    let requester = requester_of(member(Some("nick"), Some("g.png")), None).unwrap();
    let d = Data::new(requester, &it, shown(), false, Duration::from_secs(3), Some(Ok(0xff00ff))).unwrap();
    assert_eq!(d.title, "Song");
    assert_eq!(d.url, "https://example.com/song");
    assert_eq!(d.artist.name(), "[Unknown Artist]");
    assert_eq!(d.artist.url(), Some("https://example.com/artist"));
    assert_eq!(d.album_name.as_deref(), Some("Album"));
    assert_eq!(d.requester.name(), "nick");
    assert_eq!(d.duration_ms, 90_000);
    assert_eq!(d.timestamp, Duration::from_secs(3));
    assert_eq!(d.enqueued, it.enqueued());
    let art = d.artwork.as_ref().unwrap();
    assert_eq!((art.url(), art.colour), ("track.png", 0xff00ff));
    let pl = d.playlist.as_ref().unwrap();
    assert_eq!((pl.name(), pl.uri()), ("List", "https://example.com/list"));
    assert!(d.preview.as_ref().unwrap().is_preview);
}

#[test]
fn data_reports_a_failed_palette() {
    let it = item(false, false);
    let requester = requester_of(member(Some("n"), Some("a")), None).unwrap();
    assert!(matches!(
        Data::new(requester, &it, shown(), false, Duration::ZERO, Some(Err(GetDominantPaletteFromUrlError::Reqwest(ReqwestError)))),
        Err(NewNowPlayingDataError::GetDominantPaletteFromUrl(_))
    ));
}

fn message(paused: bool, indexer: IndexerType, repeat_mode: RepeatMode) -> Message {
    let it = item(true, true);
    let q = Shown { len: 3, position: 2, indexer, repeat_mode };
    let requester = requester_of(member(Some("n"), Some("a")), None).unwrap();
    let d = Data::new(requester, &it, q, paused, Duration::ZERO, Some(Ok(1))).unwrap();
    Message::new(11, 22, d)
}

#[test]
fn content_follows_pause() {
    assert_eq!(message(false, IndexerType::Standard, RepeatMode::Off).build_content(), "🎵 **Now Playing**");
    assert_eq!(message(true, IndexerType::Standard, RepeatMode::Off).build_content(), "Now Playing");
}

#[test]
fn buttons_follow_the_queue_and_the_player() {
    let b = message(false, IndexerType::Fair, RepeatMode::All).build_components();
    let kinds: Vec<NowPlayingButtonType> = b.iter().map(|b| b.kind).collect();
    assert_eq!(kinds, vec![NowPlayingButtonType::Shuffle, NowPlayingButtonType::Previous, NowPlayingButtonType::PlayPause, NowPlayingButtonType::Next, NowPlayingButtonType::Repeat]);
    assert!(b[0].disabled);
    assert_eq!(b[0].emoji, ButtonEmoji::ShuffleOff);
    assert_eq!(b[0].style, ButtonStyle::Danger);
    assert_eq!(b[2].emoji, ButtonEmoji::Pause);
    assert_eq!(b[4].emoji, ButtonEmoji::RepeatAll);
    let b = message(true, IndexerType::Shuffled, RepeatMode::Track).build_components();
    assert!(!b[0].disabled);
    assert_eq!(b[0].emoji, ButtonEmoji::ShuffleOn);
    assert_eq!(b[2].emoji, ButtonEmoji::Play);
    assert_eq!(b[4].emoji, ButtonEmoji::RepeatTrack);
    let b = message(true, IndexerType::Standard, RepeatMode::Off).build_components();
    assert!(!b[0].disabled);
    assert_eq!(b[4].emoji, ButtonEmoji::RepeatOff);
}

#[test]
fn updates_change_what_is_shown() {
    let mut m = message(false, IndexerType::Standard, RepeatMode::Off);
    m.update(Update::Paused(true));
    m.update(Update::Repeat(RepeatMode::All));
    m.update(Update::Indexer(IndexerType::Shuffled));
    m.update(Update::QueueLen(10));
    m.update(Update::QueuePosition(4));
    m.update_timestamp(Duration::from_secs(7));
    let d = m.data();
    assert!(d.paused);
    assert_eq!(d.queue, Shown { len: 10, position: 4, indexer: IndexerType::Shuffled, repeat_mode: RepeatMode::All });
    assert_eq!(d.timestamp, Duration::from_secs(7));
    assert_eq!((m.id(), m.channel_id()), (11, 22));
}

#[test]
fn description_lists_album_playlist_position_and_preview() {
    let m = message(false, IndexerType::Standard, RepeatMode::Off);
    let text: String = m
        .description()
        .into_iter()
        .map(|p| match p {
            Piece::Text(t) => t.to_owned(),
            Piece::Owned(t) => t,
            Piece::Count(n) => n.to_string(),
            Piece::TimeLeft => "LEFT".to_owned(),
            Piece::Length => "LENGTH".to_owned(),
        })
        .collect();
    assert_eq!(
        text,
        "📀 **Album**\n📚 **[List](https://example.com/list)**\n#️⃣ **2** / 3 ⏳ LEFT / LENGTH\n-# This track is a preview. "
    );
}

#[test]
fn shown_queue_is_read_from_the_queue() {
    let mut q = Queue::new();
    q.enqueue(vec![PlaylistAwareTrackData::from(TrackData { encoded: String::new(), info: info(None), plugin_info: None })], 1);
    q.set_repeat_mode(RepeatMode::Track);
    let s = Shown::of(&q);
    assert_eq!(s, Shown { len: 1, position: 1, indexer: IndexerType::Standard, repeat_mode: RepeatMode::Track });
}

fn linked_data() -> Data {
    let it = item(true, true);
    let q = Shown { len: 3, position: 2, indexer: IndexerType::Standard, repeat_mode: RepeatMode::Off };
    let requester = requester_of(member(Some("n"), Some("https://cdn.example.com/a.png")), None).unwrap();
    let mut d = Data::new(requester, &it, q, false, Duration::ZERO, Some(Ok(1))).unwrap();
    d.artwork.as_mut().unwrap().url = "https://example.com/track.png".to_owned();
    d
}

fn linked_message() -> Message {
    Message::new(11, 22, linked_data())
}

#[test]
fn embed_shows_track_artist_requester_and_artwork() {
    let m = linked_message();
    let e = m.build_embed().unwrap();
    assert_eq!(e.title, "Song");
    assert_eq!(e.url, "https://example.com/song");
    assert_eq!(e.author.name, "[Unknown Artist]");
    assert_eq!(e.author.url.as_deref(), Some("https://example.com/artist"));
    assert_eq!(e.author.icon_url, None);
    assert_eq!((e.footer.text.as_str(), e.footer.icon_url.as_str()), ("n", "https://cdn.example.com/a.png"));
    assert_eq!(e.colour, Some(1));
    assert_eq!(e.thumbnail.as_deref(), Some("https://example.com/track.png"));
    assert_eq!(e.timestamp, m.data().enqueued);
    assert_eq!(e.description.len(), m.description().len());
}

#[test]
fn embed_refuses_an_image_link_that_is_not_http() {
    let refused = |m: &Message| matches!(m.build_embed(), Err(BuildNowPlayingEmbedError::ImageSourceUrl(_)));
    // the requester's avatar
    assert!(refused(&message(false, IndexerType::Standard, RepeatMode::Off)));
    // the artwork
    let mut d = linked_data();
    d.artwork.as_mut().unwrap().url = "ftp:not-an-image".to_owned();
    assert!(refused(&Message::new(11, 22, d)));
    // the artist's icon
    let mut d = linked_data();
    d.artist.artwork_url = Some("https//example.com/artist.png".to_owned());
    assert!(refused(&Message::new(11, 22, d)));
    // a plain http link is taken
    let mut d = linked_data();
    d.artist.artwork_url = Some("http://example.com/artist.png".to_owned());
    d.requester.avatar = "http:a".to_owned();
    let e = Message::new(11, 22, d).build_embed().unwrap();
    assert_eq!(e.author.icon_url.as_deref(), Some("http://example.com/artist.png"));
}

#[test]
fn embed_reports_a_timestamp_that_cannot_be_made() {
    let m = linked_message();
    assert!(matches!(
        m.embed_with_timestamp(Err(TimestampParseError)),
        Err(BuildNowPlayingEmbedError::TimestampParse(TimestampParseError))
    ));
    // the timestamp is turned before the image links are looked at
    assert!(matches!(
        message(false, IndexerType::Standard, RepeatMode::Off).embed_with_timestamp(Err(TimestampParseError)),
        Err(BuildNowPlayingEmbedError::TimestampParse(_))
    ));
    assert!(m.embed_with_timestamp(Ok(())).is_ok());
}
