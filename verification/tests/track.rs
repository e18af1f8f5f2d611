use lyra::track::{
    make_playlist_aware, CorrectPlaylistInfo, CorrectTrackInfo, PlaylistInfo, PlaylistMetadata,
    TrackData, TrackInfo, UnwrappedPlayerInfoUri, UNKNOWN_ARTIST_TEXT, UNNAMED_PLAYLIST,
    UNTITLED_TRACK,
};

fn info(title: &str, author: &str) -> TrackInfo {
    TrackInfo {
        identifier: "id".to_owned(),
        is_seekable: true,
        author: author.to_owned(),
        length: 1000,
        is_stream: false,
        position: 0,
        title: title.to_owned(),
        uri: Some("https://example.com/t".to_owned()),
        artwork_url: None,
        isrc: None,
        source_name: "http".to_owned(),
    }
}

#[test]
fn placeholder_title_and_author_are_replaced() {
    let i = info("Unknown title", "Unknown artist");
    assert_eq!(i.checked_title(), None);
    assert_eq!(i.corrected_title(), UNTITLED_TRACK);
    assert_eq!(i.checked_author(), None);
    assert_eq!(i.corrected_author(), UNKNOWN_ARTIST_TEXT);
    assert_eq!(UNTITLED_TRACK, "[Untitled Track]");
}

#[test]
fn real_title_and_author_are_kept() {
    let i = info("Song", "Band");
    assert_eq!(i.checked_title(), Some("Song"));
    assert_eq!(i.corrected_title(), "Song");
    assert_eq!(i.checked_author(), Some("Band"));
    assert_eq!(i.corrected_author(), "Band");
    assert_eq!(i.title(), "Song");
    assert_eq!(i.author(), "Band");
}

#[test]
fn take_and_correct_empties_the_field() {
    let mut i = info("Unknown title", "Band");
    assert_eq!(i.take_and_correct_title(), UNTITLED_TRACK);
    assert_eq!(i.title, "");
    assert_eq!(i.take_and_correct_author(), "Band");
    assert_eq!(i.author, "");
    let mut j = info("Song", "Unknown artist");
    assert_eq!(j.take_title(), "Song");
    assert_eq!(j.take_author(), "Unknown artist");
}

#[test]
fn playlist_names_are_corrected() {
    let mut p = PlaylistInfo { name: "Unknown title".to_owned(), selected_track: -1 };
    assert_eq!(p.checked_name(), None);
    assert_eq!(p.corrected_name(), UNNAMED_PLAYLIST);
    assert_eq!(p.take_and_correct_name(), UNNAMED_PLAYLIST);
    let q = PlaylistInfo { name: "Mix".to_owned(), selected_track: 0 };
    assert_eq!(q.corrected_name(), "Mix");
    assert_eq!(q.name(), "Mix");
}

#[test]
fn uri_is_unwrapped() {
    let i = info("Song", "Band");
    assert_eq!(i.uri_unwrapped(), "https://example.com/t");
    assert_eq!(i.into_uri_unwrapped(), "https://example.com/t");
}

#[test]
fn every_track_of_a_playlist_knows_it() {
    let playlist = PlaylistMetadata::new(
        "https://example.com/p".to_owned(),
        PlaylistInfo { name: "Unknown title".to_owned(), selected_track: -1 },
        None,
    );
    let tracks = vec![
        TrackData { encoded: "x".to_owned(), info: info("x", "a"), plugin_info: None },
        TrackData { encoded: "y".to_owned(), info: info("y", "b"), plugin_info: None },
    ];
    let aware = make_playlist_aware(tracks, playlist);
    assert_eq!(aware.len(), 2);
    assert_eq!(aware[1].inner().info.title, "y");
    let p = aware[0].playlist().unwrap();
    assert_eq!(p.uri(), "https://example.com/p");
    assert_eq!(p.corrected_name(), UNNAMED_PLAYLIST);
    assert!(p.plugin_info().is_none());
}
