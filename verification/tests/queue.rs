use lyra::indexer::IndexerType;
use lyra::queue::{Queue, RepeatMode};
use lyra::track::{PlaylistAwareTrackData, TrackData, TrackInfo};

fn info(title: &str) -> TrackInfo {
    TrackInfo {
        identifier: title.to_owned(),
        is_seekable: true,
        author: "someone".to_owned(),
        length: 1000,
        is_stream: false,
        position: 0,
        title: title.to_owned(),
        uri: Some(format!("https://example.com/{title}")),
        artwork_url: None,
        isrc: None,
        source_name: "http".to_owned(),
    }
}

fn track(title: &str) -> PlaylistAwareTrackData {
    PlaylistAwareTrackData::from(TrackData {
        encoded: title.to_owned(),
        info: info(title),
        plugin_info: None,
    })
}

fn tracks(titles: &[&str]) -> Vec<PlaylistAwareTrackData> {
    titles.iter().map(|t| track(t)).collect()
}

fn current_title(q: &Queue) -> Option<String> {
    q.current().map(|i| i.data().info.title.clone())
}

fn titles(q: &Queue) -> Vec<String> {
    q.positions_and_items().into_iter().map(|(_, i)| i.data().info.title.clone()).collect()
}

#[test]
fn repeat_mode_next_cycles_through_all_modes() {
    assert!(matches!(RepeatMode::Off.next(), RepeatMode::All));
    assert!(matches!(RepeatMode::All.next(), RepeatMode::Track));
    assert!(matches!(RepeatMode::Track.next(), RepeatMode::Off));
    assert!(matches!(RepeatMode::Off.next().next().next(), RepeatMode::Off));
}

#[test]
fn repeat_mode_emoji_and_description() {
    assert_eq!(RepeatMode::Off.emoji(), "➡️");
    assert_eq!(RepeatMode::All.emoji(), "🔁");
    assert_eq!(RepeatMode::Track.emoji(), "🔂");
    assert_eq!(RepeatMode::Off.description(), "Disabled repeat");
    assert_eq!(RepeatMode::All.description(), "Enabled repeat");
    assert_eq!(RepeatMode::Track.description(), "Enabled repeat one");
}

#[test]
fn new_queue_is_empty_at_position_one() {
    let q = Queue::new();
    assert!(q.is_empty());
    assert_eq!(q.len(), 0);
    assert_eq!(q.index(), 0);
    assert_eq!(q.position(), 1);
    assert!(q.current().is_none());
    assert!(matches!(q.repeat_mode(), RepeatMode::Off));
    assert_eq!(q.indexer_type(), IndexerType::Standard);
}

#[test]
fn enqueue_appends_in_order_with_requester() {
    let mut q = Queue::new();
    q.enqueue(tracks(&["a", "b"]), 7);
    q.enqueue(tracks(&["c"]), 8);
    assert_eq!(titles(&q), vec!["a", "b", "c"]);
    assert_eq!(q.at(0).requester(), 7);
    assert_eq!(q.at(2).requester(), 8);
    assert_eq!(q.at_position(3).data().info.title, "c");
    assert_eq!(current_title(&q).as_deref(), Some("a"));
}

#[test]
fn enqueue_keeps_the_current_track() {
    let mut q = Queue::new();
    q.enqueue(tracks(&["a", "b", "c"]), 1);
    q.advance();
    assert_eq!(current_title(&q).as_deref(), Some("b"));
    q.enqueue(tracks(&["d"]), 2);
    assert_eq!(current_title(&q).as_deref(), Some("b"));
    assert_eq!(q.position(), 2);
}

#[test]
fn advance_without_repeat_runs_off_the_end() {
    let mut q = Queue::new();
    q.enqueue(tracks(&["a", "b"]), 1);
    q.advance();
    q.advance();
    assert_eq!(q.index(), 2);
    assert!(q.current().is_none());
    assert!(q.current_index().is_none());
    // past the end, the position shown is the index itself
    assert_eq!(q.position(), 2);
}

#[test]
fn advance_with_repeat_all_wraps_around() {
    let mut q = Queue::new();
    q.enqueue(tracks(&["a", "b"]), 1);
    q.set_repeat_mode(RepeatMode::All);
    q.advance();
    q.advance();
    assert_eq!(q.index(), 0);
    assert_eq!(current_title(&q).as_deref(), Some("a"));
}

#[test]
fn advance_with_repeat_track_stays() {
    let mut q = Queue::new();
    q.enqueue(tracks(&["a", "b"]), 1);
    q.set_repeat_mode(RepeatMode::Track);
    q.advance();
    assert_eq!(q.index(), 0);
    assert_eq!(current_title(&q).as_deref(), Some("a"));
    assert_eq!(q.next().map(|i| i.data().info.title.clone()).as_deref(), Some("a"));
}

#[test]
fn recede_undoes_advance() {
    for mode in [RepeatMode::Off, RepeatMode::All, RepeatMode::Track] {
        let mut q = Queue::new();
        q.enqueue(tracks(&["a", "b", "c"]), 1);
        q.set_repeat_mode(mode);
        q.set_index(1);
        q.advance();
        q.recede();
        assert_eq!(q.index(), 1);
    }
}

#[test]
fn recede_at_start_without_repeat_stays_at_zero() {
    let mut q = Queue::new();
    q.enqueue(tracks(&["a"]), 1);
    q.recede();
    assert_eq!(q.index(), 0);
}

#[test]
fn recede_with_repeat_all_wraps_to_the_end() {
    let mut q = Queue::new();
    q.enqueue(tracks(&["a", "b", "c"]), 1);
    q.set_repeat_mode(RepeatMode::All);
    q.recede();
    assert_eq!(q.index(), 2);
}

#[test]
fn dequeue_removes_positions_last_listed_first() {
    let mut q = Queue::new();
    q.enqueue(tracks(&["a", "b", "c", "d"]), 1);
    let removed = q.dequeue(&vec![2, 4]);
    let removed: Vec<String> = removed.into_iter().map(|i| i.into_data().info.title).collect();
    assert_eq!(removed, vec!["d", "b"]);
    assert_eq!(titles(&q), vec!["a", "c"]);
}

#[test]
fn drain_gives_back_the_range() {
    let mut q = Queue::new();
    q.enqueue(tracks(&["a", "b", "c", "d"]), 1);
    let drained: Vec<String> = q.drain(1, 3).into_iter().map(|i| i.into_data().info.title).collect();
    assert_eq!(drained, vec!["b", "c"]);
    assert_eq!(titles(&q), vec!["a", "d"]);
}

#[test]
fn drain_all_and_clear_reset_the_queue() {
    let mut q = Queue::new();
    q.enqueue(tracks(&["a", "b"]), 1);
    q.set_repeat_mode(RepeatMode::All);
    q.advance();
    let all = q.drain_all();
    assert_eq!(all.len(), 2);
    assert!(q.is_empty());
    assert_eq!(q.index(), 0);
    assert!(matches!(q.repeat_mode(), RepeatMode::Off));

    q.enqueue(tracks(&["c"]), 1);
    q.set_repeat_mode(RepeatMode::Track);
    q.clear();
    assert!(q.is_empty());
    assert!(matches!(q.repeat_mode(), RepeatMode::Off));
}

#[test]
fn downgrade_repeat_mode_follows_the_queue_length() {
    let mut q = Queue::new();
    q.enqueue(tracks(&["a", "b"]), 1);
    q.set_repeat_mode(RepeatMode::Track);
    q.downgrade_repeat_mode();
    assert!(matches!(q.repeat_mode(), RepeatMode::All));

    let mut q = Queue::new();
    q.enqueue(tracks(&["a"]), 1);
    q.set_repeat_mode(RepeatMode::All);
    q.downgrade_repeat_mode();
    assert!(matches!(q.repeat_mode(), RepeatMode::Off));

    let mut q = Queue::new();
    q.downgrade_repeat_mode();
    assert!(matches!(q.repeat_mode(), RepeatMode::Off));
}

#[test]
fn advancing_disabled_reports_once_and_enables_again() {
    let mut q = Queue::new();
    assert!(!q.advancing_disabled());
    q.disable_advancing();
    assert!(q.advancing_disabled());
    assert!(!q.advancing_disabled());
    q.disable_advancing();
    q.enable_advancing();
    assert!(!q.advancing_disabled());
}

#[test]
fn fair_order_takes_turns_between_requesters() {
    let mut q = Queue::new();
    q.enqueue(tracks(&["a1", "a2"]), 1);
    q.enqueue(tracks(&["b1"]), 2);
    q.enqueue(tracks(&["c1", "c2"]), 3);
    q.set_indexer_type(IndexerType::Fair);
    assert_eq!(q.indexer_type(), IndexerType::Fair);
    let mut order = Vec::new();
    for index in 0..5 {
        q.set_index(index);
        order.push(current_title(&q).unwrap());
    }
    assert_eq!(order, vec!["a1", "b1", "c1", "a2", "c2"]);
    q.set_index(5);
    assert!(q.current().is_none());
}

#[test]
fn new_fair_order_starts_from_the_playing_track() {
    let mut q = Queue::new();
    q.enqueue(tracks(&["a1", "a2", "b1", "b2"]), 1);
    q.set_index(1);
    q.set_indexer_type(IndexerType::Fair);
    assert_eq!(current_title(&q).as_deref(), Some("a2"));
    q.set_index(2);
    // with the fair order set at index 1, the tracks from index 1 on are
    // grouped by requester: here all of them share one
    assert_eq!(current_title(&q).as_deref(), Some("b1"));
}

#[test]
fn shuffling_keeps_the_playing_track_and_every_track() {
    let mut q = Queue::new();
    q.enqueue(tracks(&["a", "b", "c", "d", "e", "f"]), 1);
    q.set_index(2);
    q.set_indexer_type(IndexerType::Shuffled);
    assert_eq!(q.indexer_type(), IndexerType::Shuffled);
    assert_eq!(current_title(&q).as_deref(), Some("c"));
    let mut played = Vec::new();
    for index in 0..6 {
        q.set_index(index);
        played.push(current_title(&q).unwrap());
    }
    assert_eq!(&played[..3], &["a", "b", "c"]);
    played.sort();
    assert_eq!(played, vec!["a", "b", "c", "d", "e", "f"]);
}

#[test]
fn back_to_standard_order_plays_as_stored() {
    let mut q = Queue::new();
    q.enqueue(tracks(&["a", "b", "c"]), 1);
    q.set_indexer_type(IndexerType::Shuffled);
    q.set_indexer_type(IndexerType::Standard);
    q.set_index(2);
    assert_eq!(current_title(&q).as_deref(), Some("c"));
    assert_eq!(q.map_index_expected(2), 2);
}

#[test]
fn remove_and_insert_stored_tracks() {
    let mut q = Queue::new();
    q.enqueue(tracks(&["a", "b", "c"]), 1);
    let b = q.remove(1).unwrap();
    assert!(q.remove(9).is_none());
    assert_eq!(titles(&q), vec!["a", "c"]);
    q.insert(0, b);
    assert_eq!(titles(&q), vec!["b", "a", "c"]);
}

#[test]
fn positions_are_one_based() {
    let mut q = Queue::new();
    q.enqueue(tracks(&["a", "b"]), 1);
    let positions: Vec<usize> = q.positions_and_items().into_iter().map(|(p, _)| p).collect();
    assert_eq!(positions, vec![1, 2]);
    let (current, position) = q.current_and_position();
    assert_eq!(current.unwrap().data().info.title, "a");
    assert_eq!(position, 1);
}

#[test]
fn enqueue_to_a_shuffled_queue_keeps_the_lined_up_order() {
    let mut q = Queue::new();
    q.enqueue(tracks(&["a", "b", "c", "d"]), 1);
    q.set_indexer_type(IndexerType::Shuffled);
    let order = |q: &mut Queue, n: usize| -> Vec<String> {
        (0..n).map(|i| { q.set_index(i); current_title(q).unwrap() }).collect()
    };
    let before = order(&mut q, 4);
    q.set_index(0);
    q.enqueue(tracks(&["e", "f"]), 2);
    let after = order(&mut q, 6);
    assert_eq!(after[0], before[0]);
    let kept: Vec<String> = after.iter().filter(|t| t.as_str() < "e").cloned().collect();
    assert_eq!(kept, before);
}

#[test]
fn the_end_of_a_track_is_defined_where_the_next_index_is_mapped() {
    let mut q = Queue::new();
    assert!(q.advancing_enabled());
    q.disable_advancing();
    assert!(!q.advancing_enabled());
    q.enable_advancing();
    assert!(q.advancing_enabled());
    // an empty queue moves on without repeat, but cannot wrap around
    assert!(q.can_end_track());
    q.set_repeat_mode(RepeatMode::All);
    assert!(!q.can_end_track());
    q.set_repeat_mode(RepeatMode::Off);
    q.enqueue(tracks(&["a1", "a2", "b1"]), 1);
    q.set_index(2);
    q.set_indexer_type(IndexerType::Fair);
    // the fair order starts at index 2
    assert!(q.current_is_mapped());
    assert!(q.can_end_track());
    q.set_index(1);
    assert!(!q.current_is_mapped());
    assert!(q.can_end_track());
    q.set_index(0);
    assert!(!q.current_is_mapped());
    assert!(!q.can_end_track());
    q.set_index(usize::MAX);
    assert!(!q.can_end_track());
}

#[test]
fn recede_with_repeat_all_works_from_any_index() {
    let mut q = Queue::new();
    q.enqueue(tracks(&["a", "b", "c"]), 1);
    q.set_repeat_mode(RepeatMode::All);
    // (7 + 3 - 1) % 3
    q.set_index(7);
    q.recede();
    assert_eq!(q.index(), 0);
    // no overflow near the top of the index range: (MAX + 3 - 1) % 3
    q.set_index(usize::MAX);
    q.recede();
    assert_eq!(q.index(), ((usize::MAX as u128 + 2) % 3) as usize);
    for index in 0..3 {
        q.set_index(index);
        q.advance();
        q.recede();
        assert_eq!(q.index(), index);
    }
}
