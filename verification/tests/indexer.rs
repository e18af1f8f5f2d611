use lyra::indexer::{FairIndexer, ShuffledIndexer};
use lyra::queue::Item;
use lyra::track::{PlaylistAwareTrackData, TrackData, TrackInfo};
use std::collections::{HashSet, VecDeque};

fn item(requester: u64) -> Item {
    let info = TrackInfo {
        identifier: "id".to_owned(),
        is_seekable: true,
        author: "a".to_owned(),
        length: 1,
        is_stream: false,
        position: 0,
        title: "t".to_owned(),
        uri: None,
        artwork_url: None,
        isrc: None,
        source_name: "http".to_owned(),
    };
    Item::new(
        PlaylistAwareTrackData::from(TrackData {
            encoded: String::new(),
            info,
            plugin_info: None,
        }),
        requester,
    )
}

fn items(requesters: &[u64]) -> VecDeque<Item> {
    requesters.iter().map(|r| item(*r)).collect()
}

fn fair_order(f: &FairIndexer, start: usize, n: usize) -> Vec<Option<usize>> {
    (start..start + n).map(|i| f.current(i)).collect()
}

#[test]
fn fair_indexer_round_robins_over_requester_runs() {
    let f = FairIndexer::new(&items(&[1, 1, 2, 3, 3]), 0);
    assert_eq!(
        fair_order(&f, 0, 6),
        vec![Some(0), Some(2), Some(3), Some(1), Some(4), None]
    );
}

#[test]
fn fair_indexer_starts_at_its_starting_index() {
    let f = FairIndexer::new(&items(&[9, 1, 1, 2]), 1);
    assert_eq!(fair_order(&f, 1, 4), vec![Some(1), Some(3), Some(2), None]);
}

#[test]
fn fair_indexer_enqueue_joins_the_last_run() {
    let mut f = FairIndexer::new(&items(&[1, 2]), 0);
    f.enqueue(1, 2);
    f.enqueue(1, 3);
    // runs: (1,1) (2,2) (3,1)
    assert_eq!(fair_order(&f, 0, 5), vec![Some(0), Some(1), Some(3), Some(2), None]);
}

#[test]
fn fair_indexer_clear_empties_it() {
    let mut f = FairIndexer::new(&items(&[1, 2]), 1);
    f.clear();
    assert_eq!(f.current(0), None);
}

#[test]
fn shuffled_indexer_is_a_permutation_fixing_the_prefix() {
    for _ in 0..20 {
        let s = ShuffledIndexer::new(8, 3);
        let order: Vec<usize> = (0..8).map(|i| s.current(i).unwrap()).collect();
        assert_eq!(&order[..4], &[0, 1, 2, 3]);
        let mut sorted = order.clone();
        sorted.sort();
        assert_eq!(sorted, (0..8).collect::<Vec<_>>());
        assert_eq!(s.current(8), None);
    }
}

#[test]
fn shuffled_indexer_enqueue_keeps_the_played_prefix() {
    let mut s = ShuffledIndexer::new(4, 1);
    let before: Vec<usize> = (0..2).map(|i| s.current(i).unwrap()).collect();
    s.enqueue(3, 1);
    let order: Vec<usize> = (0..7).map(|i| s.current(i).unwrap()).collect();
    assert_eq!(&order[..2], &before[..]);
    let mut sorted = order.clone();
    sorted.sort();
    assert_eq!(sorted, (0..7).collect::<Vec<_>>());
}

#[test]
fn shuffled_indexer_dequeue_and_drain_remove_entries() {
    let mut s = ShuffledIndexer::new(5, 4);
    assert_eq!((0..5).map(|i| s.current(i).unwrap()).collect::<Vec<_>>(), vec![0, 1, 2, 3, 4]);
    s.dequeue(&HashSet::from([1]));
    assert_eq!((0..4).map(|i| s.current(i).unwrap()).collect::<Vec<_>>(), vec![0, 2, 3, 4]);
    s.drain(0, 2);
    assert_eq!((0..2).map(|i| s.current(i).unwrap()).collect::<Vec<_>>(), vec![3, 4]);
    assert_eq!(s.current(2), None);
    s.clear();
    assert_eq!(s.current(0), None);
}

#[test]
fn fair_indexer_dequeue_keeps_only_emptied_runs() {
    // The retained runs are the ones whose size drops to zero.
    let mut f = FairIndexer::new(&items(&[1, 2, 2]), 0);
    f.dequeue_or_drain(&vec![0]);
    assert_eq!(f.current(0), None);
}

#[test]
fn shuffled_orders_vary() {
    // Ten entries after the first leave 10! orders; fifty draws that all come
    // out in stored order would mean the entries are not shuffled.
    let sorted: Vec<usize> = (0..11).collect();
    let varied = (0..50).any(|_| {
        let s = ShuffledIndexer::new(11, 0);
        (0..11).map(|i| s.current(i).unwrap()).collect::<Vec<_>>() != sorted
    });
    assert!(varied);
}

#[test]
fn enqueued_entries_land_at_varying_places() {
    // Each added entry goes to a random place after the current one; fifty
    // rounds that all append at the end would mean no place is drawn.
    let varied = (0..50).any(|_| {
        let mut s = ShuffledIndexer::new(1, 0);
        s.enqueue(6, 0);
        (0..7).map(|i| s.current(i).unwrap()).collect::<Vec<_>>() != (0..7).collect::<Vec<_>>()
    });
    assert!(varied);
}

#[test]
fn enqueue_keeps_the_order_of_the_entries_already_there() {
    for _ in 0..20 {
        let mut s = ShuffledIndexer::new(6, 1);
        let before: Vec<usize> = (0..6).map(|i| s.current(i).unwrap()).collect();
        s.enqueue(4, 1);
        let after: Vec<usize> = (0..10).map(|i| s.current(i).unwrap()).collect();
        let old_entries: Vec<usize> = after.iter().copied().filter(|v| *v < 6).collect();
        assert_eq!(old_entries, before);
        assert_eq!(&after[..2], &before[..2]);
    }
}
