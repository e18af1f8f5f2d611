//! The play queue: repeat modes, the current position and the mapping from
//! playing order to stored order.

use vstd::prelude::*;
use std::collections::VecDeque;
use std::time::Duration;
use crate::track::{PlaylistAwareTrackData, PlaylistMetadata, TrackData};
use crate::indexer::{
    ascending, fair_enqueue, insert_each, valid_insert_places, fair_order, fair_retain, lens_of, remove_listed, run_lengths,
    skip_from, total, FairIndexer, Indexer, IndexerType, ShuffledIndexer,
};

verus! {

/// How the queue behaves once the current track ends.
#[derive(Clone, Copy, Debug, Hash, PartialEq, Eq, Structural)]
pub enum RepeatMode {
    Off,
    All,
    Track,
}

/// The mode that follows `mode` in the cycle `Off -> All -> Track -> Off`.
pub open spec fn next_repeat_mode(mode: RepeatMode) -> RepeatMode {
    match mode {
        RepeatMode::Off => RepeatMode::All,
        RepeatMode::All => RepeatMode::Track,
        RepeatMode::Track => RepeatMode::Off,
    }
}

/// The emoji shown for each repeat mode.
pub open spec fn repeat_mode_emoji(mode: RepeatMode) -> Seq<char> {
    match mode {
        RepeatMode::Off => "➡️"@,
        RepeatMode::All => "🔁"@,
        RepeatMode::Track => "🔂"@,
    }
}

/// The sentence that announces each repeat mode.
pub open spec fn repeat_mode_description(mode: RepeatMode) -> Seq<char> {
    match mode {
        RepeatMode::Off => "Disabled repeat"@,
        RepeatMode::All => "Enabled repeat"@,
        RepeatMode::Track => "Enabled repeat one"@,
    }
}

impl RepeatMode {
    pub fn next(self) -> (r: Self)
        ensures
            r == next_repeat_mode(self),
    {
        match self {
            RepeatMode::Off => RepeatMode::All,
            RepeatMode::All => RepeatMode::Track,
            RepeatMode::Track => RepeatMode::Off,
        }
    }

    pub fn emoji(&self) -> (r: &'static str)
        ensures
            r@ == repeat_mode_emoji(*self),
    {
        match self {
            RepeatMode::Off => "➡️",
            RepeatMode::All => "🔁",
            RepeatMode::Track => "🔂",
        }
    }

    pub fn description(&self) -> (r: &'static str)
        ensures
            r@ == repeat_mode_description(*self),
    {
        match self {
            RepeatMode::Off => "Disabled repeat",
            RepeatMode::All => "Enabled repeat",
            RepeatMode::Track => "Enabled repeat one",
        }
    }
}

/// Cycling the repeat mode three times gives back the mode one started with,
/// and no mode is its own successor.
pub proof fn lemma_repeat_mode_cycle(mode: RepeatMode)
    ensures
        next_repeat_mode(next_repeat_mode(next_repeat_mode(mode))) == mode,
        next_repeat_mode(mode) != mode,
        next_repeat_mode(next_repeat_mode(mode)) != mode,
{
}

/// Distinct repeat modes are announced by distinct descriptions and emojis.
pub proof fn lemma_repeat_mode_texts_distinct(a: RepeatMode, b: RepeatMode)
    requires
        a != b,
    ensures
        repeat_mode_description(a) != repeat_mode_description(b),
        repeat_mode_emoji(a) != repeat_mode_emoji(b),
{
    reveal_strlit("➡️");
    reveal_strlit("🔁");
    reveal_strlit("🔂");
    reveal_strlit("Disabled repeat");
    reveal_strlit("Enabled repeat");
    reveal_strlit("Enabled repeat one");
    assert("➡️"@[0] != "🔁"@[0]);
    assert("➡️"@[0] != "🔂"@[0]);
    assert("🔁"@[0] != "🔂"@[0]);
    assert("Disabled repeat"@[0] != "Enabled repeat"@[0]);
    assert("Disabled repeat"@[0] != "Enabled repeat one"@[0]);
    assert("Enabled repeat"@.len() != "Enabled repeat one"@.len());
}

/// The time elapsed since the Unix epoch, read with
/// `std::time::SystemTime::elapsed` on the epoch, or zero for a clock set
/// before it.  Nothing is claimed of the value: it depends on the clock.
#[verifier::external_body]
fn unix_time() -> (t: Duration) {
    std::time::UNIX_EPOCH.elapsed().unwrap_or_default()
}

/// A track in the queue, with who asked for it and when.
pub struct Item {
    track: PlaylistAwareTrackData,
    enqueued: Duration,
    requester: u64,
}

impl Item {
    pub closed spec fn spec_track(&self) -> PlaylistAwareTrackData {
        self.track
    }

    pub closed spec fn spec_enqueued(&self) -> Duration {
        self.enqueued
    }

    pub closed spec fn spec_requester(&self) -> u64 {
        self.requester
    }

    /// A new item, stamped with the current time.
    pub fn new(track: PlaylistAwareTrackData, requester: u64) -> (r: Self)
        ensures
            r.spec_track() == track,
            r.spec_requester() == requester,
    {
        Self { track, requester, enqueued: unix_time() }
    }

    pub fn requester(&self) -> (r: u64)
        ensures
            r == self.spec_requester(),
    {
        self.requester
    }

    pub fn data(&self) -> (r: &TrackData)
        ensures
            *r == self.spec_track().spec_inner(),
    {
        self.track.inner()
    }

    pub fn playlist_data(&self) -> (r: Option<&PlaylistMetadata>)
        ensures
            r == match self.spec_track().spec_playlist() {
                Some(p) => Some(&p),
                None => None::<&PlaylistMetadata>,
            },
    {
        self.track.playlist()
    }

    pub fn enqueued(&self) -> (r: Duration)
        ensures
            r == self.spec_enqueued(),
    {
        self.enqueued
    }

    pub fn into_data(self) -> (r: TrackData)
        ensures
            r == self.spec_track().spec_inner(),
    {
        self.track.into_inner()
    }
}

/// The requesters of `items`, in order.
pub open spec fn requesters(items: Seq<Item>) -> Seq<u64> {
    Seq::new(items.len(), |i: int| items[i].spec_requester())
}

/// The index played after `index` in a queue of `len` tracks.
pub open spec fn next_index_of(mode: RepeatMode, index: int, len: int) -> int {
    match mode {
        RepeatMode::Off => index + 1,
        RepeatMode::All => (index + 1) % len,
        RepeatMode::Track => index,
    }
}

/// The index played before `index` in a queue of `len` tracks.
pub open spec fn prev_index_of(mode: RepeatMode, index: int, len: int) -> int {
    match mode {
        RepeatMode::Off => if index > 0 {
            index - 1
        } else {
            0
        },
        RepeatMode::All => (if index + len > 0 {
            index + len - 1
        } else {
            0
        }) % len,
        RepeatMode::Track => index,
    }
}

/// Moving back undoes moving on: from any index when the queue does not
/// repeat or repeats one track, and from any index inside the queue when it
/// repeats as a whole.  Moving on undoes moving back likewise, except at the
/// very start of a queue that does not repeat.
pub proof fn lemma_recede_undoes_advance(mode: RepeatMode, index: int, len: int)
    requires
        index >= 0,
        mode == RepeatMode::All ==> 0 <= index < len,
    ensures
        prev_index_of(mode, next_index_of(mode, index, len), len) == index,
        mode != RepeatMode::Off || index > 0 ==> next_index_of(
            mode,
            prev_index_of(mode, index, len),
            len,
        ) == index,
{
    if mode == RepeatMode::All {
        if index + 1 < len {
            assert((index + 1) % len == index + 1) by (nonlinear_arith)
                requires
                    0 <= index + 1 < len,
            ;
            assert((index + 1 + len - 1) % len == index) by (nonlinear_arith)
                requires
                    0 <= index < len,
            ;
        } else {
            assert((index + 1) % len == 0) by (nonlinear_arith)
                requires
                    index + 1 == len,
                    len > 0,
            ;
            assert((0 + len - 1) % len == index) by (nonlinear_arith)
                requires
                    index + 1 == len,
                    len > 0,
            ;
        }
        if index > 0 {
            assert((index + len - 1) % len == index - 1) by (nonlinear_arith)
                requires
                    0 < index < len,
            ;
            assert((index - 1 + 1) % len == index) by (nonlinear_arith)
                requires
                    0 < index < len,
            ;
        } else {
            assert((index + len - 1) % len == len - 1) by (nonlinear_arith)
                requires
                    index == 0,
                    len > 0,
            ;
            assert((len - 1 + 1) % len == 0) by (nonlinear_arith)
                requires
                    len > 0,
            ;
        }
    }
}

/// The one-based position shown for `index`, given whether a track is
/// playing there.
pub open spec fn position_of(index: int, has_current: bool) -> int {
    if has_current || index == 0 {
        index + 1
    } else {
        index
    }
}

/// Removes the items at `indices`, the last listed index first, skipping
/// indices that are out of range; gives the remaining items and the removed
/// ones in the order of removal.
pub open spec fn remove_in_reverse(items: Seq<Item>, indices: Seq<usize>) -> (Seq<Item>, Seq<Item>)
    decreases indices.len(),
{
    if indices.len() == 0 {
        (items, Seq::empty())
    } else {
        let i = indices.last() as int;
        let (items2, removed) = if i < items.len() {
            (items.remove(i), seq![items[i]])
        } else {
            (items, Seq::<Item>::empty())
        };
        let (items3, removed2) = remove_in_reverse(items2, indices.drop_last());
        (items3, removed + removed2)
    }
}

/// On a queue, moving back right after moving on is always defined and
/// returns to the index played before, whatever the repeat mode; with the
/// whole queue repeating, from any index inside the queue.
pub proof fn lemma_queue_recede_after_advance(before: Queue, advanced: Queue, receded: Queue)
    requires
        before.can_advance(),
        before.spec_repeat_mode() == RepeatMode::All ==> before.spec_index() < before.items().len(),
        advanced.spec_index() == before.spec_next_index(),
        advanced.items() == before.items(),
        advanced.spec_repeat_mode() == before.spec_repeat_mode(),
        receded.spec_index() == advanced.spec_prev_index(),
    ensures
        advanced.can_recede(),
        receded.spec_index() == before.spec_index(),
{
    lemma_recede_undoes_advance(
        before.spec_repeat_mode(),
        before.spec_index() as int,
        before.items().len() as int,
    );
}

/// Removing tracks by index neither loses nor invents any: the remaining
/// tracks and the removed ones together are the tracks there were.
pub proof fn lemma_remove_in_reverse_keeps_every_track(items: Seq<Item>, indices: Seq<usize>)
    ensures
        remove_in_reverse(items, indices).0.to_multiset().add(
            remove_in_reverse(items, indices).1.to_multiset(),
        ) == items.to_multiset(),
    decreases indices.len(),
{
    broadcast use vstd::multiset::group_multiset_axioms;
    broadcast use vstd::seq_lib::group_to_multiset_ensures;

    if indices.len() == 0 {
        assert(remove_in_reverse(items, indices).1 =~= Seq::<Item>::empty());
        assert(items.to_multiset().add(Seq::<Item>::empty().to_multiset()) =~= items.to_multiset());
    } else {
        let i = indices.last() as int;
        let rest = indices.drop_last();
        if i < items.len() {
            let items2 = items.remove(i);
            let x = items[i];
            lemma_remove_in_reverse_keeps_every_track(items2, rest);
            let (items3, removed2) = remove_in_reverse(items2, rest);
            vstd::seq_lib::lemma_multiset_commutative(seq![x], removed2);
            let m = items.to_multiset();
            let single = seq![x].to_multiset();
            assert(seq![x].drop_first() =~= Seq::<Item>::empty());
            assert(single =~= vstd::multiset::Multiset::<Item>::empty().insert(x));
            assert(items2.to_multiset() == m.remove(x));
            assert(m.count(x) > 0) by {
                assert(items.contains(x)) by {
                    assert(items[i] == x);
                }
            }
            let lhs = items3.to_multiset().add((seq![x] + removed2).to_multiset());
            assert forall|y: Item| #[trigger] lhs.count(y) == m.count(y) by {
                assert(items3.to_multiset().count(y) + removed2.to_multiset().count(y)
                    == m.remove(x).count(y));
            }
            assert(lhs =~= m);
        } else {
            lemma_remove_in_reverse_keeps_every_track(items, rest);
            let (items3, removed2) = remove_in_reverse(items, rest);
            assert(Seq::<Item>::empty() + removed2 =~= removed2);
        }
    }
}

/// The zero-based indices of the one-based `positions`.
pub open spec fn indices_of_positions(positions: Seq<usize>) -> Seq<usize> {
    Seq::new(positions.len(), |i: int| (positions[i] - 1) as usize)
}

/// The queue of tracks of one player.
pub struct Queue {
    inner: VecDeque<Item>,
    index: usize,
    indexer: Indexer,
    repeat_mode: RepeatMode,
    advancing_enabled: bool,
}

impl Queue {
    /// The stored tracks, in stored order.
    pub closed spec fn items(&self) -> Seq<Item> {
        self.inner@
    }

    /// The playing index.
    pub closed spec fn spec_index(&self) -> nat {
        self.index as nat
    }

    pub closed spec fn spec_indexer(&self) -> Indexer {
        self.indexer
    }

    pub closed spec fn spec_repeat_mode(&self) -> RepeatMode {
        self.repeat_mode
    }

    /// Whether the queue moves on by itself when a track ends.
    pub closed spec fn spec_advancing_enabled(&self) -> bool {
        self.advancing_enabled
    }

    pub open spec fn wf(&self) -> bool {
        self.spec_indexer().wf()
    }

    /// Whether the playing index `i` can be mapped to a stored position.
    pub open spec fn maps(&self, i: int) -> bool {
        match self.spec_indexer() {
            Indexer::Fair(f) => i >= f.start(),
            _ => true,
        }
    }

    /// The stored position played at index `i`, if any.
    pub open spec fn mapped(&self, i: int) -> Option<int> {
        match self.spec_indexer() {
            Indexer::Standard => Some(i),
            Indexer::Fair(f) => {
                let order = fair_order(lens_of(f.buckets()), f.start() as int);
                if 0 <= i - f.start() < order.len() {
                    Some(order[i - f.start()])
                } else {
                    None
                }
            },
            Indexer::Shuffled(s) => if 0 <= i < s.order().len() {
                Some(s.order()[i] as int)
            } else {
                None
            },
        }
    }

    /// The item played at index `i`, if any.
    pub open spec fn item_at_index(&self, i: int) -> Option<Item> {
        match self.mapped(i) {
            Some(p) => if 0 <= p < self.items().len() {
                Some(self.items()[p])
            } else {
                None
            },
            None => None,
        }
    }

    /// The index played after the current one.
    pub open spec fn spec_next_index(&self) -> int {
        next_index_of(self.spec_repeat_mode(), self.spec_index() as int, self.items().len() as int)
    }

    /// The index played before the current one.
    pub open spec fn spec_prev_index(&self) -> int {
        prev_index_of(self.spec_repeat_mode(), self.spec_index() as int, self.items().len() as int)
    }

    /// Moving on is defined: it neither overflows nor divides by an empty
    /// length.
    pub open spec fn can_advance(&self) -> bool {
        match self.spec_repeat_mode() {
            RepeatMode::Off => self.spec_index() < usize::MAX,
            RepeatMode::All => self.items().len() > 0 && self.spec_index() < usize::MAX,
            RepeatMode::Track => true,
        }
    }

    /// Moving back is defined.
    pub open spec fn can_recede(&self) -> bool {
        match self.spec_repeat_mode() {
            RepeatMode::All => self.items().len() > 0,
            _ => true,
        }
    }

    /// An empty queue, played in stored order without repeating.
    pub fn new() -> (r: Self)
        ensures
            r.wf(),
            r.items() == Seq::<Item>::empty(),
            r.spec_index() == 0,
            r.spec_indexer() == Indexer::Standard,
            r.spec_repeat_mode() == RepeatMode::Off,
            r.spec_advancing_enabled(),
    {
        Queue {
            inner: VecDeque::new(),
            indexer: Indexer::Standard,
            index: 0,
            repeat_mode: RepeatMode::Off,
            advancing_enabled: true,
        }
    }

    proof fn lemma_mapped_bounds(&self, i: int)
        requires
            self.wf(),
            self.maps(i),
            self.item_at_index(i) is Some,
        ensures
            i < usize::MAX,
    {
        assert(self.inner.len() == self.inner@.len());
        match self.spec_indexer() {
            Indexer::Fair(f) => {
                crate::indexer::lemma_fair_order_len(lens_of(f.buckets()), f.start() as int);
            },
            Indexer::Shuffled(s) => {
                s.lemma_order_len();
            },
            Indexer::Standard => {},
        }
    }

    fn map_index(&self, index: usize) -> (r: Option<usize>)
        requires
            self.wf(),
            self.maps(index as int),
        ensures
            match r {
                Some(p) => self.mapped(index as int) == Some(p as int),
                None => self.mapped(index as int) is None,
            },
    {
        match &self.indexer {
            Indexer::Standard => Some(index),
            Indexer::Fair(f) => f.current(index),
            Indexer::Shuffled(s) => s.current(index),
        }
    }

    /// The stored position played at `index`.
    pub fn map_index_expected(&self, index: usize) -> (r: usize)
        requires
            self.wf(),
            self.maps(index as int),
            self.mapped(index as int) is Some,
        ensures
            self.mapped(index as int) == Some(r as int),
    {
        match self.map_index(index) {
            Some(p) => p,
            None => {
                proof {
                    assert(false);
                }
                0
            },
        }
    }

    fn get_mapped(&self, index: usize) -> (r: Option<&Item>)
        requires
            self.wf(),
            self.maps(index as int),
        ensures
            r == match self.item_at_index(index as int) {
                Some(it) => Some(&it),
                None => None::<&Item>,
            },
    {
        match self.map_index(index) {
            Some(p) => if p < self.inner.len() {
                Some(&self.inner[p])
            } else {
                None
            },
            None => None,
        }
    }

    /// The track playing now, if any.
    pub fn current(&self) -> (r: Option<&Item>)
        requires
            self.wf(),
            self.maps(self.spec_index() as int),
        ensures
            r == match self.item_at_index(self.spec_index() as int) {
                Some(it) => Some(&it),
                None => None::<&Item>,
            },
    {
        self.get_mapped(self.index)
    }

    /// The playing index, when a track is playing there.
    pub fn current_index(&self) -> (r: Option<usize>)
        requires
            self.wf(),
            self.maps(self.spec_index() as int),
        ensures
            r == if self.item_at_index(self.spec_index() as int) is Some {
                Some(self.spec_index() as usize)
            } else {
                None::<usize>
            },
    {
        match self.current() {
            Some(_) => Some(self.index),
            None => None,
        }
    }

    fn position_from(&self, has_current: bool) -> (r: usize)
        requires
            has_current ==> self.spec_index() < usize::MAX,
        ensures
            r == position_of(self.spec_index() as int, has_current),
            r >= 1,
    {
        if has_current || self.index == 0 {
            self.index + 1
        } else {
            self.index
        }
    }

    /// The one-based position shown for the current track: the index plus
    /// one while a track plays there or the queue is at its start, the index
    /// itself otherwise.
    pub fn position(&self) -> (r: usize)
        requires
            self.wf(),
            self.maps(self.spec_index() as int),
        ensures
            r == position_of(
                self.spec_index() as int,
                self.item_at_index(self.spec_index() as int) is Some,
            ),
            r >= 1,
    {
        let c = self.current();
        proof {
            if c.is_some() {
                self.lemma_mapped_bounds(self.spec_index() as int);
            }
        }
        self.position_from(c.is_some())
    }

    /// The track playing now and its one-based position.
    pub fn current_and_position(&self) -> (r: (Option<&Item>, usize))
        requires
            self.wf(),
            self.maps(self.spec_index() as int),
        ensures
            r.0 == match self.item_at_index(self.spec_index() as int) {
                Some(it) => Some(&it),
                None => None::<&Item>,
            },
            r.1 == position_of(
                self.spec_index() as int,
                self.item_at_index(self.spec_index() as int) is Some,
            ),
    {
        let current = self.current();
        proof {
            if current.is_some() {
                self.lemma_mapped_bounds(self.spec_index() as int);
            }
        }
        let position = self.position_from(current.is_some());
        (current, position)
    }

    pub fn index(&self) -> (r: usize)
        ensures
            r == self.spec_index(),
    {
        self.index
    }

    /// Moves the playing index to `index`.
    pub fn set_index(&mut self, index: usize)
        ensures
            final(self).spec_index() == index,
            final(self).items() == old(self).items(),
            final(self).spec_indexer() == old(self).spec_indexer(),
            final(self).spec_repeat_mode() == old(self).spec_repeat_mode(),
            final(self).spec_advancing_enabled() == old(self).spec_advancing_enabled(),
    {
        self.index = index;
    }

    fn next_index(&self) -> (r: usize)
        requires
            self.can_advance(),
        ensures
            r == self.spec_next_index(),
    {
        match self.repeat_mode {
            RepeatMode::Off => self.index + 1,
            RepeatMode::All => (self.index + 1) % self.inner.len(),
            RepeatMode::Track => self.index,
        }
    }

    fn prev_index(&self) -> (r: usize)
        requires
            self.can_recede(),
        ensures
            r == self.spec_prev_index(),
    {
        match self.repeat_mode {
            RepeatMode::Off => self.index.saturating_sub(1),
            RepeatMode::All => {
                // (index + len - 1) % len, without forming index + len
                let len = self.inner.len();
                let r = self.index % len;
                proof {
                    let i = self.index as int;
                    let l = len as int;
                    let q = i / l;
                    vstd::arithmetic::div_mod::lemma_fundamental_div_mod(i, l);
                    assert(l * q == q * l && (q + 1) * l == q * l + l) by (nonlinear_arith);
                    if i % l == 0 {
                        vstd::arithmetic::div_mod::lemma_fundamental_div_mod_converse(
                            i + l - 1,
                            l,
                            q,
                            l - 1,
                        );
                    } else {
                        vstd::arithmetic::div_mod::lemma_fundamental_div_mod_converse(
                            i + l - 1,
                            l,
                            q + 1,
                            i % l - 1,
                        );
                    }
                }
                if r == 0 {
                    len - 1
                } else {
                    r - 1
                }
            },
            RepeatMode::Track => self.index,
        }
    }

    /// The track played after the current one, if any.
    pub fn next(&self) -> (r: Option<&Item>)
        requires
            self.wf(),
            self.can_advance(),
            self.maps(self.spec_next_index()),
        ensures
            r == match self.item_at_index(self.spec_next_index()) {
                Some(it) => Some(&it),
                None => None::<&Item>,
            },
    {
        self.get_mapped(self.next_index())
    }

    /// Moves to the next track, as the repeat mode says.
    pub fn advance(&mut self)
        requires
            old(self).can_advance(),
        ensures
            final(self).spec_index() == old(self).spec_next_index(),
            final(self).items() == old(self).items(),
            final(self).spec_indexer() == old(self).spec_indexer(),
            final(self).spec_repeat_mode() == old(self).spec_repeat_mode(),
            final(self).spec_advancing_enabled() == old(self).spec_advancing_enabled(),
    {
        self.index = self.next_index();
    }

    /// Moves to the previous track, as the repeat mode says.
    pub fn recede(&mut self)
        requires
            old(self).can_recede(),
        ensures
            final(self).spec_index() == old(self).spec_prev_index(),
            final(self).items() == old(self).items(),
            final(self).spec_indexer() == old(self).spec_indexer(),
            final(self).spec_repeat_mode() == old(self).spec_repeat_mode(),
            final(self).spec_advancing_enabled() == old(self).spec_advancing_enabled(),
    {
        self.index = self.prev_index();
    }

    pub fn repeat_mode(&self) -> (r: RepeatMode)
        ensures
            r == self.spec_repeat_mode(),
    {
        self.repeat_mode
    }

    pub fn set_repeat_mode(&mut self, mode: RepeatMode)
        ensures
            final(self).spec_repeat_mode() == mode,
            final(self).items() == old(self).items(),
            final(self).spec_index() == old(self).spec_index(),
            final(self).spec_indexer() == old(self).spec_indexer(),
            final(self).spec_advancing_enabled() == old(self).spec_advancing_enabled(),
    {
        self.repeat_mode = mode;
    }

    /// After tracks were removed: a repeating queue keeps repeating the whole
    /// queue while more than one track is left, and stops repeating
    /// otherwise.
    pub fn downgrade_repeat_mode(&mut self)
        ensures
            final(self).spec_repeat_mode() == match old(self).spec_repeat_mode() {
                RepeatMode::Off => RepeatMode::Off,
                _ => if old(self).items().len() > 1 {
                    RepeatMode::All
                } else {
                    RepeatMode::Off
                },
            },
            final(self).items() == old(self).items(),
            final(self).spec_index() == old(self).spec_index(),
            final(self).spec_indexer() == old(self).spec_indexer(),
            final(self).spec_advancing_enabled() == old(self).spec_advancing_enabled(),
    {
        match self.repeat_mode {
            RepeatMode::All | RepeatMode::Track => {
                self.repeat_mode = if self.inner.len() > 1 {
                    RepeatMode::All
                } else {
                    RepeatMode::Off
                };
            },
            RepeatMode::Off => {},
        }
    }

    pub fn indexer_type(&self) -> (r: IndexerType)
        ensures
            r == self.spec_indexer().spec_kind(),
    {
        self.indexer.kind()
    }

    /// Stops the queue from moving on by itself when the current track ends.
    pub fn disable_advancing(&mut self)
        ensures
            !final(self).spec_advancing_enabled(),
            final(self).items() == old(self).items(),
            final(self).spec_index() == old(self).spec_index(),
            final(self).spec_indexer() == old(self).spec_indexer(),
            final(self).spec_repeat_mode() == old(self).spec_repeat_mode(),
    {
        self.advancing_enabled = false;
    }

    /// Lets the queue move on by itself again.
    pub fn enable_advancing(&mut self)
        ensures
            final(self).spec_advancing_enabled(),
            final(self).items() == old(self).items(),
            final(self).spec_index() == old(self).spec_index(),
            final(self).spec_indexer() == old(self).spec_indexer(),
            final(self).spec_repeat_mode() == old(self).spec_repeat_mode(),
    {
        self.advancing_enabled = true;
    }

    /// Whether the queue moves on by itself when a track ends.
    pub fn advancing_enabled(&self) -> (r: bool)
        ensures
            r == self.spec_advancing_enabled(),
    {
        self.advancing_enabled
    }

    /// Whether the end of a track can be carried out: moving on is defined
    /// and the index moved to can be mapped to a stored position.
    pub fn can_end_track(&self) -> (r: bool)
        ensures
            r == (self.can_advance() && self.maps(self.spec_next_index())),
    {
        let defined = match self.repeat_mode {
            RepeatMode::Off => self.index < usize::MAX,
            RepeatMode::All => self.inner.len() > 0 && self.index < usize::MAX,
            RepeatMode::Track => true,
        };
        if !defined {
            return false;
        }
        let next = self.next_index();
        match &self.indexer {
            Indexer::Fair(f) => next >= f.starting_index(),
            _ => true,
        }
    }

    /// Whether the playing index can be mapped to a stored position.
    pub fn current_is_mapped(&self) -> (r: bool)
        ensures
            r == self.maps(self.spec_index() as int),
    {
        match &self.indexer {
            Indexer::Fair(f) => self.index >= f.starting_index(),
            _ => true,
        }
    }

    /// Whether moving on was disabled; when it was, it is enabled again.
    /// The answer is read at once: where an end of a track may be followed
    /// closely by the request that disabled moving on, the caller waits for
    /// that request, up to a time limit, before it asks.
    pub fn advancing_disabled(&mut self) -> (r: bool)
        ensures
            r == !old(self).spec_advancing_enabled(),
            final(self).spec_advancing_enabled(),
            final(self).items() == old(self).items(),
            final(self).spec_index() == old(self).spec_index(),
            final(self).spec_indexer() == old(self).spec_indexer(),
            final(self).spec_repeat_mode() == old(self).spec_repeat_mode(),
    {
        let disabled = !self.advancing_enabled;
        if disabled {
            self.advancing_enabled = true;
        }
        disabled
    }

    /// Adding `n` tracks is defined: the queue and the order's positions fit
    /// in a `usize`, and a shuffled order has a current position to insert
    /// after.
    pub open spec fn enqueue_defined(&self, n: nat) -> bool {
        &&& self.items().len() + n <= usize::MAX
        &&& match self.spec_indexer() {
            Indexer::Fair(f) => f.start() + total(lens_of(f.buckets())) + n <= usize::MAX,
            Indexer::Shuffled(s) => s.order().len() + n <= usize::MAX && (n > 0
                ==> self.spec_index() < s.order().len()),
            Indexer::Standard => true,
        }
    }

    /// Adds `tracks`, requested by `requester`, at the end of the queue.
    pub fn enqueue(&mut self, tracks: Vec<PlaylistAwareTrackData>, requester: u64)
        requires
            old(self).wf(),
            old(self).enqueue_defined(tracks@.len()),
        ensures
            final(self).wf(),
            final(self).items().len() == old(self).items().len() + tracks@.len(),
            forall|i: int|
                0 <= i < old(self).items().len() ==> #[trigger] final(self).items()[i] == old(self).items()[i],
            forall|i: int|
                0 <= i < tracks@.len() ==> {
                    &&& #[trigger] final(self).items()[old(self).items().len() + i].spec_track()
                        == tracks@[i]
                    &&& final(self).items()[old(self).items().len() + i].spec_requester()
                        == requester
                },
            final(self).spec_index() == old(self).spec_index(),
            final(self).spec_repeat_mode() == old(self).spec_repeat_mode(),
            final(self).spec_advancing_enabled() == old(self).spec_advancing_enabled(),
            final(self).spec_indexer().spec_kind() == old(self).spec_indexer().spec_kind(),
            match (old(self).spec_indexer(), final(self).spec_indexer()) {
                (Indexer::Fair(a), Indexer::Fair(b)) => b.start() == a.start() && b.buckets()
                    == fair_enqueue(a.buckets(), tracks@.len(), requester),
                (Indexer::Shuffled(a), Indexer::Shuffled(b)) => {
                    &&& b.order().len() == a.order().len() + tracks@.len()
                    &&& tracks@.len() > 0 ==> b.order().subrange(0, old(self).spec_index() + 1int)
                        == a.order().subrange(0, old(self).spec_index() + 1int)
                    &&& tracks@.len() == 0 ==> b.order() == a.order()
                    &&& exists|places: Seq<usize>|
                        {
                            &&& places.len() == tracks@.len()
                            &&& valid_insert_places(
                                places,
                                old(self).spec_index() as int,
                                a.order().len() as int,
                            )
                            &&& b.order() == insert_each(a.order(), places, a.order().len() as int)
                        }
                    &&& b.order().to_multiset() == a.order().to_multiset().add(
                        ascending(a.order().len() as int, a.order().len() + tracks@.len() as int).to_multiset(),
                    )
                },
                (Indexer::Standard, Indexer::Standard) => true,
                _ => false,
            },
            // Outside the fair order, adding tracks never changes the track
            // that is playing.
            old(self).spec_indexer().spec_kind() != IndexerType::Fair && old(self).item_at_index(
                old(self).spec_index() as int,
            ) is Some ==> final(self).item_at_index(final(self).spec_index() as int) == old(self).item_at_index(old(self).spec_index() as int),
    {
        let n = tracks.len();
        match &mut self.indexer {
            Indexer::Fair(f) => f.enqueue(n, requester),
            Indexer::Shuffled(s) => s.enqueue(n, self.index),
            Indexer::Standard => {},
        }
        let ghost old_items = self.inner@;
        let ghost indexer_after = self.indexer;
        let ghost index0 = self.index;
        let ghost mode0 = self.repeat_mode;
        let ghost adv0 = self.advancing_enabled;
        for t in iter: tracks.into_iter()
            invariant
                self.indexer == indexer_after,
                self.index == index0,
                self.repeat_mode == mode0,
                self.advancing_enabled == adv0,
                iter.seq() == tracks@,
                self.inner@.len() == old_items.len() + iter.index(),
                forall|i: int| 0 <= i < old_items.len() ==> #[trigger] self.inner@[i] == old_items[i],
                forall|i: int|
                    0 <= i < iter.index() ==> {
                        &&& #[trigger] self.inner@[old_items.len() + i].spec_track() == tracks@[i]
                        &&& self.inner@[old_items.len() + i].spec_requester() == requester
                    },
        {
            self.inner.push_back(Item::new(t, requester));
        }
        proof {
            match indexer_after {
                Indexer::Shuffled(b) => {
                    if n > 0 {
                        assert(b.order()[index0 as int] == b.order().subrange(0, index0 + 1)[index0 as int]);
                    }
                },
                _ => {},
            }
        }
    }

    /// Removes the tracks at the one-based `positions`, the last listed first,
    /// and gives them back in the order of removal.  Positions past the end
    /// are skipped.
    pub fn dequeue(&mut self, positions: &Vec<usize>) -> (r: Vec<Item>)
        requires
            old(self).wf(),
            forall|i: int| 0 <= i < positions@.len() ==> #[trigger] positions@[i] >= 1,
            old(self).spec_indexer().dequeue_defined(indices_of_positions(positions@)),
        ensures
            final(self).wf(),
            final(self).items() == remove_in_reverse(
                old(self).items(),
                indices_of_positions(positions@),
            ).0,
            r@ == remove_in_reverse(old(self).items(), indices_of_positions(positions@)).1,
            final(self).spec_index() == old(self).spec_index(),
            final(self).spec_repeat_mode() == old(self).spec_repeat_mode(),
            final(self).spec_advancing_enabled() == old(self).spec_advancing_enabled(),
            final(self).spec_indexer().spec_kind() == old(self).spec_indexer().spec_kind(),
            match (old(self).spec_indexer(), final(self).spec_indexer()) {
                (Indexer::Fair(a), Indexer::Fair(b)) => b.start() == a.start() && b.buckets()
                    == fair_retain(a.buckets(), a.start() as int, indices_of_positions(positions@))->0,
                (Indexer::Shuffled(a), Indexer::Shuffled(b)) => b.order() == remove_listed(
                    a.order(),
                    indices_of_positions(positions@),
                ),
                (Indexer::Standard, Indexer::Standard) => true,
                _ => false,
            },
    {
        let mut indices: Vec<usize> = Vec::new();
        let mut i: usize = 0;
        while i < positions.len()
            invariant
                i <= positions@.len(),
                forall|j: int| 0 <= j < positions@.len() ==> #[trigger] positions@[j] >= 1,
                indices@ == indices_of_positions(positions@).take(i as int),
            decreases positions@.len() - i,
        {
            indices.push(positions[i] - 1);
            assert(indices@ =~= indices_of_positions(positions@).take(i + 1));
            i = i + 1;
        }
        assert(indices@ =~= indices_of_positions(positions@));
        self.indexer.dequeue(&indices);
        let ghost indexer_after = self.indexer;
        let ghost index0 = self.index;
        let ghost mode0 = self.repeat_mode;
        let ghost adv0 = self.advancing_enabled;
        let ghost all = indices@;
        let ghost goal = remove_in_reverse(self.inner@, all);
        let mut removed: Vec<Item> = Vec::new();
        let mut k = indices.len();
        assert(all.take(k as int) =~= all);
        assert(removed@ + remove_in_reverse(self.inner@, all.take(k as int)).1 =~= goal.1);
        while k > 0
            invariant
                indices@ == all,
                k <= all.len(),
                self.indexer == indexer_after,
                self.index == index0,
                self.repeat_mode == mode0,
                self.advancing_enabled == adv0,
                goal.0 == remove_in_reverse(self.inner@, all.take(k as int)).0,
                goal.1 == removed@ + remove_in_reverse(self.inner@, all.take(k as int)).1,
            decreases k,
        {
            let ghost before = self.inner@;
            let ghost pre = all.take(k as int);
            assert(pre.drop_last() =~= all.take(k - 1));
            assert(pre.last() == all[k - 1]);
            let idx = indices[k - 1];
            let ghost items2 = if (idx as int) < before.len() {
                before.remove(idx as int)
            } else {
                before
            };
            let ghost first = if (idx as int) < before.len() {
                seq![before[idx as int]]
            } else {
                Seq::<Item>::empty()
            };
            let ghost tail = remove_in_reverse(items2, all.take(k - 1));
            assert(remove_in_reverse(before, pre) == (tail.0, first + tail.1));
            match self.inner.remove(idx) {
                Some(item) => {
                    removed.push(item);
                    assert(removed@ + tail.1 =~= goal.1);
                },
                None => {
                    assert(removed@ + tail.1 =~= goal.1);
                },
            }
            k = k - 1;
        }
        assert(all.take(0) =~= Seq::<usize>::empty());
        assert(removed@ =~= goal.1);
        removed
    }

    fn reset(&mut self)
        requires
            old(self).wf(),
        ensures
            final(self).wf(),
            final(self).spec_repeat_mode() == RepeatMode::Off,
            final(self).spec_index() == 0,
            final(self).items() == old(self).items(),
            final(self).spec_advancing_enabled() == old(self).spec_advancing_enabled(),
            final(self).spec_indexer().spec_kind() == old(self).spec_indexer().spec_kind(),
            match final(self).spec_indexer() {
                Indexer::Fair(b) => b.start() == 0 && b.buckets() == Seq::<(u64, nat)>::empty(),
                Indexer::Shuffled(b) => b.order() == Seq::<usize>::empty(),
                Indexer::Standard => true,
            },
    {
        self.repeat_mode = RepeatMode::Off;
        self.index = 0;
        self.indexer.clear();
    }

    /// Removes the stored tracks `start .. end` and gives them back in order.
    pub fn drain(&mut self, start: usize, end: usize) -> (r: VecDeque<Item>)
        requires
            old(self).wf(),
            start <= end <= old(self).items().len(),
            old(self).spec_indexer().drain_defined(start, end),
        ensures
            final(self).wf(),
            r@ == old(self).items().subrange(start as int, end as int),
            final(self).items() == old(self).items().subrange(0, start as int) + old(self).items().subrange(end as int, old(self).items().len() as int),
            final(self).spec_index() == old(self).spec_index(),
            final(self).spec_repeat_mode() == old(self).spec_repeat_mode(),
            final(self).spec_advancing_enabled() == old(self).spec_advancing_enabled(),
            final(self).spec_indexer().spec_kind() == old(self).spec_indexer().spec_kind(),
            match (old(self).spec_indexer(), final(self).spec_indexer()) {
                (Indexer::Fair(a), Indexer::Fair(b)) => b.start() == a.start() && b.buckets()
                    == fair_retain(a.buckets(), a.start() as int, ascending(start as int, end as int))->0,
                (Indexer::Shuffled(a), Indexer::Shuffled(b)) => b.order() == a.order().subrange(
                    0,
                    start as int,
                ) + a.order().subrange(end as int, a.order().len() as int),
                (Indexer::Standard, Indexer::Standard) => true,
                _ => false,
            },
    {
        self.indexer.drain(start, end);
        let mut tail = self.inner.split_off(end);
        let middle = self.inner.split_off(start);
        self.inner.append(&mut tail);
        middle
    }

    /// Empties the queue, giving back every track in stored order, and
    /// resets the playing index and the repeat mode.
    pub fn drain_all(&mut self) -> (r: VecDeque<Item>)
        requires
            old(self).wf(),
        ensures
            final(self).wf(),
            r@ == old(self).items(),
            final(self).items() == Seq::<Item>::empty(),
            final(self).spec_index() == 0,
            final(self).spec_repeat_mode() == RepeatMode::Off,
            final(self).spec_advancing_enabled() == old(self).spec_advancing_enabled(),
            final(self).spec_indexer().spec_kind() == old(self).spec_indexer().spec_kind(),
            match final(self).spec_indexer() {
                Indexer::Fair(b) => b.start() == 0 && b.buckets() == Seq::<(u64, nat)>::empty(),
                Indexer::Shuffled(b) => b.order() == Seq::<usize>::empty(),
                Indexer::Standard => true,
            },
    {
        self.reset();
        let all = self.inner.split_off(0);
        assert(self.inner@ =~= Seq::<Item>::empty());
        all
    }

    /// Empties the queue and resets the playing index and the repeat mode.
    pub fn clear(&mut self)
        requires
            old(self).wf(),
        ensures
            final(self).wf(),
            final(self).items() == Seq::<Item>::empty(),
            final(self).spec_index() == 0,
            final(self).spec_repeat_mode() == RepeatMode::Off,
            final(self).spec_advancing_enabled() == old(self).spec_advancing_enabled(),
            final(self).spec_indexer().spec_kind() == old(self).spec_indexer().spec_kind(),
            match final(self).spec_indexer() {
                Indexer::Fair(b) => b.start() == 0 && b.buckets() == Seq::<(u64, nat)>::empty(),
                Indexer::Shuffled(b) => b.order() == Seq::<usize>::empty(),
                Indexer::Standard => true,
            },
    {
        self.reset();
        self.inner.clear();
    }

    /// Switching to a shuffled order needs a track at the playing index.
    pub open spec fn set_indexer_type_defined(&self, kind: IndexerType) -> bool {
        kind == IndexerType::Shuffled && self.spec_indexer().spec_kind() != IndexerType::Shuffled
            ==> self.spec_index() < self.items().len()
    }

    /// Switches the playing order.  A new fair order groups the tracks from
    /// the playing index on by requester; a new shuffled order keeps the
    /// tracks up to the playing index in place and shuffles the rest.
    pub fn set_indexer_type(&mut self, kind: IndexerType)
        requires
            old(self).wf(),
            old(self).set_indexer_type_defined(kind),
        ensures
            final(self).wf(),
            final(self).items() == old(self).items(),
            final(self).spec_index() == old(self).spec_index(),
            final(self).spec_repeat_mode() == old(self).spec_repeat_mode(),
            final(self).spec_advancing_enabled() == old(self).spec_advancing_enabled(),
            final(self).spec_indexer().spec_kind() == kind,
            old(self).spec_indexer().spec_kind() == kind ==> final(self).spec_indexer() == old(self).spec_indexer(),
            old(self).spec_indexer().spec_kind() != kind ==> match final(self).spec_indexer() {
                Indexer::Fair(f) => f.start() == old(self).spec_index() && f.buckets()
                    == run_lengths(
                    skip_from(requesters(old(self).items()), old(self).spec_index() as int),
                ),
                Indexer::Shuffled(s) => {
                    let len = old(self).items().len() as int;
                    let i = old(self).spec_index() as int;
                    &&& s.order().len() == len
                    &&& s.order().subrange(0, i + 1) == ascending(0, i + 1)
                    &&& s.order().subrange(i + 1, len).to_multiset() == ascending(
                        i + 1,
                        len,
                    ).to_multiset()
                },
                Indexer::Standard => true,
            },
            // A newly chosen order starts from the track at the playing index.
            old(self).spec_indexer().spec_kind() != kind && old(self).spec_index() < old(self).items().len() ==> final(self).maps(final(self).spec_index() as int) && final(self).mapped(final(self).spec_index() as int) == Some(old(self).spec_index() as int),
    {
        match (self.indexer.kind(), kind) {
            (IndexerType::Fair, IndexerType::Standard) | (
                IndexerType::Shuffled,
                IndexerType::Standard,
            ) => {
                self.indexer = Indexer::Standard;
            },
            (IndexerType::Standard, IndexerType::Fair) | (
                IndexerType::Shuffled,
                IndexerType::Fair,
            ) => {
                let f = FairIndexer::new(&self.inner, self.index);
                proof {
                    if (self.index as int) < self.inner@.len() {
                        crate::indexer::lemma_fair_order_starts_at_start(
                            skip_from(requesters(self.inner@), self.index as int),
                            self.index as int,
                        );
                    }
                }
                self.indexer = Indexer::Fair(f);
            },
            (IndexerType::Standard, IndexerType::Shuffled) | (
                IndexerType::Fair,
                IndexerType::Shuffled,
            ) => {
                let s = ShuffledIndexer::new(self.inner.len(), self.index);
                proof {
                    assert(s.order()[self.index as int] == s.order().subrange(
                        0,
                        self.index + 1,
                    )[self.index as int]);
                }
                self.indexer = Indexer::Shuffled(s);
            },
            _ => {},
        }
    }

    /// Removes and gives back the stored track at `index`, if there is one.
    pub fn remove(&mut self, index: usize) -> (r: Option<Item>)
        ensures
            match r {
                Some(x) => index < old(self).items().len() && x == old(self).items()[index as int]
                    && final(self).items() == old(self).items().remove(index as int),
                None => index >= old(self).items().len() && final(self).items() == old(self).items(),
            },
            final(self).spec_index() == old(self).spec_index(),
            final(self).spec_indexer() == old(self).spec_indexer(),
            final(self).spec_repeat_mode() == old(self).spec_repeat_mode(),
            final(self).spec_advancing_enabled() == old(self).spec_advancing_enabled(),
    {
        self.inner.remove(index)
    }

    /// Stores `value` at `index`, moving later tracks back.
    pub fn insert(&mut self, index: usize, value: Item)
        requires
            index <= old(self).items().len(),
        ensures
            final(self).items() == old(self).items().insert(index as int, value),
            final(self).spec_index() == old(self).spec_index(),
            final(self).spec_indexer() == old(self).spec_indexer(),
            final(self).spec_repeat_mode() == old(self).spec_repeat_mode(),
            final(self).spec_advancing_enabled() == old(self).spec_advancing_enabled(),
    {
        self.inner.insert(index, value);
    }

    /// The stored track at `index`.
    pub fn at(&self, index: usize) -> (r: &Item)
        requires
            index < self.items().len(),
        ensures
            *r == self.items()[index as int],
    {
        &self.inner[index]
    }

    /// The stored track at the one-based `position`.
    pub fn at_position(&self, position: usize) -> (r: &Item)
        requires
            1 <= position <= self.items().len(),
        ensures
            *r == self.items()[position - 1],
    {
        &self.inner[position - 1]
    }

    /// Every stored track with its one-based position.
    pub fn positions_and_items(&self) -> (r: Vec<(usize, &Item)>)
        ensures
            r@.len() == self.items().len(),
            forall|i: int|
                0 <= i < r@.len() ==> #[trigger] r@[i].0 == i + 1 && *r@[i].1 == self.items()[i],
    {
        let mut out: Vec<(usize, &Item)> = Vec::new();
        let mut i: usize = 0;
        while i < self.inner.len()
            invariant
                i <= self.items().len(),
                out@.len() == i,
                forall|j: int|
                    0 <= j < i ==> #[trigger] out@[j].0 == j + 1 && *out@[j].1 == self.items()[j],
            decreases self.items().len() - i,
        {
            out.push((i + 1, &self.inner[i]));
            i = i + 1;
        }
        out
    }

    pub fn is_empty(&self) -> (r: bool)
        ensures
            r == (self.items().len() == 0),
    {
        self.inner.len() == 0
    }

    pub fn len(&self) -> (r: usize)
        ensures
            r == self.items().len(),
    {
        self.inner.len()
    }
}

} // verus!
