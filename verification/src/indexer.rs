//! The orders in which the queue can be played: as stored, fairly across
//! requesters, or shuffled.

use vstd::prelude::*;
use rand::seq::SliceRandom;
use rand::Rng;
use std::collections::{HashSet, VecDeque};
use crate::queue::{Item, requesters};

verus! {

/// Which order the queue is played in.
#[derive(Clone, Copy, Debug, PartialEq, Eq, Structural)]
pub enum IndexerType {
    Standard,
    Fair,
    Shuffled,
}

// ------------------------------------------------------------------------
// Fair order
// ------------------------------------------------------------------------

/// The sizes of the requester buckets.
pub open spec fn lens_of(buckets: Seq<(u64, nat)>) -> Seq<nat> {
    Seq::new(buckets.len(), |j: int| buckets[j].1)
}

/// The total size of the first `j` buckets.
pub open spec fn sum_upto(lens: Seq<nat>, j: int) -> nat
    decreases j,
{
    if j <= 0 {
        0
    } else {
        sum_upto(lens, j - 1) + lens[j - 1]
    }
}

/// The total size of all buckets.
pub open spec fn total(lens: Seq<nat>) -> nat {
    sum_upto(lens, lens.len() as int)
}

/// Round `r` of the fair order, over the first `j` buckets: the `r`-th
/// stored position of every bucket that has more than `r` tracks, bucket by
/// bucket.  Bucket `i` holds the stored positions
/// `start + sum_upto(lens, i) .. start + sum_upto(lens, i + 1)`.
pub open spec fn fair_round(lens: Seq<nat>, start: int, r: nat, j: int) -> Seq<int>
    decreases j,
{
    if j <= 0 {
        Seq::empty()
    } else {
        let prev = fair_round(lens, start, r, j - 1);
        if lens[j - 1] > r {
            prev.push(start + sum_upto(lens, j - 1) + r)
        } else {
            prev
        }
    }
}

/// Rounds `r .. r + count` of the fair order, one after the other.
pub open spec fn fair_rounds(lens: Seq<nat>, start: int, r: nat, count: nat) -> Seq<int>
    decreases count,
{
    if count == 0 {
        Seq::empty()
    } else {
        fair_round(lens, start, r, lens.len() as int) + fair_rounds(lens, start, r + 1, (count
            - 1) as nat)
    }
}

/// The fair playing order: the first track of every requester's bucket, then
/// the second of every bucket that has one, and so on.
pub open spec fn fair_order(lens: Seq<nat>, start: int) -> Seq<int> {
    fair_rounds(lens, start, 0, total(lens))
}

/// Consecutive tracks by one requester, grouped into `(requester, count)`.
pub open spec fn run_lengths(s: Seq<u64>) -> Seq<(u64, nat)>
    decreases s.len(),
{
    if s.len() == 0 {
        Seq::empty()
    } else {
        let prev = run_lengths(s.drop_last());
        let x = s.last();
        if prev.len() > 0 && prev.last().0 == x {
            prev.update(prev.len() - 1, (x, prev.last().1 + 1))
        } else {
            prev.push((x, 1nat))
        }
    }
}

/// The buckets after `additional` tracks by `requester` were appended.
pub open spec fn fair_enqueue(buckets: Seq<(u64, nat)>, additional: nat, requester: u64) -> Seq<
    (u64, nat),
> {
    if buckets.len() > 0 && buckets.last().0 == requester {
        buckets.update(buckets.len() - 1, (requester, buckets.last().1 + additional))
    } else {
        buckets.push((requester, additional))
    }
}

/// The buckets that remain after removing the stored positions `indices`,
/// from bucket `j` on, when `m` removals have matched so far and `p` indices
/// have been consumed.  Each bucket consumes the next index; when it falls in
/// the range of bucket `m` the bucket's size drops by one and `m` advances.
/// Only the buckets left empty are kept.  `None` when a size would drop below
/// zero.
pub open spec fn fair_retain_from(
    buckets: Seq<(u64, nat)>,
    start: int,
    indices: Seq<usize>,
    j: nat,
    m: nat,
    p: nat,
) -> Option<Seq<(u64, nat)>>
    decreases buckets.len() - j,
{
    if j >= buckets.len() {
        Some(Seq::empty())
    } else {
        let lens = lens_of(buckets);
        let l = buckets[j as int].1;
        let has = p < indices.len();
        let hit = has && m < buckets.len() && start + sum_upto(lens, m as int) <= indices[p as int]
            < start + sum_upto(lens, m + 1int);
        let p2 = if has {
            p + 1
        } else {
            p
        };
        let m2 = if hit {
            m + 1
        } else {
            m
        };
        if hit && l == 0 {
            None
        } else {
            let l2: nat = if hit {
                (l - 1) as nat
            } else {
                l
            };
            match fair_retain_from(buckets, start, indices, j + 1, m2, p2) {
                None => None,
                Some(rest) => Some(
                    if l2 == 0 {
                        seq![(buckets[j as int].0, 0nat)] + rest
                    } else {
                        rest
                    },
                ),
            }
        }
    }
}

/// The buckets that remain after removing the stored positions `indices`.
pub open spec fn fair_retain(buckets: Seq<(u64, nat)>, start: int, indices: Seq<usize>) -> Option<
    Seq<(u64, nat)>,
> {
    fair_retain_from(buckets, start, indices, 0, 0, 0)
}

/// The positions `lo .. hi` in increasing order.
pub open spec fn ascending(lo: int, hi: int) -> Seq<usize> {
    Seq::new((hi - lo) as nat, |i: int| (lo + i) as usize)
}

proof fn lemma_sum_upto_mono(lens: Seq<nat>, i: int, j: int)
    requires
        i <= j <= lens.len(),
    ensures
        sum_upto(lens, i) <= sum_upto(lens, j),
    decreases j - i,
{
    if i < j {
        lemma_sum_upto_mono(lens, i, j - 1);
    }
}

proof fn lemma_round_len_bound(lens: Seq<nat>, start: int, r: nat, j: int)
    requires
        0 <= j <= lens.len(),
    ensures
        fair_round(lens, start, r, j).len() <= j,
        fair_round(lens, start, r, j).len() == 0 <==> (forall|i: int| 0 <= i < j ==> lens[i] <= r),
        fair_round(lens, start, r, j).len() > 0 ==> r < sum_upto(lens, j),
    decreases j,
{
    if j > 0 {
        lemma_round_len_bound(lens, start, r, j - 1);
        if fair_round(lens, start, r, j - 1).len() > 0 {
            lemma_sum_upto_mono(lens, j - 1, j);
        }
    }
}

proof fn lemma_round_prefix(lens: Seq<nat>, start: int, r: nat, i: int, j: int, k: int)
    requires
        0 <= i <= j <= lens.len(),
        0 <= k < fair_round(lens, start, r, i).len(),
    ensures
        k < fair_round(lens, start, r, j).len(),
        fair_round(lens, start, r, j)[k] == fair_round(lens, start, r, i)[k],
    decreases j - i,
{
    if i < j {
        lemma_round_prefix(lens, start, r, i, j - 1, k);
    }
}

proof fn lemma_rounds_split(lens: Seq<nat>, start: int, r: nat, a: nat, b: nat)
    ensures
        fair_rounds(lens, start, r, a + b) == fair_rounds(lens, start, r, a) + fair_rounds(
            lens,
            start,
            r + a,
            b,
        ),
    decreases a,
{
    if a == 0 {
        assert(fair_rounds(lens, start, r, 0) =~= Seq::<int>::empty());
        assert(fair_rounds(lens, start, r, a + b) =~= Seq::<int>::empty() + fair_rounds(
            lens,
            start,
            r + a,
            b,
        ));
    } else {
        lemma_rounds_split(lens, start, r + 1, (a - 1) as nat, b);
        assert((a + b - 1) as nat == ((a - 1) as nat + b));
        assert(fair_rounds(lens, start, r, a + b) =~= fair_round(
            lens,
            start,
            r,
            lens.len() as int,
        ) + fair_rounds(lens, start, r + 1, (a + b - 1) as nat));
        assert(fair_rounds(lens, start, r, a + b) =~= fair_rounds(lens, start, r, a)
            + fair_rounds(lens, start, r + a, b));
    }
}

proof fn lemma_rounds_empty(lens: Seq<nat>, start: int, r: nat, count: nat)
    requires
        forall|i: int| 0 <= i < lens.len() ==> lens[i] <= r,
    ensures
        fair_rounds(lens, start, r, count).len() == 0,
    decreases count,
{
    if count > 0 {
        lemma_round_len_bound(lens, start, r, lens.len() as int);
        lemma_rounds_empty(lens, start, r + 1, (count - 1) as nat);
    }
}

proof fn lemma_sum_upto_prefix(a: Seq<nat>, b: Seq<nat>, j: int)
    requires
        0 <= j <= a.len(),
        j <= b.len(),
        forall|i: int| 0 <= i < j ==> a[i] == b[i],
    ensures
        sum_upto(a, j) == sum_upto(b, j),
    decreases j,
{
    if j > 0 {
        lemma_sum_upto_prefix(a, b, j - 1);
    }
}

proof fn lemma_len_le_total(lens: Seq<nat>, j: int)
    requires
        0 <= j < lens.len(),
    ensures
        lens[j] <= total(lens),
        sum_upto(lens, j) + lens[j] <= total(lens),
{
    lemma_sum_upto_mono(lens, j + 1, lens.len() as int);
}

proof fn lemma_total_push(lens: Seq<nat>, v: nat)
    ensures
        total(lens.push(v)) == total(lens) + v,
{
    lemma_sum_upto_prefix(lens, lens.push(v), lens.len() as int);
}

proof fn lemma_total_update_last(lens: Seq<nat>, v: nat)
    requires
        lens.len() > 0,
    ensures
        total(lens.update(lens.len() - 1, v)) + lens.last() == total(lens) + v,
{
    let u = lens.update(lens.len() - 1, v);
    lemma_sum_upto_prefix(lens, u, lens.len() - 1);
}

proof fn lemma_run_lengths(x: Seq<u64>)
    ensures
        total(lens_of(run_lengths(x))) == x.len(),
        forall|j: int| 0 <= j < run_lengths(x).len() ==> #[trigger] run_lengths(x)[j].1 >= 1,
        x.len() > 0 ==> run_lengths(x).len() > 0,
    decreases x.len(),
{
    if x.len() > 0 {
        let prev = run_lengths(x.drop_last());
        lemma_run_lengths(x.drop_last());
        let e = x.last();
        if prev.len() > 0 && prev.last().0 == e {
            let nxt = prev.update(prev.len() - 1, (e, prev.last().1 + 1));
            assert(lens_of(nxt) =~= lens_of(prev).update(prev.len() - 1, prev.last().1 + 1));
            lemma_total_update_last(lens_of(prev), prev.last().1 + 1);
        } else {
            assert(lens_of(prev.push((e, 1nat))) =~= lens_of(prev).push(1));
            lemma_total_push(lens_of(prev), 1);
        }
    } else {
        assert(lens_of(run_lengths(x)) =~= Seq::<nat>::empty());
    }
}

/// `n` copies of the requester `x`.
pub open spec fn repeated(x: u64, n: nat) -> Seq<u64> {
    Seq::new(n, |_i: int| x)
}

/// The requesters that the buckets stand for, one per track, in order: each
/// bucket `(requester, size)` stands for `size` tracks by `requester`.
pub open spec fn expand(buckets: Seq<(u64, nat)>) -> Seq<u64>
    decreases buckets.len(),
{
    if buckets.len() == 0 {
        Seq::empty()
    } else {
        expand(buckets.drop_last()) + repeated(buckets.last().0, buckets.last().1)
    }
}

/// Whether the buckets are maximal runs: none is empty, and neighbouring
/// buckets belong to different requesters, so that no run of consecutive
/// tracks by one requester is split.
pub open spec fn maximal_runs(b: Seq<(u64, nat)>) -> bool {
    &&& forall|j: int| 0 <= j < b.len() ==> #[trigger] b[j].1 >= 1
    &&& forall|i: int, j: int|
        #![trigger b[i], b[j]]
        0 <= i && j == i + 1 && j < b.len() ==> b[i].0 != b[j].0
}

/// The size of all buckets is the number of tracks they stand for.
pub proof fn lemma_total_is_expanded_len(b: Seq<(u64, nat)>)
    ensures
        total(lens_of(b)) == expand(b).len(),
    decreases b.len(),
{
    if b.len() > 0 {
        lemma_total_is_expanded_len(b.drop_last());
        assert(lens_of(b) =~= lens_of(b.drop_last()).push(b.last().1));
        lemma_total_push(lens_of(b.drop_last()), b.last().1);
    } else {
        assert(lens_of(b) =~= Seq::<nat>::empty());
    }
}

/// Grouping the requesters of consecutive tracks gives their maximal runs:
/// the buckets stand for exactly those tracks, in order, none is empty, and
/// neighbouring buckets belong to different requesters, however long a run
/// is.
pub proof fn lemma_run_lengths_are_maximal_runs(s: Seq<u64>)
    ensures
        expand(run_lengths(s)) == s,
        maximal_runs(run_lengths(s)),
    decreases s.len(),
{
    if s.len() == 0 {
        assert(expand(run_lengths(s)) =~= s);
    } else {
        let prev = run_lengths(s.drop_last());
        lemma_run_lengths_are_maximal_runs(s.drop_last());
        let x = s.last();
        if prev.len() > 0 && prev.last().0 == x {
            let c = prev.last().1;
            let nxt = prev.update(prev.len() - 1, (x, c + 1));
            assert(nxt.drop_last() =~= prev.drop_last());
            assert(repeated(x, c + 1) =~= repeated(x, c).push(x));
            assert(expand(prev) == expand(prev.drop_last()) + repeated(x, c));
            assert(expand(nxt) == expand(nxt.drop_last()) + repeated(x, c + 1));
            assert(expand(nxt) =~= expand(prev).push(x));
            assert forall|i: int, j: int| 0 <= i && j == i + 1 && j < nxt.len() implies #[trigger] nxt[i].0
                != #[trigger] nxt[j].0 by {
                assert(prev[i].0 != prev[j].0);
            }
        } else {
            let nxt = prev.push((x, 1nat));
            assert(nxt.drop_last() =~= prev);
            assert(repeated(x, 1) =~= seq![x]);
            assert(expand(nxt) =~= expand(prev).push(x));
            assert forall|i: int, j: int| 0 <= i && j == i + 1 && j < nxt.len() implies #[trigger] nxt[i].0
                != #[trigger] nxt[j].0 by {
                if j < prev.len() {
                    assert(prev[i].0 != prev[j].0);
                }
            }
        }
        assert(s =~= s.drop_last().push(x));
    }
}

/// Adding `n` tracks by `requester` at the end adds exactly those tracks to
/// what the buckets stand for: the size of all buckets grows by `n`, and
/// maximal runs stay maximal when tracks are added.
pub proof fn lemma_fair_enqueue_appends(b: Seq<(u64, nat)>, n: nat, requester: u64)
    ensures
        expand(fair_enqueue(b, n, requester)) == expand(b) + repeated(requester, n),
        total(lens_of(fair_enqueue(b, n, requester))) == total(lens_of(b)) + n,
        maximal_runs(b) && n > 0 ==> maximal_runs(fair_enqueue(b, n, requester)),
{
    let nxt = fair_enqueue(b, n, requester);
    if b.len() > 0 && b.last().0 == requester {
        let c = b.last().1;
        assert(nxt.drop_last() =~= b.drop_last());
        assert(repeated(requester, c + n) =~= repeated(requester, c) + repeated(requester, n));
        assert(expand(b) == expand(b.drop_last()) + repeated(requester, c));
        assert(expand(nxt) == expand(nxt.drop_last()) + repeated(requester, c + n));
        assert(expand(nxt) =~= expand(b) + repeated(requester, n));
        if maximal_runs(b) && n > 0 {
            assert forall|i: int, j: int| 0 <= i && j == i + 1 && j < nxt.len() implies #[trigger] nxt[i].0
                != #[trigger] nxt[j].0 by {
                assert(b[i].0 != b[j].0);
            }
        }
    } else {
        assert(nxt.drop_last() =~= b);
        assert(expand(nxt) =~= expand(b) + repeated(requester, n));
        if maximal_runs(b) && n > 0 {
            assert forall|i: int, j: int| 0 <= i && j == i + 1 && j < nxt.len() implies #[trigger] nxt[i].0
                != #[trigger] nxt[j].0 by {
                if j < b.len() {
                    assert(b[i].0 != b[j].0);
                }
            }
        }
    }
    lemma_total_is_expanded_len(b);
    lemma_total_is_expanded_len(nxt);
}

proof fn lemma_retain_zero(
    buckets: Seq<(u64, nat)>,
    start: int,
    indices: Seq<usize>,
    j: nat,
    m: nat,
    p: nat,
)
    requires
        fair_retain_from(buckets, start, indices, j, m, p) is Some,
    ensures
        forall|i: int|
            0 <= i < fair_retain_from(buckets, start, indices, j, m, p)->0.len() ==> #[trigger] (
            fair_retain_from(buckets, start, indices, j, m, p)->0[i]).1 == 0,
    decreases buckets.len() - j,
{
    if j < buckets.len() {
        let lens = lens_of(buckets);
        let has = p < indices.len();
        let hit = has && m < buckets.len() && start + sum_upto(lens, m as int) <= indices[p as int]
            < start + sum_upto(lens, m + 1int);
        let p2 = if has {
            p + 1
        } else {
            p
        };
        let m2 = if hit {
            m + 1
        } else {
            m
        };
        lemma_retain_zero(buckets, start, indices, j + 1, m2, p2);
    }
}

proof fn lemma_total_zero(lens: Seq<nat>, j: int)
    requires
        0 <= j <= lens.len(),
        forall|i: int| 0 <= i < lens.len() ==> lens[i] == 0,
    ensures
        sum_upto(lens, j) == 0,
    decreases j,
{
    if j > 0 {
        lemma_total_zero(lens, j - 1);
    }
}

/// The requesters from stored position `n` on.
pub open spec fn skip_from(s: Seq<u64>, n: int) -> Seq<u64> {
    if n < s.len() {
        s.subrange(n, s.len() as int)
    } else {
        Seq::empty()
    }
}

/// How many of the first `j` buckets have each of their first `c` tracks
/// counted: the sum of `min(lens[i], c)`.
spec fn sum_min(lens: Seq<nat>, j: int, c: nat) -> nat
    decreases j,
{
    if j <= 0 {
        0
    } else {
        sum_min(lens, j - 1, c) + if lens[j - 1] < c {
            lens[j - 1]
        } else {
            c
        }
    }
}

proof fn lemma_sum_min_step(lens: Seq<nat>, start: int, j: int, c: nat)
    requires
        0 <= j <= lens.len(),
    ensures
        sum_min(lens, j, c + 1) == sum_min(lens, j, c) + fair_round(lens, start, c, j).len(),
        sum_min(lens, j, c) <= sum_upto(lens, j),
        sum_min(lens, j, 0) == 0,
    decreases j,
{
    if j > 0 {
        lemma_sum_min_step(lens, start, j - 1, c);
    }
}

proof fn lemma_rounds_len(lens: Seq<nat>, start: int, c: nat)
    ensures
        fair_rounds(lens, start, 0, c).len() == sum_min(lens, lens.len() as int, c),
    decreases c,
{
    if c == 0 {
        lemma_sum_min_step(lens, start, lens.len() as int, 0);
    } else {
        let c1 = (c - 1) as nat;
        lemma_rounds_len(lens, start, c1);
        lemma_rounds_split(lens, start, 0, c1, 1);
        assert(fair_rounds(lens, start, c1 + 1, 0) =~= Seq::<int>::empty());
        lemma_sum_min_step(lens, start, lens.len() as int, c1);
    }
}

/// The fair order has no more entries than the buckets have tracks.
pub proof fn lemma_fair_order_len(lens: Seq<nat>, start: int)
    ensures
        fair_order(lens, start).len() <= total(lens),
{
    lemma_rounds_len(lens, start, total(lens));
    lemma_sum_min_step(lens, start, lens.len() as int, total(lens));
}

/// A fair order made from tracks starts with the first of them.
pub proof fn lemma_fair_order_starts_at_start(x: Seq<u64>, start: int)
    requires
        x.len() > 0,
    ensures
        fair_order(lens_of(run_lengths(x)), start).len() > 0,
        fair_order(lens_of(run_lengths(x)), start)[0] == start,
{
    let b = run_lengths(x);
    lemma_run_lengths(x);
    let lens = lens_of(b);
    let t = total(lens);
    assert(b[0].1 >= 1);
    assert(lens[0] >= 1);
    assert(fair_round(lens, start, 0, 0) =~= Seq::<int>::empty());
    assert(fair_round(lens, start, 0, 1) =~= seq![start]);
    lemma_round_prefix(lens, start, 0, 1, lens.len() as int, 0);
    lemma_rounds_split(lens, start, 0, 1, (t - 1) as nat);
    assert(fair_rounds(lens, start, 1, 0) =~= Seq::<int>::empty());
    assert(fair_rounds(lens, start, 0, 1) =~= fair_round(lens, start, 0, lens.len() as int));
}

/// Whether `x` is the stored position `r` places into bucket `i`.
spec fn in_bucket(lens: Seq<nat>, start: int, x: int, i: int, r: nat) -> bool {
    &&& 0 <= i < lens.len()
    &&& r < lens[i]
    &&& x == start + sum_upto(lens, i) + r
}

/// Whether `x` is the stored position `r` places into one of the first `j`
/// buckets.
spec fn in_round(lens: Seq<nat>, start: int, x: int, j: int, r: nat) -> bool {
    exists|i: int| 0 <= i < j && #[trigger] in_bucket(lens, start, x, i, r)
}

/// Whether `x` is a stored position that one of the rounds `r0 .. r0 + count`
/// places into a bucket.
spec fn in_rounds(lens: Seq<nat>, start: int, x: int, r0: nat, count: nat) -> bool {
    exists|i: int, r: nat| r0 <= r < r0 + count && #[trigger] in_bucket(lens, start, x, i, r)
}

proof fn lemma_sum_min_full(lens: Seq<nat>, j: int, c: nat)
    requires
        0 <= j <= lens.len(),
        forall|i: int| 0 <= i < j ==> lens[i] <= c,
    ensures
        sum_min(lens, j, c) == sum_upto(lens, j),
    decreases j,
{
    if j > 0 {
        lemma_sum_min_full(lens, j - 1, c);
    }
}

proof fn lemma_bucket_unique(lens: Seq<nat>, start: int, x: int, i: int, r: nat, i2: int, r2: nat)
    requires
        in_bucket(lens, start, x, i, r),
        in_bucket(lens, start, x, i2, r2),
    ensures
        i == i2 && r == r2,
{
    if i < i2 {
        lemma_sum_upto_mono(lens, i + 1, i2);
    } else if i2 < i {
        lemma_sum_upto_mono(lens, i2 + 1, i);
    }
}

proof fn lemma_bucket_range(lens: Seq<nat>, start: int, x: int, i: int, r: nat)
    requires
        in_bucket(lens, start, x, i, r),
    ensures
        start <= x < start + total(lens),
{
    lemma_len_le_total(lens, i);
}

proof fn lemma_round_members(lens: Seq<nat>, start: int, r: nat, j: int)
    requires
        0 <= j <= lens.len(),
    ensures
        forall|k: int|
            0 <= k < fair_round(lens, start, r, j).len() ==> #[trigger] in_round(
                lens,
                start,
                fair_round(lens, start, r, j)[k],
                j,
                r,
            ),
        forall|k1: int, k2: int|
            0 <= k1 < k2 < fair_round(lens, start, r, j).len() ==> fair_round(lens, start, r, j)[k1]
                < fair_round(lens, start, r, j)[k2],
        forall|k: int|
            0 <= k < fair_round(lens, start, r, j).len() ==> fair_round(lens, start, r, j)[k]
                < start + sum_upto(lens, j),
    decreases j,
{
    if j > 0 {
        lemma_round_members(lens, start, r, j - 1);
        let prev = fair_round(lens, start, r, j - 1);
        let cur = fair_round(lens, start, r, j);
        lemma_sum_upto_mono(lens, j - 1, j);
        if lens[j - 1] > r {
            let x = start + sum_upto(lens, j - 1) + r;
            assert(cur == prev.push(x));
        } else {
            assert(cur == prev);
        }
        assert forall|k: int| 0 <= k < cur.len() implies #[trigger] in_round(lens, start, cur[k], j, r) by {
            if k < prev.len() {
                assert(in_round(lens, start, prev[k], j - 1, r));
                let i = choose|i: int| 0 <= i < j - 1 && #[trigger] in_bucket(lens, start, prev[k], i, r);
                assert(in_bucket(lens, start, cur[k], i, r));
            } else {
                assert(in_bucket(lens, start, cur[k], j - 1, r));
            }
        }
    }
}

proof fn lemma_rounds_members(lens: Seq<nat>, start: int, r0: nat, count: nat)
    ensures
        forall|k: int|
            0 <= k < fair_rounds(lens, start, r0, count).len() ==> #[trigger] in_rounds(
                lens,
                start,
                fair_rounds(lens, start, r0, count)[k],
                r0,
                count,
            ),
        fair_rounds(lens, start, r0, count).no_duplicates(),
    decreases count,
{
    let all = fair_rounds(lens, start, r0, count);
    if count == 0 {
        assert(all =~= Seq::<int>::empty());
    } else {
        let n = lens.len() as int;
        let c1 = (count - 1) as nat;
        let head = fair_round(lens, start, r0, n);
        let tail = fair_rounds(lens, start, r0 + 1, c1);
        lemma_round_members(lens, start, r0, n);
        lemma_rounds_members(lens, start, r0 + 1, c1);
        assert(all == head + tail);
        assert forall|k: int| 0 <= k < all.len() implies #[trigger] in_rounds(lens, start, all[k], r0, count) by {
            if k < head.len() {
                assert(in_round(lens, start, head[k], n, r0));
                let i = choose|i: int| 0 <= i < n && #[trigger] in_bucket(lens, start, head[k], i, r0);
                assert(in_bucket(lens, start, all[k], i, r0));
            } else {
                assert(in_rounds(lens, start, tail[k - head.len()], r0 + 1, c1));
                let (i, r) = choose|i: int, r: nat|
                    r0 + 1 <= r < r0 + 1 + c1 && #[trigger] in_bucket(lens, start, tail[k - head.len()], i, r);
                assert(in_bucket(lens, start, all[k], i, r));
            }
        }
        assert forall|a: int, b: int| 0 <= a < all.len() && 0 <= b < all.len() && a != b implies all[a]
            != all[b] by {
            if a < head.len() && b < head.len() {
                if a < b {
                    assert(head[a] < head[b]);
                } else {
                    assert(head[b] < head[a]);
                }
            } else if a >= head.len() && b >= head.len() {
                assert(tail[a - head.len()] != tail[b - head.len()]);
            } else {
                let (ka, kb) = if a < head.len() {
                    (a, b)
                } else {
                    (b, a)
                };
                assert(in_round(lens, start, head[ka], n, r0));
                assert(in_rounds(lens, start, tail[kb - head.len()], r0 + 1, c1));
                let ia = choose|i: int| 0 <= i < n && #[trigger] in_bucket(lens, start, head[ka], i, r0);
                let (ib, rb) = choose|i: int, r: nat|
                    r0 + 1 <= r < r0 + 1 + c1 && #[trigger] in_bucket(lens, start, tail[kb - head.len()], i, r);
                if head[ka] == tail[kb - head.len()] {
                    lemma_bucket_unique(lens, start, head[ka], ia, r0, ib, rb);
                }
            }
        }
    }
}

/// The fair order plays every track from its start exactly once: it has as
/// many entries as the buckets have tracks, each a stored position of one of
/// them, none twice.
pub proof fn lemma_fair_order_is_permutation(lens: Seq<nat>, start: int)
    ensures
        fair_order(lens, start).len() == total(lens),
        forall|k: int|
            0 <= k < fair_order(lens, start).len() ==> start <= #[trigger] fair_order(lens, start)[k]
                < start + total(lens),
        fair_order(lens, start).no_duplicates(),
{
    let t = total(lens);
    lemma_rounds_len(lens, start, t);
    assert forall|i: int| 0 <= i < lens.len() implies lens[i] <= t by {
        lemma_len_le_total(lens, i);
    }
    lemma_sum_min_full(lens, lens.len() as int, t);
    lemma_rounds_members(lens, start, 0, t);
    let order = fair_order(lens, start);
    assert forall|k: int| 0 <= k < order.len() implies start <= #[trigger] order[k] < start + t by {
        assert(in_rounds(lens, start, order[k], 0, t));
        let (i, r) = choose|i: int, r: nat| 0 <= r < t && #[trigger] in_bucket(lens, start, order[k], i, r);
        lemma_bucket_range(lens, start, order[k], i, r);
    }
}

/// The fair order made of the tracks of a queue from `start` on, grouped by
/// consecutive requester, plays each of those tracks exactly once.
pub proof fn lemma_fair_order_of_queue(reqs: Seq<u64>, start: int)
    requires
        0 <= start,
    ensures
        ({
            let order = fair_order(lens_of(run_lengths(skip_from(reqs, start))), start);
            &&& order.len() == skip_from(reqs, start).len()
            &&& forall|k: int| 0 <= k < order.len() ==> start <= #[trigger] order[k] < reqs.len()
            &&& order.no_duplicates()
        }),
{
    let x = skip_from(reqs, start);
    lemma_run_lengths(x);
    lemma_fair_order_is_permutation(lens_of(run_lengths(x)), start);
}

/// Tracks grouped by requester, played in the fair order.
pub struct FairIndexer {
    starting_index: usize,
    inner: Vec<(u64, usize)>,
}

/// The buckets of a fair indexer as mathematical values.
pub open spec fn buckets_view(v: Seq<(u64, usize)>) -> Seq<(u64, nat)> {
    Seq::new(v.len(), |j: int| (v[j].0, v[j].1 as nat))
}

impl FairIndexer {
    /// Where the fair order starts among the stored positions.
    pub closed spec fn start(&self) -> nat {
        self.starting_index as nat
    }

    /// The requester buckets, in order.
    pub closed spec fn buckets(&self) -> Seq<(u64, nat)> {
        buckets_view(self.inner@)
    }

    /// Every position that the fair order can name fits in a `usize`.
    pub open spec fn wf(&self) -> bool {
        self.start() + total(lens_of(self.buckets())) <= usize::MAX
    }

    /// Where the fair order starts among the stored positions.
    pub fn starting_index(&self) -> (r: usize)
        ensures
            r == self.start(),
    {
        self.starting_index
    }

    /// Groups the tracks from `starting_index` on by consecutive requester.
    pub fn new(items: &VecDeque<Item>, starting_index: usize) -> (r: Self)
        ensures
            r.start() == starting_index,
            r.buckets() == run_lengths(skip_from(requesters(items@), starting_index as int)),
            expand(r.buckets()) == skip_from(requesters(items@), starting_index as int),
            maximal_runs(r.buckets()),
            r.wf(),
    {
        let ghost reqs = requesters(items@);
        let len = items.len();
        let first = if starting_index < len {
            starting_index
        } else {
            len
        };
        let mut inner: Vec<(u64, usize)> = Vec::new();
        let mut i = first;
        assert(reqs.subrange(first as int, first as int) =~= Seq::<u64>::empty());
        while i < len
            invariant
                reqs == requesters(items@),
                len == items@.len(),
                first <= i <= len,
                buckets_view(inner@) == run_lengths(reqs.subrange(first as int, i as int)),
            decreases len - i,
        {
            let req = items[i].requester();
            let ghost before = reqs.subrange(first as int, i as int);
            let ghost after = reqs.subrange(first as int, i + 1);
            assert(after.drop_last() =~= before);
            assert(after.last() == req);
            proof {
                lemma_run_lengths(before);
            }
            let n = inner.len();
            if n > 0 && inner[n - 1].0 == req {
                let c = inner[n - 1].1;
                proof {
                    lemma_len_le_total(lens_of(buckets_view(inner@)), n - 1);
                }
                inner.set(n - 1, (req, c + 1));
                assert(buckets_view(inner@) =~= run_lengths(after));
            } else {
                inner.push((req, 1));
                assert(buckets_view(inner@) =~= run_lengths(after));
            }
            i = i + 1;
        }
        assert(reqs.subrange(first as int, len as int) =~= skip_from(reqs, starting_index as int));
        proof {
            lemma_run_lengths(skip_from(reqs, starting_index as int));
            lemma_run_lengths_are_maximal_runs(skip_from(reqs, starting_index as int));
        }
        FairIndexer { starting_index, inner }
    }

    /// Adds `additional` tracks by `requester` at the end.
    pub fn enqueue(&mut self, additional: usize, requester: u64)
        requires
            old(self).wf(),
            old(self).start() + total(lens_of(old(self).buckets())) + additional <= usize::MAX,
        ensures
            final(self).start() == old(self).start(),
            final(self).buckets() == fair_enqueue(old(self).buckets(), additional as nat, requester),
            final(self).wf(),
            expand(final(self).buckets()) == expand(old(self).buckets()) + repeated(
                requester,
                additional as nat,
            ),
            total(lens_of(final(self).buckets())) == total(lens_of(old(self).buckets())) + additional,
    {
        let ghost b = self.buckets();
        proof {
            lemma_fair_enqueue_appends(b, additional as nat, requester);
        }
        let n = self.inner.len();
        if n > 0 && self.inner[n - 1].0 == requester {
            let c = self.inner[n - 1].1;
            proof {
                lemma_len_le_total(lens_of(b), n - 1);
                lemma_total_update_last(lens_of(b), (c + additional) as nat);
                assert(lens_of(fair_enqueue(b, additional as nat, requester)) =~= lens_of(b).update(
                    n - 1,
                    (c + additional) as nat,
                ));
            }
            self.inner.set(n - 1, (requester, c + additional));
            assert(self.buckets() =~= fair_enqueue(b, additional as nat, requester));
        } else {
            self.inner.push((requester, additional));
            proof {
                lemma_total_push(lens_of(b), additional as nat);
                assert(lens_of(fair_enqueue(b, additional as nat, requester)) =~= lens_of(b).push(
                    additional as nat,
                ));
            }
            assert(self.buckets() =~= fair_enqueue(b, additional as nat, requester));
        }
    }

    /// Removes the stored positions `indices` from the buckets.
    pub fn dequeue_or_drain(&mut self, indices: &Vec<usize>)
        requires
            old(self).wf(),
            fair_retain(old(self).buckets(), old(self).start() as int, indices@) is Some,
        ensures
            final(self).start() == old(self).start(),
            final(self).buckets() == fair_retain(
                old(self).buckets(),
                old(self).start() as int,
                indices@,
            )->0,
            final(self).wf(),
    {
        let ghost b = self.buckets();
        let ghost lens = lens_of(b);
        let ghost start = self.starting_index as int;
        let ghost full = fair_retain(b, start, indices@)->0;
        let k = self.inner.len();
        let mut out: Vec<(u64, usize)> = Vec::new();
        let mut j: usize = 0;
        let mut m: usize = 0;
        let mut p: usize = 0;
        let mut m_start = self.starting_index;
        assert(buckets_view(out@) + full =~= full);
        while j < k
            invariant
                b == self.buckets(),
                lens == lens_of(b),
                start == self.start(),
                self.wf(),
                k == self.inner.len(),
                k == b.len(),
                j <= k,
                m <= j,
                p <= indices@.len(),
                m_start == start + sum_upto(lens, m as int),
                fair_retain_from(b, start, indices@, j as nat, m as nat, p as nat) is Some,
                full == buckets_view(out@) + fair_retain_from(
                    b,
                    start,
                    indices@,
                    j as nat,
                    m as nat,
                    p as nat,
                )->0,
            decreases k - j,
        {
            let ghost rest = fair_retain_from(b, start, indices@, j as nat, m as nat, p as nat)->0;
            let has = p < indices.len();
            let mut hit = false;
            if has && m < k {
                proof {
                    lemma_len_le_total(lens, m as int);
                }
                let lo = m_start;
                let hi = m_start + self.inner[m].1;
                hit = lo <= indices[p] && indices[p] < hi;
            }
            let ghost p2: nat = if has {
                (p + 1) as nat
            } else {
                p as nat
            };
            let ghost m2: nat = if hit {
                (m + 1) as nat
            } else {
                m as nat
            };
            let ghost next = fair_retain_from(b, start, indices@, (j + 1) as nat, m2, p2)->0;
            let (req, l) = self.inner[j];
            let l2 = if hit {
                l - 1
            } else {
                l
            };
            if l2 == 0 {
                out.push((req, 0));
                assert(buckets_view(out@) + next =~= full);
            } else {
                assert(rest == next);
            }
            if hit {
                proof {
                    lemma_len_le_total(lens, m as int);
                }
                m_start = m_start + self.inner[m].1;
                m = m + 1;
            }
            if has {
                p = p + 1;
            }
            j = j + 1;
        }
        assert(buckets_view(out@) =~= full);
        proof {
            lemma_retain_zero(b, start, indices@, 0, 0, 0);
            lemma_total_zero(lens_of(full), full.len() as int);
        }
        self.inner = out;
    }

    /// Forgets every bucket and starts over from the first stored position.
    pub fn clear(&mut self)
        ensures
            final(self).start() == 0,
            final(self).buckets() == Seq::<(u64, nat)>::empty(),
            final(self).wf(),
    {
        self.inner.clear();
        self.starting_index = 0;
        assert(self.buckets() =~= Seq::<(u64, nat)>::empty());
    }

    /// The stored position played at `current_index`, or `None` past the end
    /// of the fair order.
    pub fn current(&self, current_index: usize) -> (res: Option<usize>)
        requires
            self.wf(),
            current_index >= self.start(),
        ensures
            ({
                let order = fair_order(lens_of(self.buckets()), self.start() as int);
                let n = current_index - self.start();
                match res {
                    Some(v) => n < order.len() && v == order[n],
                    None => n >= order.len(),
                }
            }),
    {
        let ghost lens = lens_of(self.buckets());
        let ghost start = self.starting_index as int;
        let ghost t = total(lens);
        let n = current_index - self.starting_index;
        let k = self.inner.len();
        let mut remaining = n;
        let mut r: usize = 0;
        assert(lens.len() == k);
        loop
            invariant
                lens == lens_of(self.buckets()),
                start == self.start(),
                t == total(lens),
                self.wf(),
                k == self.inner.len(),
                k == lens.len(),
                n == current_index - start,
                remaining <= n,
                r <= t,
                fair_rounds(lens, start, 0, r as nat).len() == n - remaining,
            decreases remaining,
        {
            let mut j: usize = 0;
            let mut offset = self.starting_index;
            let mut count: usize = 0;
            while j < k
                invariant
                    lens == lens_of(self.buckets()),
                    start == self.start(),
                    t == total(lens),
                    self.wf(),
                    k == self.inner.len(),
                    k == lens.len(),
                    n == current_index - start,
                    remaining <= n,
                    r <= t,
                    fair_rounds(lens, start, 0, r as nat).len() == n - remaining,
                    j <= k,
                    offset == start + sum_upto(lens, j as int),
                    count == fair_round(lens, start, r as nat, j as int).len(),
                    count <= remaining,
                decreases k - j,
            {
                let l = self.inner[j].1;
                assert(l == lens[j as int]);
                proof {
                    lemma_sum_upto_mono(lens, j + 1, k as int);
                }
                if l > r {
                    if count == remaining {
                        proof {
                            let rr = r as nat;
                            lemma_round_prefix(lens, start, rr, j + 1, k as int, remaining as int);
                            lemma_round_len_bound(lens, start, rr, k as int);
                            lemma_rounds_split(lens, start, 0, rr, (t - rr) as nat);
                            lemma_rounds_split(lens, start, rr, 1, (t - rr - 1) as nat);
                            assert(fair_rounds(lens, start, rr, 1) =~= fair_round(
                                lens,
                                start,
                                rr,
                                k as int,
                            ) + Seq::<int>::empty());
                            let order = fair_order(lens, start);
                            assert(order == fair_rounds(lens, start, 0, rr) + fair_round(
                                lens,
                                start,
                                rr,
                                k as int,
                            ) + fair_rounds(lens, start, rr + 1, (t - rr - 1) as nat));
                            assert(order[n as int] == fair_round(lens, start, rr, k as int)[
                                remaining as int]);
                        }
                        return Some(offset + r);
                    }
                    count = count + 1;
                }
                offset = offset + l;
                j = j + 1;
            }
            proof {
                lemma_round_len_bound(lens, start, r as nat, k as int);
            }
            if count == 0 {
                proof {
                    let rr = r as nat;
                    lemma_rounds_split(lens, start, 0, rr, (t - rr) as nat);
                    lemma_rounds_empty(lens, start, rr, (t - rr) as nat);
                    assert(fair_order(lens, start) =~= fair_rounds(lens, start, 0, rr));
                }
                return None;
            }
            proof {
                let rr = r as nat;
                lemma_rounds_split(lens, start, 0, rr, 1);
                assert(fair_rounds(lens, start, rr + 1, 0) =~= Seq::<int>::empty());
                assert(fair_rounds(lens, start, rr, 1) =~= fair_round(
                    lens,
                    start,
                    rr,
                    k as int,
                ) + Seq::<int>::empty());
            }
            remaining = remaining - count;
            r = r + 1;
        }
    }
}

// ------------------------------------------------------------------------
// Shuffled order
// ------------------------------------------------------------------------

/// Shuffles `v` in place with `rand::seq::SliceRandom::shuffle` and the
/// thread's generator.  Claimed: the result holds the same entries, each as
/// often as before; which order comes out is left open.
#[verifier::external_body]
fn shuffle_in_place(v: &mut Vec<usize>)
    ensures
        final(v)@.to_multiset() == old(v)@.to_multiset(),
        final(v)@.len() == old(v)@.len(),
{
    v.shuffle(&mut rand::rng());
}

/// `order` with the new position `first + k` inserted at `places[k]`, for
/// each `k` in turn.
pub open spec fn insert_each(order: Seq<usize>, places: Seq<usize>, first: int) -> Seq<usize>
    decreases places.len(),
{
    if places.len() == 0 {
        order
    } else {
        insert_each(order, places.drop_last(), first).insert(
            places.last() as int,
            (first + places.len() - 1) as usize,
        )
    }
}

/// Whether each place lies after `after` and, when it is used, within the
/// order as it then stands: the order starts with `first` entries and has
/// one more after each insertion.
pub open spec fn valid_insert_places(places: Seq<usize>, after: int, first: int) -> bool {
    forall|k: int| 0 <= k < places.len() ==> after < #[trigger] places[k] <= first + k
}

/// A number drawn with `rand::Rng::random_range` over `low ..= high`, which
/// panics on an empty range.  Claimed: the number lies in the range; which
/// one is left open.
#[verifier::external_body]
fn random_between(low: usize, high: usize) -> (r: usize)
    requires
        low <= high,
    ensures
        low <= r <= high,
{
    rand::rng().random_range(low..=high)
}

/// `order` without the positions listed in `indices`.
pub open spec fn remove_listed(order: Seq<usize>, indices: Seq<usize>) -> Seq<usize>
    decreases order.len(),
{
    if order.len() == 0 {
        Seq::empty()
    } else {
        let prev = remove_listed(order.drop_last(), indices);
        if indices.contains(order.last()) {
            prev
        } else {
            prev.push(order.last())
        }
    }
}

/// `order` without the positions in the set `indices`.
pub open spec fn remove_members(order: Seq<usize>, indices: Set<usize>) -> Seq<usize>
    decreases order.len(),
{
    if order.len() == 0 {
        Seq::empty()
    } else {
        let prev = remove_members(order.drop_last(), indices);
        if indices.contains(order.last()) {
            prev
        } else {
            prev.push(order.last())
        }
    }
}

/// Leaving out the members of a list's set is leaving out what the list
/// names.
proof fn lemma_remove_members_listed(order: Seq<usize>, indices: Seq<usize>)
    ensures
        remove_members(order, indices.to_set()) == remove_listed(order, indices),
    decreases order.len(),
{
    if order.len() > 0 {
        lemma_remove_members_listed(order.drop_last(), indices);
        assert(indices.to_set().contains(order.last()) == indices.contains(order.last()));
    }
}

/// Removing listed positions keeps exactly the unlisted ones, in their
/// order: the same as filtering out every listed position; and leaving out
/// the members of a set is filtering out its members.
pub proof fn lemma_remove_is_filter(order: Seq<usize>, indices: Seq<usize>, set: Set<usize>)
    ensures
        remove_listed(order, indices) == order.filter(|x: usize| !indices.contains(x)),
        remove_members(order, set) == order.filter(|x: usize| !set.contains(x)),
    decreases order.len(),
{
    reveal(Seq::filter);
    if order.len() > 0 {
        lemma_remove_is_filter(order.drop_last(), indices, set);
    }
}

/// The set of the positions in `v`.
fn index_set(v: &Vec<usize>) -> (r: HashSet<usize>)
    ensures
        r@ == v@.to_set(),
{
    broadcast use vstd::std_specs::hash::group_hash_axioms;
    let mut r: HashSet<usize> = HashSet::new();
    let mut i: usize = 0;
    while i < v.len()
        invariant
            i <= v.len(),
            r@ == v@.subrange(0, i as int).to_set(),
        decreases v.len() - i,
    {
        r.insert(v[i]);
        assert(v@.subrange(0, i + 1) == v@.subrange(0, i as int).push(v@[i as int]));
        proof {
            v@.subrange(0, i as int).lemma_push_to_set_commute(v@[i as int]);
        }
        i = i + 1;
    }
    assert(v@.subrange(0, v@.len() as int) == v@);
    r
}

/// The queue's stored positions in a random playing order.
pub struct ShuffledIndexer(Vec<usize>);

impl ShuffledIndexer {
    /// The stored positions in playing order.
    pub closed spec fn order(&self) -> Seq<usize> {
        self.0@
    }

    /// The order fits in memory.
    pub proof fn lemma_order_len(&self)
        ensures
            self.order().len() <= usize::MAX,
    {
        assert(self.0.len() == self.0@.len());
    }

    /// A random order of `size` positions that keeps the positions up to
    /// `starting_index` where they are and shuffles the rest.
    pub fn new(size: usize, starting_index: usize) -> (r: Self)
        requires
            starting_index < size,
        ensures
            r.order().len() == size,
            r.order().subrange(0, starting_index + 1) == ascending(0, starting_index + 1),
            r.order().subrange(starting_index + 1, size as int).to_multiset() == ascending(
                starting_index + 1,
                size as int,
            ).to_multiset(),
            r.order().to_multiset() == ascending(0, size as int).to_multiset(),
    {
        let mut rest: Vec<usize> = Vec::new();
        let mut i: usize = 0;
        while i <= starting_index
            invariant
                i <= starting_index + 1,
                starting_index < size,
                rest@ == ascending(0, i as int),
            decreases starting_index + 1 - i,
        {
            rest.push(i);
            assert(rest@ =~= ascending(0, i + 1));
            i = i + 1;
        }
        let mut next: Vec<usize> = Vec::new();
        while i < size
            invariant
                starting_index + 1 <= i <= size,
                next@ == ascending(starting_index + 1, i as int),
            decreases size - i,
        {
            next.push(i);
            assert(next@ =~= ascending(starting_index + 1, i + 1));
            i = i + 1;
        }
        let ghost before = next@;
        shuffle_in_place(&mut next);
        let ghost prefix = rest@;
        let ghost suffix = next@;
        rest.append(&mut next);
        assert(rest@.subrange(0, starting_index + 1) =~= prefix);
        assert(rest@.subrange(starting_index + 1, size as int) =~= suffix);
        proof {
            vstd::seq_lib::lemma_multiset_commutative(prefix, suffix);
            vstd::seq_lib::lemma_multiset_commutative(prefix, before);
            assert(prefix + before =~= ascending(0, size as int));
        }
        ShuffledIndexer(rest)
    }

    /// The stored position played at `current_index`, if there is one.
    pub fn current(&self, current_index: usize) -> (res: Option<usize>)
        ensures
            res == if current_index < self.order().len() {
                Some(self.order()[current_index as int])
            } else {
                None::<usize>
            },
    {
        if current_index < self.0.len() {
            Some(self.0[current_index])
        } else {
            None
        }
    }

    /// Places `additional` new positions, one at a time, at random spots
    /// after `current_index`; the positions already there keep their order.
    pub fn enqueue(&mut self, additional: usize, current_index: usize)
        requires
            additional > 0 ==> current_index < old(self).order().len(),
            old(self).order().len() + additional <= usize::MAX,
        ensures
            exists|places: Seq<usize>|
                {
                    &&& places.len() == additional
                    &&& valid_insert_places(places, current_index as int, old(self).order().len() as int)
                    &&& final(self).order() == insert_each(
                        old(self).order(),
                        places,
                        old(self).order().len() as int,
                    )
                },
            final(self).order().len() == old(self).order().len() + additional,
            additional == 0 ==> final(self).order() == old(self).order(),
            additional > 0 ==> final(self).order().subrange(0, current_index + 1) == old(self).order().subrange(0, current_index + 1),
            final(self).order().to_multiset() == old(self).order().to_multiset().add(
                ascending(
                    old(self).order().len() as int,
                    old(self).order().len() + additional,
                ).to_multiset(),
            ),
    {
        let ghost old_order = self.0@;
        let old_len = self.0.len();
        let mut d: usize = 0;
        let ghost mut places: Seq<usize> = Seq::empty();
        proof {
            assert(ascending(old_len as int, old_len as int) =~= Seq::<usize>::empty());
            assert(old_order.to_multiset().add(Seq::<usize>::empty().to_multiset())
                =~= old_order.to_multiset()) by {
                broadcast use vstd::seq_lib::group_to_multiset_ensures;
                broadcast use vstd::multiset::group_multiset_axioms;

            }
        }
        while d < additional
            invariant
                old_len == old_order.len(),
                old_len + additional <= usize::MAX,
                additional > 0 ==> current_index < old_len,
                d <= additional,
                self.0@.len() == old_len + d,
                additional > 0 ==> self.0@.subrange(0, current_index + 1) == old_order.subrange(
                    0,
                    current_index + 1,
                ),
                d == 0 ==> self.0@ == old_order,
                self.0@.to_multiset() == old_order.to_multiset().add(
                    ascending(old_len as int, old_len + d).to_multiset(),
                ),
                places.len() == d,
                valid_insert_places(places, current_index as int, old_len as int),
                self.0@ == insert_each(old_order, places, old_len as int),
            decreases additional - d,
        {
            let ghost before = self.0@;
            let i = random_between(current_index + 1, old_len + d);
            self.0.insert(i, old_len + d);
            proof {
                let next = places.push(i);
                assert(next.drop_last() =~= places);
                assert(self.0@ == insert_each(old_order, next, old_len as int));
                assert(valid_insert_places(next, current_index as int, old_len as int));
                places = next;
            }
            assert(self.0@.subrange(0, current_index + 1) =~= before.subrange(
                0,
                current_index + 1,
            ));
            proof {
                broadcast use vstd::seq_lib::group_to_multiset_ensures;
                broadcast use vstd::multiset::group_multiset_axioms;

                vstd::seq_lib::to_multiset_insert(before, i as int, (old_len + d) as usize);
                let asc = ascending(old_len as int, old_len + d);
                assert(ascending(old_len as int, old_len + d + 1) =~= asc.push(
                    (old_len + d) as usize,
                ));
                vstd::seq_lib::to_multiset_build(asc, (old_len + d) as usize);
                assert(self.0@.to_multiset() =~= old_order.to_multiset().add(
                    ascending(old_len as int, old_len + d + 1).to_multiset(),
                ));
            }
            d = d + 1;
        }
    }

    /// Leaves out the positions listed in `indices`.
    pub fn dequeue(&mut self, indices: &HashSet<usize>)
        ensures
            final(self).order() == remove_members(old(self).order(), indices@),
    {
        broadcast use vstd::std_specs::hash::group_hash_axioms;
        let ghost old_order = self.0@;
        let mut out: Vec<usize> = Vec::new();
        let mut i: usize = 0;
        assert(old_order.subrange(0, 0) =~= Seq::<usize>::empty());
        while i < self.0.len()
            invariant
                self.0@ == old_order,
                i <= old_order.len(),
                out@ == remove_members(old_order.subrange(0, i as int), indices@),
            decreases old_order.len() - i,
        {
            let x = self.0[i];
            assert(old_order.subrange(0, i + 1).drop_last() =~= old_order.subrange(0, i as int));
            if !indices.contains(&x) {
                out.push(x);
            }
            i = i + 1;
        }
        assert(old_order.subrange(0, old_order.len() as int) =~= old_order);
        self.0 = out;
    }

    /// Removes the playing positions `start .. end`.
    pub fn drain(&mut self, start: usize, end: usize)
        requires
            start <= end <= old(self).order().len(),
        ensures
            final(self).order() == old(self).order().subrange(0, start as int) + old(self).order().subrange(end as int, old(self).order().len() as int),
    {
        let mut tail = self.0.split_off(end);
        self.0.truncate(start);
        self.0.append(&mut tail);
    }

    pub fn clear(&mut self)
        ensures
            final(self).order() == Seq::<usize>::empty(),
    {
        self.0.clear();
    }
}

// ------------------------------------------------------------------------
// The indexer of a queue
// ------------------------------------------------------------------------

/// The playing order of a queue and the state it needs.
pub enum Indexer {
    Standard,
    Fair(FairIndexer),
    Shuffled(ShuffledIndexer),
}

impl Indexer {
    pub open spec fn spec_kind(&self) -> IndexerType {
        match self {
            Indexer::Standard => IndexerType::Standard,
            Indexer::Fair(_) => IndexerType::Fair,
            Indexer::Shuffled(_) => IndexerType::Shuffled,
        }
    }

    pub open spec fn wf(&self) -> bool {
        match self {
            Indexer::Fair(f) => f.wf(),
            _ => true,
        }
    }

    pub fn kind(&self) -> (r: IndexerType)
        ensures
            r == self.spec_kind(),
    {
        match self {
            Indexer::Standard => IndexerType::Standard,
            Indexer::Fair(_) => IndexerType::Fair,
            Indexer::Shuffled(_) => IndexerType::Shuffled,
        }
    }

    /// Whether removing the stored positions `indices` is defined.
    pub open spec fn dequeue_defined(&self, indices: Seq<usize>) -> bool {
        match self {
            Indexer::Fair(f) => fair_retain(f.buckets(), f.start() as int, indices) is Some,
            _ => true,
        }
    }

    /// Forgets the stored positions `indices`.
    pub fn dequeue(&mut self, indices: &Vec<usize>)
        requires
            old(self).wf(),
            old(self).dequeue_defined(indices@),
        ensures
            final(self).wf(),
            final(self).spec_kind() == old(self).spec_kind(),
            match (*old(self), *final(self)) {
                (Indexer::Fair(a), Indexer::Fair(b)) => b.start() == a.start() && b.buckets()
                    == fair_retain(a.buckets(), a.start() as int, indices@)->0,
                (Indexer::Shuffled(a), Indexer::Shuffled(b)) => b.order() == remove_listed(
                    a.order(),
                    indices@,
                ),
                (Indexer::Standard, Indexer::Standard) => true,
                _ => false,
            },
    {
        match self {
            Indexer::Fair(f) => f.dequeue_or_drain(indices),
            Indexer::Shuffled(s) => {
                let set = index_set(indices);
                proof {
                    lemma_remove_members_listed(s.order(), indices@);
                }
                s.dequeue(&set);
            },
            Indexer::Standard => {},
        }
    }

    /// Whether removing the playing positions `start .. end` is defined.
    pub open spec fn drain_defined(&self, start: usize, end: usize) -> bool {
        match self {
            Indexer::Fair(f) => fair_retain(f.buckets(), f.start() as int, ascending(start as int, end as int)) is Some,
            Indexer::Shuffled(s) => start <= end <= s.order().len(),
            Indexer::Standard => true,
        }
    }

    /// Forgets the positions `start .. end`.
    pub fn drain(&mut self, start: usize, end: usize)
        requires
            old(self).wf(),
            start <= end,
            old(self).drain_defined(start, end),
        ensures
            final(self).wf(),
            final(self).spec_kind() == old(self).spec_kind(),
            match (*old(self), *final(self)) {
                (Indexer::Fair(a), Indexer::Fair(b)) => b.start() == a.start() && b.buckets()
                    == fair_retain(a.buckets(), a.start() as int, ascending(start as int, end as int))->0,
                (Indexer::Shuffled(a), Indexer::Shuffled(b)) => b.order() == a.order().subrange(
                    0,
                    start as int,
                ) + a.order().subrange(end as int, a.order().len() as int),
                (Indexer::Standard, Indexer::Standard) => true,
                _ => false,
            },
    {
        match self {
            Indexer::Fair(f) => {
                let mut range: Vec<usize> = Vec::new();
                let mut i = start;
                while i < end
                    invariant
                        start <= i <= end,
                        range@ == ascending(start as int, i as int),
                    decreases end - i,
                {
                    range.push(i);
                    assert(range@ =~= ascending(start as int, i + 1));
                    i = i + 1;
                }
                f.dequeue_or_drain(&range);
            },
            Indexer::Shuffled(s) => s.drain(start, end),
            Indexer::Standard => {},
        }
    }

    /// Forgets all positions, keeping the kind of order.
    pub fn clear(&mut self)
        ensures
            final(self).wf(),
            final(self).spec_kind() == old(self).spec_kind(),
            match *final(self) {
                Indexer::Fair(b) => b.start() == 0 && b.buckets() == Seq::<(u64, nat)>::empty(),
                Indexer::Shuffled(b) => b.order() == Seq::<usize>::empty(),
                Indexer::Standard => true,
            },
    {
        match self {
            Indexer::Fair(f) => f.clear(),
            Indexer::Shuffled(s) => s.clear(),
            Indexer::Standard => {},
        }
    }
}

} // verus!
