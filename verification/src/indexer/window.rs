//! Block windows: how an inclusive range of blocks is cut into consecutive
//! pieces, each small enough for one request to a provider.

use vstd::prelude::*;

verus! {

/// An inclusive interval `[start, end]` of block numbers.
#[derive(Clone, Copy, Debug, PartialEq, Eq, Structural)]
pub struct Window {
    pub start: u64,
    pub end: u64,
}

impl Window {
    /// A window holds at least one block.
    pub open spec fn valid(self) -> bool {
        self.start <= self.end
    }

    /// Whether `block` lies in the window.
    pub open spec fn contains(self, block: int) -> bool {
        self.start <= block <= self.end
    }

    /// The number of blocks in the window.
    pub open spec fn size(self) -> int {
        self.end - self.start + 1
    }

    /// The window `[start, end]`, if it holds a block.
    pub fn new(start: u64, end: u64) -> (w: Option<Window>)
        ensures
            start <= end ==> w == Some(Window { start, end }),
            start > end ==> w is None,
    {
        if start <= end {
            Some(Window { start, end })
        } else {
            None
        }
    }

    /// The first piece of this range: it starts where the range starts and
    /// holds `max_block_range` blocks, or all of the range if that is less.
    pub fn first_piece(&self, max_block_range: u64) -> (w: Window)
        requires
            self.valid(),
            max_block_range >= 1,
        ensures
            w.start == self.start,
            w.end == piece_end(self.start as int, self.end as int, max_block_range as int),
    {
        let room = self.end - self.start;
        if max_block_range - 1 < room {
            Window { start: self.start, end: self.start + (max_block_range - 1) }
        } else {
            Window { start: self.start, end: self.end }
        }
    }

    /// The range that is left once the blocks up to and including `done` are
    /// taken away; `None` when nothing is left.
    pub fn rest_after(&self, done: u64) -> (rest: Option<Window>)
        ensures
            done < self.start && done < self.end ==> rest == Some(*self),
            self.start <= done < self.end ==> rest == Some(
                Window { start: (done + 1) as u64, end: self.end },
            ),
            done >= self.end ==> rest is None,
    {
        if done >= self.end {
            None
        } else if done < self.start {
            Some(Window { start: self.start, end: self.end })
        } else {
            Some(Window { start: done + 1, end: self.end })
        }
    }
}

/// The last block of the piece that starts at `start`, in a range that ends
/// at `end` and is cut into pieces of at most `max` blocks.
pub open spec fn piece_end(start: int, end: int, max: int) -> int {
    if start + max - 1 < end {
        start + max - 1
    } else {
        end
    }
}

/// The pieces that `[start, end]` is cut into, in ascending order. Each piece
/// but the last holds exactly `max` blocks; an empty range has no pieces.
pub open spec fn partition(start: int, end: int, max: int) -> Seq<Window>
    decreases end - start + 1,
{
    if start > end || max < 1 {
        Seq::empty()
    } else {
        let stop = piece_end(start, end, max);
        seq![Window { start: start as u64, end: stop as u64 }] + partition(stop + 1, end, max)
    }
}

/// Cuts `range` into its pieces.
///
/// The result has one entry for every `max_block_range` blocks, so it is
/// meant for ranges whose pieces fit in memory; a runner walks the same
/// pieces one at a time with `first_piece` and `rest_after`.
pub fn windows(range: &Window, max_block_range: u64) -> (pieces: Vec<Window>)
    requires
        range.valid(),
        max_block_range >= 1,
    ensures
        pieces@ == partition(range.start as int, range.end as int, max_block_range as int),
{
    let mut pieces: Vec<Window> = Vec::new();
    let mut rest: Option<Window> = Some(*range);
    let ghost max = max_block_range as int;
    let ghost end = range.end as int;
    while rest.is_some()
        invariant
            max == max_block_range as int,
            max >= 1,
            end == range.end as int,
            rest matches Some(r) ==> r.valid() && r.end == range.end,
            pieces@ + (match rest {
                Some(r) => partition(r.start as int, end, max),
                None => Seq::<Window>::empty(),
            }) == partition(range.start as int, end, max),
        decreases
            match rest {
                Some(r) => r.end - r.start + 1,
                None => 0,
            },
    {
        let r = rest.unwrap();
        let w = r.first_piece(max_block_range);
        let ghost before = pieces@;
        pieces.push(w);
        rest = r.rest_after(w.end);
        proof {
            let tail = partition(w.end + 1, end, max);
            assert(partition(r.start as int, end, max) == seq![w] + tail);
            assert(match rest {
                Some(n) => partition(n.start as int, end, max),
                None => Seq::<Window>::empty(),
            } == tail);
            assert(pieces@ + tail == before + (seq![w] + tail));
        }
    }
    pieces
}

/// Window partition: for every range with `start <= end` and every piece size
/// of at least one block, the pieces are non-empty, hold at most `max` blocks
/// each, begin at `start`, end at `end`, and follow one another without a gap
/// and without an overlap.
pub proof fn lemma_partition_is_exact(start: int, end: int, max: int)
    requires
        0 <= start <= end <= u64::MAX,
        max >= 1,
    ensures
        partition(start, end, max).len() >= 1,
        partition(start, end, max).first().start == start,
        partition(start, end, max).last().end == end,
        forall|i: int|
            0 <= i < partition(start, end, max).len() ==> {
                let w = #[trigger] partition(start, end, max)[i];
                w.valid() && w.size() <= max && start <= w.start && w.end <= end
            },
        forall|i: int, j: int|
            0 <= i && j == i + 1 && j < partition(start, end, max).len() ==> (#[trigger] partition(
                start,
                end,
                max,
            )[j]).start == (#[trigger] partition(start, end, max)[i]).end + 1,
    decreases end - start + 1,
{
    let stop = piece_end(start, end, max);
    let head = Window { start: start as u64, end: stop as u64 };
    let tail = partition(stop + 1, end, max);
    let all = partition(start, end, max);
    assert(all == seq![head] + tail);
    if stop < end {
        lemma_partition_is_exact(stop + 1, end, max);
        assert forall|i: int| 0 <= i < all.len() implies {
            let w = #[trigger] all[i];
            w.valid() && w.size() <= max && start <= w.start && w.end <= end
        } by {
            if i > 0 {
                assert(all[i] == tail[i - 1]);
            }
        }
        assert forall|i: int, j: int| 0 <= i && j == i + 1 && j < all.len() implies (
        #[trigger] all[j]).start == (#[trigger] all[i]).end + 1 by {
            assert(all[j] == tail[j - 1]);
            if i > 0 {
                assert(all[i] == tail[i - 1]);
            } else {
                assert(tail[0] == tail.first());
            }
        }
        assert(all.last() == tail.last());
    } else {
        assert(tail =~= Seq::<Window>::empty());
        assert(all =~= seq![head]);
    }
}

/// Window partition, ordering: an earlier piece ends before a later piece
/// begins, so no two pieces share a block.
pub proof fn lemma_partition_is_disjoint(start: int, end: int, max: int, i: int, j: int)
    requires
        0 <= start <= end <= u64::MAX,
        max >= 1,
        0 <= i < j < partition(start, end, max).len(),
    ensures
        partition(start, end, max)[i].end < partition(start, end, max)[j].start,
        forall|b: int|
            !(partition(start, end, max)[i].contains(b) && partition(start, end, max)[j].contains(
                b,
            )),
    decreases end - start + 1,
{
    let stop = piece_end(start, end, max);
    let tail = partition(stop + 1, end, max);
    let all = partition(start, end, max);
    assert(all == seq![Window { start: start as u64, end: stop as u64 }] + tail);
    assert(all[j] == tail[j - 1]);
    lemma_partition_is_exact(stop + 1, end, max);
    if i == 0 {
        assert(tail[j - 1].start >= stop + 1);
    } else {
        assert(all[i] == tail[i - 1]);
        lemma_partition_is_disjoint(stop + 1, end, max, i - 1, j - 1);
    }
}

/// Window partition, coverage: every block of `[start, end]` lies in one of
/// the pieces.
pub proof fn lemma_partition_covers(start: int, end: int, max: int, block: int)
    requires
        0 <= start <= block <= end <= u64::MAX,
        max >= 1,
    ensures
        exists|i: int|
            0 <= i < partition(start, end, max).len() && (#[trigger] partition(
                start,
                end,
                max,
            )[i]).contains(block),
    decreases end - start + 1,
{
    let stop = piece_end(start, end, max);
    let tail = partition(stop + 1, end, max);
    let all = partition(start, end, max);
    assert(all == seq![Window { start: start as u64, end: stop as u64 }] + tail);
    if block <= stop {
        assert(all[0].contains(block));
    } else {
        lemma_partition_covers(stop + 1, end, max, block);
        let k = choose|k: int| 0 <= k < tail.len() && (#[trigger] tail[k]).contains(block);
        assert(all[k + 1] == tail[k]);
        assert(all[k + 1].contains(block));
    }
}

} // verus!
