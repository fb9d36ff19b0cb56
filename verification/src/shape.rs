//! A shape is drawn once per visible instance slot. Which slots are visible is
//! kept as a list of index ranges, one per unbroken run of visible slots, so
//! that a frame needs one draw call per run.

use crate::mesh::{
    cross_index_list, cross_indices, grid_index_list, grid_indices, ring_indices,
    CIRCLE_VERTEX_COUNT,
};
use std::ops::Range;
use vstd::prelude::*;

verus! {

/// `[start, end)` is a run of `true` in `visible` that cannot be extended on
/// either side.
pub open spec fn is_run(visible: Seq<bool>, start: int, end: int) -> bool {
    &&& 0 <= start < end <= visible.len()
    &&& forall|i: int| start <= i < end ==> visible[i]
    &&& (start == 0 || !visible[start - 1])
    &&& (end == visible.len() || !visible[end])
}

/// Some range of `ranges` holds `slot`.
pub open spec fn covers(ranges: Seq<Range<u32>>, slot: int) -> bool {
    exists|k: int| 0 <= k < ranges.len() && (#[trigger] ranges[k]).start <= slot < ranges[k].end
}

/// `ranges` holds the runs of `true` in `visible`: each range is a run, the
/// ranges stand from left to right with a gap between neighbours, and no
/// `true` is left out.
pub open spec fn lists_runs(ranges: Seq<Range<u32>>, visible: Seq<bool>) -> bool {
    &&& forall|k: int|
        0 <= k < ranges.len() ==> is_run(
            visible,
            (#[trigger] ranges[k]).start as int,
            ranges[k].end as int,
        )
    &&& forall|j: int, k: int|
        0 <= j < k < ranges.len() ==> (#[trigger] ranges[j]).end < (#[trigger] ranges[k]).start
    &&& forall|i: int| 0 <= i < visible.len() && visible[i] ==> covers(ranges, i)
}

/// The visibility of `slots` instance slots that `ranges` stands for: a slot
/// is visible where a range holds it.
pub open spec fn replay(ranges: Seq<Range<u32>>, slots: nat) -> Seq<bool> {
    Seq::new(slots, |i: int| covers(ranges, i))
}

/// One indexed draw: the indices to read, the offset added to each index and
/// the instance slots to draw.
#[derive(Debug)]
pub struct DrawCall {
    pub indices: Range<u32>,
    pub base_vertex: i32,
    pub instances: Range<u32>,
}

/// The draw that shows the slots of `instances` of a shape with `index_count`
/// indices.
pub open spec fn draw_of(index_count: u32, instances: Range<u32>) -> DrawCall {
    DrawCall { indices: 0..index_count, base_vertex: 0, instances }
}

/// The host side of one shape: how many indices its mesh has and which of
/// its instance slots are visible.
#[derive(Debug)]
pub struct Shape {
    index_count: u32,
    active_ranges: Vec<Range<u32>>,
}

impl Shape {
    /// The number of indices of the mesh.
    pub closed spec fn indices(&self) -> u32 {
        self.index_count
    }

    /// The ranges of visible instance slots.
    pub closed spec fn active(&self) -> Seq<Range<u32>> {
        self.active_ranges@
    }

    /// The draw calls that show the shape: one per range of visible slots,
    /// in the order of the ranges.
    pub open spec fn draws(&self) -> Seq<DrawCall> {
        Seq::new(self.active().len(), |k: int| draw_of(self.indices(), self.active()[k]))
    }

    /// A shape whose mesh has the triangles that `indices` lists. No instance
    /// is visible until `update_instances` says so.
    pub fn new(indices: &[u16]) -> (shape: Shape)
        requires
            indices@.len() <= u32::MAX,
        ensures
            shape.indices() == indices@.len(),
            shape.active() == Seq::<Range<u32>>::empty(),
    {
        Shape { index_count: indices.len() as u32, active_ranges: Vec::new() }
    }

    /// The cross, one of the two pieces.
    pub fn cross() -> (shape: Shape)
        ensures
            shape.indices() == cross_index_list().len(),
            shape.active() == Seq::<Range<u32>>::empty(),
    {
        let indices = cross_indices();
        Shape::new(indices.as_slice())
    }

    /// The ring, the other piece.
    pub fn ring() -> (shape: Shape)
        ensures
            shape.indices() == 6 * CIRCLE_VERTEX_COUNT,
            shape.active() == Seq::<Range<u32>>::empty(),
    {
        let indices = ring_indices();
        Shape::new(indices.as_slice())
    }

    /// The lines between the cells of the board.
    pub fn grid() -> (shape: Shape)
        ensures
            shape.indices() == grid_index_list().len(),
            shape.active() == Seq::<Range<u32>>::empty(),
    {
        let indices = grid_indices();
        Shape::new(indices.as_slice())
    }

    /// The number of indices of the mesh.
    pub fn index_count(&self) -> (count: u32)
        ensures
            count == self.indices(),
    {
        self.index_count
    }

    /// The ranges of visible instance slots, from left to right.
    pub fn active_ranges(&self) -> (ranges: &Vec<Range<u32>>)
        ensures
            ranges@ == self.active(),
    {
        &self.active_ranges
    }

    /// Replaces the visible slots by those that `enabled` marks, one flag per
    /// slot. The old ranges are dropped; the new ones are the runs of `true`
    /// in `enabled`.
    pub fn update_instances(&mut self, enabled: &[bool])
        requires
            enabled@.len() <= u32::MAX,
        ensures
            final(self).indices() == old(self).indices(),
            lists_runs(final(self).active(), enabled@),
            replay(final(self).active(), enabled@.len()) == enabled@,
            final(self).active().len() <= (enabled@.len() + 1) / 2,
            (forall|i: int| 0 <= i < enabled@.len() ==> !enabled@[i]) ==> final(self).active().len()
                == 0,
            enabled@.len() > 0 && (forall|i: int| 0 <= i < enabled@.len() ==> enabled@[i])
                ==> final(self).active() == seq![0u32..enabled@.len() as u32],
    {
        self.active_ranges.clear();
        let length: usize = enabled.len();
        if length == 0 {
            assert(replay(self.active_ranges@, 0) =~= enabled@);
            return ;
        }
        let mut possible_start: Option<u32> = None;
        let mut i: u32 = 0;
        while (i as usize) < length
            invariant
                length == enabled@.len(),
                length <= u32::MAX,
                i <= length,
                self.index_count == old(self).index_count,
                forall|k: int|
                    0 <= k < self.active_ranges@.len() ==> is_run(
                        enabled@,
                        (#[trigger] self.active_ranges@[k]).start as int,
                        self.active_ranges@[k].end as int,
                    ) && self.active_ranges@[k].end < i,
                forall|j: int, k: int|
                    0 <= j < k < self.active_ranges@.len() ==> (
                    #[trigger] self.active_ranges@[j]).end < (
                    #[trigger] self.active_ranges@[k]).start,
                match possible_start {
                    Some(start) => {
                        &&& start < i
                        &&& start == 0 || !enabled@[start - 1]
                        &&& forall|j: int| start <= j < i ==> enabled@[j]
                        &&& forall|k: int|
                            0 <= k < self.active_ranges@.len() ==> (
                            #[trigger] self.active_ranges@[k]).end < start
                    },
                    None => i == 0 || !enabled@[i - 1],
                },
                forall|j: int|
                    0 <= j < i && enabled@[j] ==> covers(self.active_ranges@, j) || (
                    possible_start is Some && possible_start->0 <= j),
            decreases length - i,
        {
            let active = enabled[i as usize];
            match (possible_start, active) {
                (None, true) => {
                    possible_start = Some(i);
                },
                (Some(start), false) => {
                    let ghost before = self.active_ranges@;
                    self.active_ranges.push(start..i);
                    possible_start = None;
                    assert forall|j: int| 0 <= j <= i && enabled@[j] implies covers(
                        self.active_ranges@,
                        j,
                    ) by {
                        lemma_push_covers(before, start..i, j);
                    }
                },
                _ => (),
            }
            i += 1;
        }
        if let Some(start) = possible_start {
            let ghost before = self.active_ranges@;
            self.active_ranges.push(start..length as u32);
            assert forall|j: int| 0 <= j < length && enabled@[j] implies covers(
                self.active_ranges@,
                j,
            ) by {
                lemma_push_covers(before, start..length as u32, j);
            }
        }
        proof {
            lemma_replay_of_runs(self.active_ranges@, enabled@);
            lemma_run_count(self.active_ranges@, enabled@);
            if forall|i: int| 0 <= i < enabled@.len() ==> !enabled@[i] {
                lemma_runs_of_none(self.active_ranges@, enabled@);
            }
            if forall|i: int| 0 <= i < enabled@.len() ==> enabled@[i] {
                lemma_runs_of_all(self.active_ranges@, enabled@);
                assert(self.active_ranges@ =~= seq![0u32..enabled@.len() as u32]);
            }
        }
    }

    /// The draw calls that show this shape: one per range of visible slots,
    /// in the order of the ranges, and none where no slot is visible.
    pub fn draw(&self) -> (calls: Vec<DrawCall>)
        ensures
            calls@ == self.draws(),
    {
        let mut calls: Vec<DrawCall> = Vec::new();
        let mut k: usize = 0;
        while k < self.active_ranges.len()
            invariant
                k <= self.active_ranges@.len(),
                calls@.len() == k,
                forall|j: int|
                    0 <= j < k ==> #[trigger] calls@[j] == draw_of(
                        self.index_count,
                        self.active_ranges@[j],
                    ),
            decreases self.active_ranges@.len() - k,
        {
            let start: u32 = self.active_ranges[k].start;
            let end: u32 = self.active_ranges[k].end;
            calls.push(DrawCall { indices: 0..self.index_count, base_vertex: 0, instances: start..end });
            k += 1;
        }
        assert(calls@ =~= self.draws());
        calls
    }

    /// Whether one of the ranges holds `slot`.
    pub fn is_visible(&self, slot: u32) -> (visible: bool)
        ensures
            visible == covers(self.active(), slot as int),
    {
        let mut k: usize = 0;
        while k < self.active_ranges.len()
            invariant
                k <= self.active_ranges@.len(),
                forall|j: int|
                    0 <= j < k ==> !((#[trigger] self.active_ranges@[j]).start <= slot
                        < self.active_ranges@[j].end),
            decreases self.active_ranges@.len() - k,
        {
            if self.active_ranges[k].start <= slot && slot < self.active_ranges[k].end {
                return true;
            }
            k += 1;
        }
        false
    }

    /// The visibility of the first `slots` instance slots, one flag per slot.
    pub fn visibility(&self, slots: u32) -> (visible: Vec<bool>)
        ensures
            visible@ == replay(self.active(), slots as nat),
    {
        let mut visible: Vec<bool> = Vec::new();
        let mut i: u32 = 0;
        while i < slots
            invariant
                i <= slots,
                visible@.len() == i,
                forall|j: int| 0 <= j < i ==> visible@[j] == covers(self.active(), j),
            decreases slots - i,
        {
            let flag = self.is_visible(i);
            visible.push(flag);
            i += 1;
        }
        assert(visible@ =~= replay(self.active(), slots as nat));
        visible
    }
}

/// A list with one more range at its end holds the slots that the list held
/// and those of the new range.
proof fn lemma_push_covers(ranges: Seq<Range<u32>>, last: Range<u32>, slot: int)
    requires
        covers(ranges, slot) || last.start <= slot < last.end,
    ensures
        covers(ranges.push(last), slot),
{
    let longer = ranges.push(last);
    if covers(ranges, slot) {
        let k: int = choose|k: int|
            0 <= k < ranges.len() && (#[trigger] ranges[k]).start <= slot < ranges[k].end;
        assert(longer[k] == ranges[k]);
    } else {
        assert(longer[ranges.len() as int] == last);
    }
}

/// Replaying the runs of a visibility gives that visibility back.
pub proof fn lemma_replay_of_runs(ranges: Seq<Range<u32>>, visible: Seq<bool>)
    requires
        lists_runs(ranges, visible),
    ensures
        replay(ranges, visible.len()) == visible,
{
    assert forall|i: int| 0 <= i < visible.len() implies covers(ranges, i) == visible[i] by {
        if covers(ranges, i) {
            let k: int = choose|k: int|
                0 <= k < ranges.len() && (#[trigger] ranges[k]).start <= i < ranges[k].end;
            assert(is_run(visible, ranges[k].start as int, ranges[k].end as int));
        }
    }
    assert(replay(ranges, visible.len()) =~= visible);
}

/// A slot lies in at most one run.
pub proof fn lemma_run_of_slot(visible: Seq<bool>, a: Range<u32>, b: Range<u32>, slot: int)
    requires
        is_run(visible, a.start as int, a.end as int),
        is_run(visible, b.start as int, b.end as int),
        a.start <= slot < a.end,
        b.start <= slot < b.end,
    ensures
        a == b,
{
    if a.start < b.start {
        assert(visible[b.start - 1]);
    }
    if b.start < a.start {
        assert(visible[a.start - 1]);
    }
    if a.end < b.end {
        assert(visible[a.end as int]);
    }
    if b.end < a.end {
        assert(visible[b.end as int]);
    }
}

/// Two lists of the runs of one visibility agree at every position of the
/// first.
proof fn lemma_runs_agree_at(a: Seq<Range<u32>>, b: Seq<Range<u32>>, visible: Seq<bool>, k: int)
    requires
        lists_runs(a, visible),
        lists_runs(b, visible),
        0 <= k < a.len(),
    ensures
        k < b.len(),
        a[k] == b[k],
    decreases k,
{
    let slot: int = a[k].start as int;
    assert(is_run(visible, a[k].start as int, a[k].end as int));
    assert(visible[slot]);
    assert(covers(b, slot));
    let m: int = choose|m: int| 0 <= m < b.len() && (#[trigger] b[m]).start <= slot < b[m].end;
    lemma_run_of_slot(visible, a[k], b[m], slot);
    if m < k {
        lemma_runs_agree_at(a, b, visible, m);
        assert(a[m].end < a[k].start);
    } else if m > k {
        let other: int = b[k].start as int;
        assert(is_run(visible, b[k].start as int, b[k].end as int));
        assert(visible[other]);
        assert(covers(a, other));
        let n: int = choose|n: int| 0 <= n < a.len() && (#[trigger] a[n]).start <= other < a[n].end;
        lemma_run_of_slot(visible, a[n], b[k], other);
        assert(b[k].end < b[m].start);
        if n > k {
            assert(a[k].end < a[n].start);
        }
        assert(n < k);
        lemma_runs_agree_at(a, b, visible, n);
        assert(b[n].end < b[k].start);
    }
}

/// A visibility has one list of runs only: what `lists_runs` holds of is
/// fixed by the visibility.
pub proof fn lemma_runs_unique(a: Seq<Range<u32>>, b: Seq<Range<u32>>, visible: Seq<bool>)
    requires
        lists_runs(a, visible),
        lists_runs(b, visible),
    ensures
        a == b,
{
    if a.len() > 0 {
        lemma_runs_agree_at(a, b, visible, a.len() - 1);
    }
    if b.len() > 0 {
        lemma_runs_agree_at(b, a, visible, b.len() - 1);
    }
    assert forall|k: int| 0 <= k < a.len() implies a[k] == b[k] by {
        lemma_runs_agree_at(a, b, visible, k);
    }
    assert(a =~= b);
}

/// The range at position `k` of a list of runs starts at slot `2 * k` or
/// later: each run before it takes a slot, and so does each gap.
proof fn lemma_run_start(ranges: Seq<Range<u32>>, visible: Seq<bool>, k: int)
    requires
        lists_runs(ranges, visible),
        0 <= k < ranges.len(),
    ensures
        ranges[k].start >= 2 * k,
    decreases k,
{
    if k > 0 {
        lemma_run_start(ranges, visible, k - 1);
        assert(is_run(visible, ranges[k - 1].start as int, ranges[k - 1].end as int));
        assert(ranges[k - 1].end < ranges[k].start);
    }
}

/// `n` slots have at most `n / 2` runs, rounded up: a frame needs no more
/// draw calls than that for one shape.
pub proof fn lemma_run_count(ranges: Seq<Range<u32>>, visible: Seq<bool>)
    requires
        lists_runs(ranges, visible),
    ensures
        ranges.len() <= (visible.len() + 1) / 2,
{
    if ranges.len() > 0 {
        let last: int = ranges.len() - 1;
        lemma_run_start(ranges, visible, last);
        assert(is_run(visible, ranges[last].start as int, ranges[last].end as int));
    }
}

/// Where no slot is visible there is no run.
pub proof fn lemma_runs_of_none(ranges: Seq<Range<u32>>, visible: Seq<bool>)
    requires
        lists_runs(ranges, visible),
        forall|i: int| 0 <= i < visible.len() ==> !visible[i],
    ensures
        ranges.len() == 0,
{
    if ranges.len() > 0 {
        assert(is_run(visible, ranges[0].start as int, ranges[0].end as int));
        assert(visible[ranges[0].start as int]);
    }
}

/// Where every slot is visible the one run holds them all.
pub proof fn lemma_runs_of_all(ranges: Seq<Range<u32>>, visible: Seq<bool>)
    requires
        lists_runs(ranges, visible),
        visible.len() > 0,
        forall|i: int| 0 <= i < visible.len() ==> visible[i],
    ensures
        ranges.len() == 1,
        ranges[0].start == 0,
        ranges[0].end == visible.len(),
{
    assert(covers(ranges, 0));
    assert forall|k: int| 0 <= k < ranges.len() implies (#[trigger] ranges[k]).start == 0
        && ranges[k].end == visible.len() by {
        assert(is_run(visible, ranges[k].start as int, ranges[k].end as int));
        if ranges[k].start > 0 {
            assert(visible[ranges[k].start - 1]);
        }
        if ranges[k].end < visible.len() {
            assert(visible[ranges[k].end as int]);
        }
    }
    if ranges.len() > 1 {
        assert(ranges[0].end < ranges[1].start);
    }
}

} // verus!
