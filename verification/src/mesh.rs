//! The index lists of the three meshes. Each three indices name the corners
//! of one triangle, counter-clockwise.

use vstd::prelude::*;

verus! {

/// The number of segments that the ring is cut into. Each segment has one
/// vertex on the inner and one on the outer circle.
pub const CIRCLE_VERTEX_COUNT: u16 = 24;

/// The indices of the cross: four corner triangles and the two bars that
/// join opposite corners.
pub open spec fn cross_index_list() -> Seq<u16> {
    seq![
        1u16, 2, 0,
        3, 5, 4,
        6, 7, 8,
        9, 11, 10,
        1, 8, 7,
        7, 2, 1,
        5, 10, 11,
        11, 4, 5,
    ]
}

/// The indices of the grid lines: two triangles for each of the four bars.
pub open spec fn grid_index_list() -> Seq<u16> {
    seq![
        2u16, 1, 0,
        1, 2, 3,
        5, 6, 4,
        6, 5, 7,
        10, 9, 8,
        9, 10, 11,
        13, 14, 12,
        14, 13, 15,
    ]
}

/// The index at position `k` of the ring. Segment `k / 6` lies between the
/// vertex pair that starts at `2 * (k / 6)` and the next pair, which for the
/// last segment is the first pair again. Its two triangles are `(0, 1, 2)`
/// and `(2, 1, 3)`, counted from the segment's first vertex.
pub open spec fn ring_index(k: int) -> int {
    let first: int = 2 * (k / 6);
    let next: int = if first + 2 == 2 * CIRCLE_VERTEX_COUNT {
        0
    } else {
        first + 2
    };
    if k % 6 == 0 {
        first
    } else if k % 6 == 1 || k % 6 == 4 {
        first + 1
    } else if k % 6 == 2 || k % 6 == 3 {
        next
    } else {
        next + 1
    }
}

/// The indices of the cross.
pub fn cross_indices() -> (indices: Vec<u16>)
    ensures
        indices@ == cross_index_list(),
{
    let indices: Vec<u16> = vec![
        1, 2, 0,
        3, 5, 4,
        6, 7, 8,
        9, 11, 10,
        1, 8, 7,
        7, 2, 1,
        5, 10, 11,
        11, 4, 5,
    ];
    assert(indices@ =~= cross_index_list());
    indices
}

/// The indices of the grid lines.
pub fn grid_indices() -> (indices: Vec<u16>)
    ensures
        indices@ == grid_index_list(),
{
    let indices: Vec<u16> = vec![
        2, 1, 0,
        1, 2, 3,
        5, 6, 4,
        6, 5, 7,
        10, 9, 8,
        9, 10, 11,
        13, 14, 12,
        14, 13, 15,
    ];
    assert(indices@ =~= grid_index_list());
    indices
}

/// The index `x` of a ring vertex, taken once around the ring.
fn wrap_at_max(x: u16) -> (wrapped: u16)
    ensures
        wrapped == x % 48,
{
    x % (CIRCLE_VERTEX_COUNT * 2)
}

/// The indices of the ring: six for each of its segments.
pub fn ring_indices() -> (indices: Vec<u16>)
    ensures
        indices@.len() == 6 * CIRCLE_VERTEX_COUNT,
        forall|k: int| 0 <= k < indices@.len() ==> #[trigger] indices@[k] == ring_index(k),
{
    let mut indices: Vec<u16> = Vec::new();
    let mut segment: u16 = 0;
    while segment < CIRCLE_VERTEX_COUNT
        invariant
            segment <= CIRCLE_VERTEX_COUNT,
            indices@.len() == 6 * segment,
            forall|k: int| 0 <= k < indices@.len() ==> #[trigger] indices@[k] == ring_index(k),
        decreases CIRCLE_VERTEX_COUNT - segment,
    {
        let i: u16 = segment * 2;
        indices.push(i);
        indices.push(i + 1);
        indices.push(wrap_at_max(i + 2));
        indices.push(wrap_at_max(i + 2));
        indices.push(i + 1);
        indices.push(wrap_at_max(i + 3));
        segment += 1;
    }
    indices
}

} // verus!
