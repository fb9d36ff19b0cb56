use tic_tac_gpu::mesh::{cross_indices, grid_indices, ring_indices, CIRCLE_VERTEX_COUNT};
use tic_tac_gpu::shape::Shape;

fn flags_of(code: u32, slots: u32) -> Vec<bool> {
    (0..slots).map(|i| code & (1 << i) != 0).collect()
}

fn ranges_of(shape: &Shape) -> Vec<(u32, u32)> {
    shape.active_ranges().iter().map(|r| (r.start, r.end)).collect()
}

#[test]
fn new_shape_shows_nothing() {
    let shape = Shape::new(&[0, 1, 2]);
    assert_eq!(shape.index_count(), 3);
    assert!(shape.active_ranges().is_empty());
    assert!(shape.draw().is_empty());
    assert_eq!(shape.visibility(4), vec![false; 4]);
}

#[test]
fn all_hidden_gives_no_range() {
    let mut shape = Shape::cross();
    shape.update_instances(&[false; 9]);
    assert!(shape.active_ranges().is_empty());
    assert!(shape.draw().is_empty());
}

#[test]
fn all_visible_gives_one_range_over_all_slots() {
    let mut shape = Shape::cross();
    shape.update_instances(&[true; 9]);
    assert_eq!(ranges_of(&shape), vec![(0, 9)]);
}

#[test]
fn no_slot_gives_no_range() {
    let mut shape = Shape::ring();
    shape.update_instances(&[true; 9]);
    shape.update_instances(&[]);
    assert!(shape.active_ranges().is_empty());
}

#[test]
fn a_trailing_run_ends_at_the_length() {
    let mut shape = Shape::ring();
    shape.update_instances(&[false, true, false, false, true, true, false, true, true]);
    assert_eq!(ranges_of(&shape), vec![(1, 2), (4, 6), (7, 9)]);
}

#[test]
fn a_single_visible_slot_is_a_range_of_one() {
    let mut shape = Shape::grid();
    shape.update_instances(&[true]);
    assert_eq!(ranges_of(&shape), vec![(0, 1)]);
}

#[test]
fn an_update_replaces_the_old_ranges() {
    let mut shape = Shape::cross();
    shape.update_instances(&[true, true, false, true]);
    assert_eq!(ranges_of(&shape), vec![(0, 2), (3, 4)]);
    shape.update_instances(&[false, true, true, false]);
    assert_eq!(ranges_of(&shape), vec![(1, 3)]);
}

#[test]
fn alternating_slots_give_the_most_ranges() {
    let mut shape = Shape::cross();
    shape.update_instances(&[true, false, true, false, true, false, true, false, true]);
    assert_eq!(ranges_of(&shape), vec![(0, 1), (2, 3), (4, 5), (6, 7), (8, 9)]);
}

#[test]
fn replaying_the_ranges_gives_the_visibility_back() {
    let mut shape = Shape::cross();
    for code in 0..512 {
        let flags = flags_of(code, 9);
        shape.update_instances(&flags);
        assert_eq!(shape.visibility(9), flags, "visibility {:?}", flags);
        for slot in 0..9 {
            assert_eq!(shape.is_visible(slot), flags[slot as usize]);
        }
        assert!(!shape.is_visible(9));
    }
}

#[test]
fn ranges_are_the_runs_in_order() {
    let mut shape = Shape::ring();
    for slots in 0..=10 {
        for code in 0..(1u32 << slots) {
            let flags = flags_of(code, slots);
            shape.update_instances(&flags);
            let ranges = ranges_of(&shape);
            let mut expected = Vec::new();
            let mut i = 0;
            while i < slots {
                if flags[i as usize] {
                    let start = i;
                    while i < slots && flags[i as usize] {
                        i += 1;
                    }
                    expected.push((start, i));
                } else {
                    i += 1;
                }
            }
            assert_eq!(ranges, expected, "visibility {:?}", flags);
            assert!(ranges.len() as u32 <= (slots + 1) / 2);
        }
    }
}

#[test]
fn one_draw_call_per_range() {
    let mut shape = Shape::cross();
    shape.update_instances(&[true, false, false, true, true, false, false, false, true]);
    let calls = shape.draw();
    assert_eq!(calls.len(), 3);
    let instances: Vec<(u32, u32)> =
        calls.iter().map(|c| (c.instances.start, c.instances.end)).collect();
    assert_eq!(instances, vec![(0, 1), (3, 5), (8, 9)]);
    for call in calls.iter() {
        assert_eq!(call.indices, 0..24);
        assert_eq!(call.base_vertex, 0);
    }
}

#[test]
fn index_counts_of_the_three_shapes() {
    assert_eq!(Shape::grid().index_count(), 24);
    assert_eq!(Shape::cross().index_count(), 24);
    assert_eq!(Shape::ring().index_count(), 144);
}

#[test]
fn cross_index_list() {
    assert_eq!(
        cross_indices(),
        vec![1, 2, 0, 3, 5, 4, 6, 7, 8, 9, 11, 10, 1, 8, 7, 7, 2, 1, 5, 10, 11, 11, 4, 5]
    );
}

#[test]
fn grid_index_list() {
    assert_eq!(
        grid_indices(),
        vec![2, 1, 0, 1, 2, 3, 5, 6, 4, 6, 5, 7, 10, 9, 8, 9, 10, 11, 13, 14, 12, 14, 13, 15]
    );
}

#[test]
fn ring_index_list() {
    let indices = ring_indices();
    assert_eq!(CIRCLE_VERTEX_COUNT, 24);
    assert_eq!(indices.len(), 144);
    assert_eq!(&indices[0..6], &[0, 1, 2, 2, 1, 3]);
    assert_eq!(&indices[6..12], &[2, 3, 4, 4, 3, 5]);
    assert_eq!(&indices[132..138], &[44, 45, 46, 46, 45, 47]);
    assert_eq!(&indices[138..144], &[46, 47, 0, 0, 47, 1]);
    for (segment, six) in indices.chunks(6).enumerate() {
        let i = 2 * segment as u16;
        let expected = [i, i + 1, (i + 2) % 48, (i + 2) % 48, i + 1, (i + 3) % 48];
        assert_eq!(six, &expected);
    }
    assert!(indices.iter().all(|&i| i < 48));
}
