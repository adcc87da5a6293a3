use reckoning::tilemap::merge::{merge_grids, row_plates};
use reckoning::tilemap::{CellSet, GridCoords, Plate, PlateMap, Rect};

fn cells(coords: &[(i32, i32)]) -> CellSet {
    let mut set = CellSet::new();
    for &(x, y) in coords {
        set.insert(GridCoords { x, y });
    }
    set
}

fn rect(left: i32, right: i32, bottom: i32, top: i32) -> Rect {
    Rect { left, right, top, bottom }
}

fn sorted(mut rects: Vec<Rect>) -> Vec<Rect> {
    rects.sort_by_key(|r| (r.bottom, r.left, r.top, r.right));
    rects
}

fn covered(rects: &[Rect], width: i32, height: i32) -> Vec<Vec<u32>> {
    let mut count = vec![vec![0u32; width as usize]; height as usize];
    for r in rects {
        for y in r.bottom..=r.top {
            for x in r.left..=r.right {
                count[y as usize][x as usize] += 1;
            }
        }
    }
    count
}

#[test]
fn cell_set_insert_and_contains() {
    let mut set = CellSet::new();
    assert!(!set.contains(GridCoords { x: 0, y: 0 }));
    assert!(set.insert(GridCoords { x: 3, y: -2 }));
    assert!(!set.insert(GridCoords { x: 3, y: -2 }));
    assert!(set.contains(GridCoords { x: 3, y: -2 }));
    assert!(!set.contains(GridCoords { x: -2, y: 3 }));
    assert!(!set.contains(GridCoords { x: 3, y: 2 }));
}

#[test]
fn cell_set_keeps_extreme_cells_apart() {
    let mut set = CellSet::new();
    assert!(set.insert(GridCoords { x: i32::MIN, y: i32::MAX }));
    assert!(set.insert(GridCoords { x: i32::MAX, y: i32::MIN }));
    assert!(set.insert(GridCoords { x: -1, y: 0 }));
    assert!(set.contains(GridCoords { x: i32::MIN, y: i32::MAX }));
    assert!(set.contains(GridCoords { x: i32::MAX, y: i32::MIN }));
    assert!(!set.contains(GridCoords { x: i32::MAX, y: i32::MAX }));
    assert!(!set.contains(GridCoords { x: 0, y: -1 }));
    assert!(!set.contains(GridCoords { x: 0, y: 0 }));
}

#[test]
fn rect_contains_its_cells_only() {
    let r = rect(1, 3, 2, 4);
    assert!(r.contains(GridCoords { x: 1, y: 2 }));
    assert!(r.contains(GridCoords { x: 3, y: 4 }));
    assert!(r.contains(GridCoords { x: 2, y: 3 }));
    assert!(!r.contains(GridCoords { x: 0, y: 3 }));
    assert!(!r.contains(GridCoords { x: 4, y: 3 }));
    assert!(!r.contains(GridCoords { x: 2, y: 1 }));
    assert!(!r.contains(GridCoords { x: 2, y: 5 }));
}

#[test]
fn row_plates_are_maximal_runs() {
    let set = cells(&[(0, 0), (1, 0), (3, 0), (5, 0), (6, 0), (7, 0), (2, 1)]);
    assert_eq!(
        row_plates(8, 0, &set),
        vec![
            Plate { left: 0, right: 1 },
            Plate { left: 3, right: 3 },
            Plate { left: 5, right: 7 },
        ]
    );
    assert_eq!(row_plates(8, 1, &set), vec![Plate { left: 2, right: 2 }]);
    assert_eq!(row_plates(8, 2, &set), Vec::<Plate>::new());
}

#[test]
fn row_plates_end_at_the_right_edge() {
    let set = cells(&[(1, 0), (2, 0)]);
    assert_eq!(row_plates(3, 0, &set), vec![Plate { left: 1, right: 2 }]);
}

#[test]
fn row_plates_drop_a_run_through_the_column_past_the_layer() {
    // The run goes on through column 3 of a layer of 3 columns: it never ends.
    let set = cells(&[(0, 0), (2, 0), (3, 0)]);
    assert_eq!(row_plates(3, 0, &set), vec![Plate { left: 0, right: 0 }]);
}

#[test]
fn row_plates_skip_cells_left_of_the_layer() {
    let set = cells(&[(-1, 0), (0, 0), (1, 0)]);
    assert_eq!(row_plates(4, 0, &set), vec![Plate { left: 0, right: 1 }]);
}

#[test]
fn row_plates_of_an_empty_layer() {
    let set = cells(&[(0, 0)]);
    assert_eq!(row_plates(0, 0, &set), Vec::<Plate>::new());
    assert_eq!(row_plates(-3, 0, &set), Vec::<Plate>::new());
}

#[test]
fn merge_single_row() {
    let set = cells(&[(0, 0), (1, 0), (2, 0)]);
    assert_eq!(merge_grids(3, 1, &set), vec![rect(0, 2, 0, 0)]);
}

#[test]
fn merge_stacked_identical_rows() {
    let set = cells(&[
        (0, 0), (1, 0), (2, 0),
        (0, 1), (1, 1), (2, 1),
        (0, 2), (1, 2), (2, 2),
    ]);
    assert_eq!(merge_grids(3, 3, &set), vec![rect(0, 2, 0, 2)]);
}

#[test]
fn merge_shape_change_ends_the_rectangle() {
    let set = cells(&[(0, 0), (1, 0), (2, 0), (0, 1), (1, 1)]);
    assert_eq!(
        sorted(merge_grids(3, 2, &set)),
        vec![rect(0, 2, 0, 0), rect(0, 1, 1, 1)]
    );
}

#[test]
fn merge_l_shape_is_not_merged_further() {
    // A column of three with a foot: two rectangles, split by rows.
    let set = cells(&[(0, 0), (1, 0), (0, 1), (0, 2)]);
    assert_eq!(
        sorted(merge_grids(2, 3, &set)),
        vec![rect(0, 1, 0, 0), rect(0, 0, 1, 2)]
    );
}

#[test]
fn merge_keeps_adjacent_rectangles_apart() {
    let set = cells(&[(0, 0), (1, 0), (0, 1), (1, 1), (2, 1)]);
    assert_eq!(
        sorted(merge_grids(3, 2, &set)),
        vec![rect(0, 1, 0, 0), rect(0, 2, 1, 1)]
    );
}

#[test]
fn merge_plate_that_recurs_after_a_gap_starts_anew() {
    let set = cells(&[(1, 0), (1, 2), (1, 3)]);
    assert_eq!(
        sorted(merge_grids(3, 4, &set)),
        vec![rect(1, 1, 0, 0), rect(1, 1, 2, 3)]
    );
}

#[test]
fn merge_several_plates_per_row() {
    let set = cells(&[
        (0, 0), (2, 0), (3, 0),
        (0, 1), (2, 1), (3, 1),
        (0, 2), (3, 2),
    ]);
    assert_eq!(
        sorted(merge_grids(4, 3, &set)),
        vec![rect(0, 0, 0, 2), rect(2, 3, 0, 1), rect(3, 3, 2, 2)]
    );
}

#[test]
fn merge_flushes_rectangles_at_the_top_edge() {
    let set = cells(&[(0, 1), (0, 2)]);
    assert_eq!(merge_grids(1, 3, &set), vec![rect(0, 0, 1, 2)]);
}

#[test]
fn merge_empty_inputs() {
    assert_eq!(merge_grids(3, 3, &CellSet::new()), Vec::<Rect>::new());
    let set = cells(&[(0, 0)]);
    assert_eq!(merge_grids(0, 1, &set), Vec::<Rect>::new());
    assert_eq!(merge_grids(1, 0, &set), Vec::<Rect>::new());
    assert_eq!(merge_grids(-1, -1, &set), Vec::<Rect>::new());
}

#[test]
fn merge_ignores_rows_outside_the_layer() {
    let set = cells(&[(0, -1), (0, 0), (0, 1), (0, 2)]);
    assert_eq!(merge_grids(1, 2, &set), vec![rect(0, 0, 0, 1)]);
}

#[test]
fn merge_covers_each_cell_exactly_once() {
    // A pseudo-random fill of a 9 x 7 layer.
    let (width, height) = (9, 7);
    let mut coords = Vec::new();
    let mut state: u32 = 12345;
    for y in 0..height {
        for x in 0..width {
            state = state.wrapping_mul(1103515245).wrapping_add(12345);
            if (state >> 16) % 3 != 0 {
                coords.push((x, y));
            }
        }
    }
    let set = cells(&coords);
    let rects = merge_grids(width, height, &set);
    for r in &rects {
        assert!(0 <= r.left && r.left <= r.right && r.right < width);
        assert!(0 <= r.bottom && r.bottom <= r.top && r.top < height);
    }
    let count = covered(&rects, width, height);
    for y in 0..height {
        for x in 0..width {
            let expected = if set.contains(GridCoords { x, y }) { 1 } else { 0 };
            assert_eq!(count[y as usize][x as usize], expected, "cell ({x}, {y})");
        }
    }
}

#[test]
fn merge_full_layer_is_one_rectangle() {
    let mut coords = Vec::new();
    for y in 0..4 {
        for x in 0..5 {
            coords.push((x, y));
        }
    }
    assert_eq!(merge_grids(5, 4, &cells(&coords)), vec![rect(0, 4, 0, 3)]);
}

#[test]
fn merge_checkerboard_is_one_rectangle_per_cell() {
    let coords = [(0, 0), (2, 0), (1, 1), (0, 2), (2, 2)];
    let rects = sorted(merge_grids(3, 3, &cells(&coords)));
    assert_eq!(
        rects,
        vec![
            rect(0, 0, 0, 0),
            rect(2, 2, 0, 0),
            rect(1, 1, 1, 1),
            rect(0, 0, 2, 2),
            rect(2, 2, 2, 2),
        ]
    );
}

#[test]
fn rect_extent_and_centre() {
    let r = rect(1, 3, 2, 2);
    assert_eq!(r.columns(), 3);
    assert_eq!(r.rows(), 1);
    assert_eq!(r.doubled_center_x(), 5);
    assert_eq!(r.doubled_center_y(), 5);
    let wide = rect(i32::MIN, i32::MAX, i32::MIN, i32::MAX);
    assert_eq!(wide.columns(), 1 << 32);
    assert_eq!(wide.rows(), 1 << 32);
    assert_eq!(wide.doubled_center_x(), 0);
    assert_eq!(rect(i32::MAX, i32::MAX, 0, 0).doubled_center_x(), (1 << 32) - 1);
}

#[test]
fn merge_orders_rectangles_by_top_row_then_left_to_right() {
    let set = cells(&[
        (0, 0), (2, 0), (4, 0),
        (0, 1), (4, 1),
        (0, 2), (2, 2),
    ]);
    assert_eq!(
        merge_grids(5, 3, &set),
        vec![
            rect(2, 2, 0, 0),
            rect(4, 4, 0, 1),
            rect(0, 0, 0, 2),
            rect(2, 2, 2, 2),
        ]
    );
}

#[test]
fn merge_drops_a_run_through_the_column_past_the_layer() {
    // Row 0 runs on through column 2 of a layer of 2 columns; row 1 does not.
    let set = cells(&[(0, 0), (1, 0), (2, 0), (0, 1), (1, 1)]);
    assert_eq!(merge_grids(2, 2, &set), vec![rect(0, 1, 1, 1)]);
}

#[test]
fn plate_map_insert_remove_and_contains() {
    let mut map = PlateMap::new();
    let a = Plate { left: 0, right: 2 };
    let b = Plate { left: 2, right: 0 };
    assert!(!map.contains_key(a));
    assert_eq!(map.remove(a), None);
    map.insert(a, rect(0, 2, 1, 1));
    assert!(map.contains_key(a));
    assert!(!map.contains_key(b));
    map.insert(a, rect(0, 2, 1, 2));
    map.insert(Plate { left: i32::MIN, right: i32::MAX }, rect(i32::MIN, i32::MAX, 0, 0));
    assert!(!map.contains_key(Plate { left: i32::MAX, right: i32::MIN }));
    assert_eq!(map.remove(a), Some(rect(0, 2, 1, 2)));
    assert!(!map.contains_key(a));
    assert_eq!(map.remove(a), None);
    assert!(map.contains_key(Plate { left: i32::MIN, right: i32::MAX }));
}

#[test]
fn merge_wide_row_of_many_plates() {
    // Every other column of 400 is occupied in rows 0 and 1; row 2 is shifted.
    let mut coords = Vec::new();
    for x in 0..400 {
        if x % 2 == 0 {
            coords.push((x, 0));
            coords.push((x, 1));
        } else {
            coords.push((x, 2));
        }
    }
    let rects = merge_grids(400, 3, &cells(&coords));
    assert_eq!(rects.len(), 400);
    for (i, r) in rects.iter().enumerate() {
        let x = if i < 200 { 2 * i as i32 } else { 2 * (i as i32 - 200) + 1 };
        let expected = if i < 200 { rect(x, x, 0, 1) } else { rect(x, x, 2, 2) };
        assert_eq!(*r, expected);
    }
}
