//! Greedy row merge of occupied cells into rectangles.
//!
//! Every row is cut into plates, its maximal horizontal runs of occupied
//! cells. A plate that recurs with the same bounds in consecutive rows grows
//! into one rectangle; the rectangle ends with the row after which the plate
//! does not recur. Nothing else is merged: the result is not a smallest cover.
use vstd::prelude::*;
use crate::tilemap::cover::{
    in_layer, lemma_covered_cell_is_occupied, lemma_merged_rects_do_not_overlap,
    lemma_occupied_cell_is_covered,
};
use crate::tilemap::{CellSet, GridCoords, Plate, PlateMap, Rect};

verus! {

/// Whether the set holds the cell in column `x` of row `y`.
pub open spec fn occupied(cells: Set<GridCoords>, x: int, y: int) -> bool {
    &&& i32::MIN <= x <= i32::MAX
    &&& i32::MIN <= y <= i32::MAX
    &&& cells.contains(GridCoords { x: x as i32, y: y as i32 })
}

/// Whether `plate` is a plate of row `y` in a layer `width` columns wide: a
/// run of occupied cells that starts at column 0 or after a free cell, and
/// ends before a free cell. The cell after the run may be the one just past
/// the layer, so a run that goes on through column `width` is no plate.
pub open spec fn is_plate(width: int, cells: Set<GridCoords>, y: int, plate: Plate) -> bool {
    &&& 0 <= plate.left <= plate.right < width
    &&& forall|x: int| plate.left <= x <= plate.right ==> occupied(cells, x, y)
    &&& (plate.left == 0 || !occupied(cells, plate.left - 1, y))
    &&& !occupied(cells, plate.right + 1, y)
}

/// The columns that a rectangle spans.
pub open spec fn shape_of(rect: Rect) -> Plate {
    Plate { left: rect.left, right: rect.right }
}

/// Whether the merge emits `rect` for a layer of `width` by `height` cells:
/// its columns are a plate of each of its rows, but neither of the row below
/// its bottom nor of the row above its top, as far as the layer has them.
pub open spec fn is_merged_rect(width: int, height: int, cells: Set<GridCoords>, rect: Rect) -> bool {
    &&& 0 <= rect.bottom <= rect.top < height
    &&& forall|y: int| rect.bottom <= y <= rect.top ==> is_plate(width, cells, y, shape_of(rect))
    &&& (rect.bottom == 0 || !is_plate(width, cells, rect.bottom - 1, shape_of(rect)))
    &&& (rect.top + 1 == height || !is_plate(width, cells, rect.top + 1, shape_of(rect)))
}

/// The plates of row `y`, from left to right.
pub fn row_plates(width: i32, y: i32, cells: &CellSet) -> (plates: Vec<Plate>)
    ensures
        forall|plate: Plate|
            #![trigger plates@.contains(plate)]
            #![trigger is_plate(width as int, cells@, y as int, plate)]
            plates@.contains(plate) <==> is_plate(width as int, cells@, y as int, plate),
        forall|i: int, j: int| 0 <= i < j < plates.len() ==> plates[i].right + 1 < plates[j].left,
{
    let mut plates: Vec<Plate> = Vec::new();
    let mut start: Option<i32> = None;
    let mut x: i64 = 0;
    // One column past the layer, so that a plate touching the right edge ends.
    while x <= width as i64
        invariant
            0 <= x,
            x <= width + 1 || width < 0,
            match start {
                Some(s) => {
                    &&& 0 <= s < x
                    &&& forall|c: int| s <= c < x ==> occupied(cells@, c, y as int)
                    &&& (s == 0 || !occupied(cells@, s - 1, y as int))
                },
                None => x == 0 || !occupied(cells@, x - 1, y as int),
            },
            forall|plate: Plate|
                #![trigger plates@.contains(plate)]
                #![trigger is_plate(width as int, cells@, y as int, plate)]
                plates@.contains(plate) <==> is_plate(width as int, cells@, y as int, plate)
                    && plate.right + 1 < x,
            forall|i: int, j: int| 0 <= i < j < plates.len() ==> plates[i].right + 1 < plates[j].left,
            forall|i: int|
                0 <= i < plates.len() ==> plates[i].right + 1 < x && match start {
                    Some(s) => plates[i].right + 1 < s,
                    None => true,
                },
        decreases width + 1 - x,
    {
        let here = cells.contains(GridCoords { x: x as i32, y });
        assert(here == occupied(cells@, x as int, y as int));
        let ghost before = plates@;
        match start {
            Some(s) => {
                if !here {
                    let plate = Plate { left: s, right: (x - 1) as i32 };
                    plates.push(plate);
                    start = None;
                    proof {
                        assert(is_plate(width as int, cells@, y as int, plate));
                        assert forall|other: Plate|
                            #![trigger plates@.contains(other)]
                            #![trigger is_plate(width as int, cells@, y as int, other)]
                            plates@.contains(other) <==> is_plate(
                                width as int,
                                cells@,
                                y as int,
                                other,
                            ) && other.right + 1 < x + 1 by {
                            vstd::seq_lib::lemma_seq_contains_after_push(before, plate, other);
                            if is_plate(width as int, cells@, y as int, other) && other.right == x
                                - 1 {
                                if other.left < s {
                                    assert(occupied(cells@, s - 1, y as int));
                                }
                                if other.left > s {
                                    assert(occupied(cells@, other.left - 1, y as int));
                                }
                                assert(other == plate);
                            }
                        }
                    }
                } else {
                    proof {
                        assert forall|other: Plate|
                            is_plate(width as int, cells@, y as int, other) implies other.right + 1
                            != x by {
                        }
                    }
                }
            },
            None => {
                if here {
                    start = Some(x as i32);
                }
                proof {
                    assert forall|other: Plate|
                        is_plate(width as int, cells@, y as int, other) implies other.right + 1
                        != x by {
                        if is_plate(width as int, cells@, y as int, other) && other.right + 1 == x {
                            assert(occupied(cells@, other.right as int, y as int));
                        }
                    }
                }
            },
        }
        x = x + 1;
    }
    proof {
        assert forall|plate: Plate|
            is_plate(width as int, cells@, y as int, plate) implies plate.right + 1 < x by {
        }
    }
    plates
}

/// The lowest row of the stack of equal plates that ends in row `y`.
pub open spec fn run_bottom(width: int, cells: Set<GridCoords>, plate: Plate, y: int) -> int
    decreases y,
{
    if y <= 0 || !is_plate(width, cells, y - 1, plate) {
        y
    } else {
        run_bottom(width, cells, plate, y - 1)
    }
}

/// Whether `rect` is what the merge has built of a rectangle once row `y` is
/// done: it reaches from the bottom of its stack of plates up to row `y`.
pub open spec fn is_growing_rect(width: int, cells: Set<GridCoords>, y: int, rect: Rect) -> bool {
    &&& 0 <= y == rect.top
    &&& is_plate(width, cells, y, shape_of(rect))
    &&& rect.bottom == run_bottom(width, cells, shape_of(rect), y)
}

/// The stack below a plate of row `y` is made of that plate, starts at row 0
/// or above a row without it, and does not leave the layer.
pub proof fn lemma_run_bottom_stack(width: int, cells: Set<GridCoords>, plate: Plate, y: int)
    requires
        0 <= y,
        is_plate(width, cells, y, plate),
    ensures
        0 <= run_bottom(width, cells, plate, y) <= y,
        forall|row: int|
            run_bottom(width, cells, plate, y) <= row <= y ==> is_plate(width, cells, row, plate),
        run_bottom(width, cells, plate, y) == 0 || !is_plate(
            width,
            cells,
            run_bottom(width, cells, plate, y) - 1,
            plate,
        ),
    decreases y,
{
    if y > 0 && is_plate(width, cells, y - 1, plate) {
        lemma_run_bottom_stack(width, cells, plate, y - 1);
    }
}

/// A stack of equal plates from `bottom` to `y` that cannot go lower starts
/// at `run_bottom`.
pub proof fn lemma_run_bottom_unique(
    width: int,
    cells: Set<GridCoords>,
    plate: Plate,
    y: int,
    bottom: int,
)
    requires
        0 <= bottom <= y,
        forall|row: int| bottom <= row <= y ==> is_plate(width, cells, row, plate),
        bottom == 0 || !is_plate(width, cells, bottom - 1, plate),
    ensures
        bottom == run_bottom(width, cells, plate, y),
    decreases y,
{
    if bottom < y {
        assert(is_plate(width, cells, y - 1, plate));
        lemma_run_bottom_unique(width, cells, plate, y - 1, bottom);
    }
}

/// A rectangle is emitted exactly if it was growing up to its top row and
/// its plate does not recur in the row above, or no row is above.
pub proof fn lemma_merged_rect_is_ended_growth(
    width: int,
    height: int,
    cells: Set<GridCoords>,
    rect: Rect,
)
    ensures
        is_merged_rect(width, height, cells, rect) <==> {
            &&& rect.top < height
            &&& is_growing_rect(width, cells, rect.top as int, rect)
            &&& (rect.top + 1 == height || !is_plate(width, cells, rect.top + 1, shape_of(rect)))
        },
{
    if is_merged_rect(width, height, cells, rect) {
        lemma_run_bottom_unique(width, cells, shape_of(rect), rect.top as int, rect.bottom as int);
    }
    if rect.top < height && is_growing_rect(width, cells, rect.top as int, rect) {
        lemma_run_bottom_stack(width, cells, shape_of(rect), rect.top as int);
    }
}

/// What a plate of row `y` stands for once that row is done.
pub open spec fn grown(width: int, cells: Set<GridCoords>, y: int, plate: Plate) -> Rect {
    Rect {
        left: plate.left,
        right: plate.right,
        top: y as i32,
        bottom: run_bottom(width, cells, plate, y) as i32,
    }
}

/// Whether the map holds the rectangles in progress once row `y` is done:
/// under each plate of that row what the plate stands for, and nothing
/// else.
pub open spec fn holds_row(map: Map<Plate, Rect>, width: int, cells: Set<GridCoords>, y: int) -> bool {
    forall|plate: Plate|
        #![trigger map.contains_key(plate)]
        #![trigger is_plate(width, cells, y, plate)]
        (map.contains_key(plate) <==> 0 <= y && is_plate(width, cells, y, plate)) && (
        map.contains_key(plate) ==> map[plate] == grown(width, cells, y, plate))
}

/// Whether `plate` is among the first `j` of `plates`.
spec fn seen(plates: Seq<Plate>, j: int, plate: Plate) -> bool {
    exists|i: int| 0 <= i < j && plates[i] == plate
}

/// The rectangles that reach row `y`, as a list from left to right and as a
/// map: one per plate of the row, grown from the rectangle under the same
/// plate in the row below, or begun here. Each rectangle that grows is taken
/// out of `previous`; what stays there has ended.
fn grow_row(
    previous: &mut PlateMap,
    plates: &Vec<Plate>,
    y: i32,
    Ghost(width): Ghost<int>,
    Ghost(cells): Ghost<Set<GridCoords>>,
) -> (reached: (Vec<Rect>, PlateMap))
    requires
        0 <= y,
        holds_row(old(previous)@, width, cells, y - 1),
        forall|plate: Plate|
            #![trigger plates@.contains(plate)]
            #![trigger is_plate(width, cells, y as int, plate)]
            plates@.contains(plate) <==> is_plate(width, cells, y as int, plate),
        forall|i: int, j: int| 0 <= i < j < plates.len() ==> plates[i].right + 1 < plates[j].left,
    ensures
        forall|rect: Rect|
            #![trigger reached.0@.contains(rect)]
            #![trigger is_growing_rect(width, cells, y as int, rect)]
            reached.0@.contains(rect) <==> is_growing_rect(width, cells, y as int, rect),
        forall|i: int, j: int|
            0 <= i < j < reached.0.len() ==> reached.0[i].right + 1 < reached.0[j].left,
        holds_row(reached.1@, width, cells, y as int),
        forall|plate: Plate|
            #![trigger final(previous)@.contains_key(plate)]
            final(previous)@.contains_key(plate) <==> old(previous)@.contains_key(plate)
                && !plates@.contains(plate),
{
    let mut next: Vec<Rect> = Vec::new();
    let mut current = PlateMap::new();
    let mut j: usize = 0;
    while j < plates.len()
        invariant
            0 <= y,
            j <= plates.len(),
            next.len() == j,
            forall|i: int| 0 <= i < j ==> next[i] == grown(width, cells, y as int, plates[i]),
            holds_row(old(previous)@, width, cells, y - 1),
            forall|plate: Plate|
                #![trigger previous@.contains_key(plate)]
                (previous@.contains_key(plate) <==> old(previous)@.contains_key(plate) && !seen(
                    plates@,
                    j as int,
                    plate,
                )) && (previous@.contains_key(plate) ==> previous@[plate] == old(
                    previous,
                )@[plate]),
            forall|plate: Plate|
                #![trigger current@.contains_key(plate)]
                (current@.contains_key(plate) <==> seen(plates@, j as int, plate)) && (
                current@.contains_key(plate) ==> current@[plate] == grown(
                    width,
                    cells,
                    y as int,
                    plate,
                )),
            forall|plate: Plate|
                #![trigger plates@.contains(plate)]
                #![trigger is_plate(width, cells, y as int, plate)]
                plates@.contains(plate) <==> is_plate(width, cells, y as int, plate),
            forall|i: int, j: int|
                0 <= i < j < plates.len() ==> plates[i].right + 1 < plates[j].left,
        decreases plates.len() - j,
    {
        let plate = plates[j];
        let ghost before = previous@;
        let ghost reached_before = current@;
        proof {
            assert(plates@.contains(plate));
            assert(!seen(plates@, j as int, plate)) by {
                if seen(plates@, j as int, plate) {
                    let i = choose|i: int| 0 <= i < j && plates[i] == plate;
                    assert(plates[i].right + 1 < plates[j as int].left);
                }
            }
        }
        let rect = match previous.remove(plate) {
            Some(below) => {
                assert(old(previous)@.contains_key(plate));
                assert(below == grown(width, cells, y - 1, plate));
                Rect { top: y, ..below }
            },
            None => {
                assert(!old(previous)@.contains_key(plate));
                assert(!(0 <= y - 1 && is_plate(width, cells, y - 1, plate)));
                Rect { left: plate.left, right: plate.right, top: y, bottom: y }
            },
        };
        proof {
            lemma_run_bottom_stack(width, cells, plate, y as int);
        }
        assert(rect == grown(width, cells, y as int, plate));
        next.push(rect);
        current.insert(plate, rect);
        proof {
            assert forall|other: Plate|
                seen(plates@, j + 1, other) <==> seen(plates@, j as int, other) || other
                    == plate by {
                if seen(plates@, j + 1, other) {
                    let i = choose|i: int| 0 <= i < j + 1 && plates[i] == other;
                    if i < j {
                        assert(seen(plates@, j as int, other));
                    }
                }
                if seen(plates@, j as int, other) {
                    let i = choose|i: int| 0 <= i < j && plates[i] == other;
                    assert(0 <= i < j + 1 && plates[i] == other);
                }
                if other == plate {
                    assert(0 <= j < j + 1 && plates[j as int] == other);
                }
            }
            assert forall|other: Plate|
                #![trigger previous@.contains_key(other)]
                (previous@.contains_key(other) <==> old(previous)@.contains_key(other) && !seen(
                    plates@,
                    j + 1,
                    other,
                )) && (previous@.contains_key(other) ==> previous@[other] == old(
                    previous,
                )@[other]) by {
                assert(before.contains_key(other) <==> old(previous)@.contains_key(other)
                    && !seen(plates@, j as int, other));
            }
            assert forall|other: Plate|
                #![trigger current@.contains_key(other)]
                (current@.contains_key(other) <==> seen(plates@, j + 1, other)) && (
                current@.contains_key(other) ==> current@[other] == grown(
                    width,
                    cells,
                    y as int,
                    other,
                )) by {
                assert(reached_before.contains_key(other) <==> seen(plates@, j as int, other));
            }
        }
        j = j + 1;
    }
    proof {
        assert forall|plate: Plate| seen(plates@, plates.len() as int, plate) <==> plates@.contains(
            plate,
        ) by {
            if seen(plates@, plates.len() as int, plate) {
                let i = choose|i: int| 0 <= i < plates.len() && plates[i] == plate;
                assert(plates@[i] == plate);
            }
            if plates@.contains(plate) {
                let i = plates@.lemma_contains_to_index(plate);
                assert(0 <= i < plates.len() && plates[i] == plate);
            }
        }
        assert forall|rect: Rect|
            #![trigger next@.contains(rect)]
            #![trigger is_growing_rect(width, cells, y as int, rect)]
            next@.contains(rect) <==> is_growing_rect(width, cells, y as int, rect) by {
            if next@.contains(rect) {
                let i = next@.lemma_contains_to_index(rect);
                assert(plates@.contains(plates[i]));
                lemma_run_bottom_stack(width, cells, plates[i], y as int);
            }
            if is_growing_rect(width, cells, y as int, rect) {
                assert(plates@.contains(shape_of(rect)));
                let i = plates@.lemma_contains_to_index(shape_of(rect));
                assert(next[i] == rect);
            }
        }
        assert forall|i: int, j: int| 0 <= i < j < next.len() implies next[i].right + 1
            < next[j].left by {
            assert(plates[i].right + 1 < plates[j].left);
        }
        assert forall|plate: Plate|
            #![trigger current@.contains_key(plate)]
            #![trigger is_plate(width, cells, y as int, plate)]
            (current@.contains_key(plate) <==> 0 <= y && is_plate(width, cells, y as int, plate))
                && (current@.contains_key(plate) ==> current@[plate] == grown(
                width,
                cells,
                y as int,
                plate,
            )) by {
            assert(current@.contains_key(plate) <==> seen(plates@, plates.len() as int, plate));
            assert(plates@.contains(plate) <==> is_plate(width, cells, y as int, plate));
        }
        assert forall|plate: Plate|
            #![trigger previous@.contains_key(plate)]
            previous@.contains_key(plate) <==> old(previous)@.contains_key(plate)
                && !plates@.contains(plate) by {
            assert(previous@.contains_key(plate) <==> old(previous)@.contains_key(plate) && !seen(
                plates@,
                plates.len() as int,
                plate,
            ));
        }
    }
    (next, current)
}

/// Whether the rectangles stand in the order in which the merge ends them:
/// by their top row, and from left to right where they end in one row.
pub open spec fn in_merge_order(rects: Seq<Rect>) -> bool {
    forall|i: int, j: int|
        0 <= i < j < rects.len() ==> rects[i].top < rects[j].top || (rects[i].top == rects[j].top
            && rects[i].right + 1 < rects[j].left)
}

/// Appends to `rects` the members of `growing` whose columns are still a key
/// of `previous`, in their order.
fn retire_row(rects: &mut Vec<Rect>, growing: &Vec<Rect>, previous: &PlateMap)
    requires
        in_merge_order(old(rects)@),
        forall|i: int, k: int|
            0 <= i < old(rects).len() && 0 <= k < growing.len() ==> old(rects)[i].top
                < growing[k].top,
        forall|k: int, m: int|
            0 <= k < m < growing.len() ==> growing[k].top == growing[m].top && growing[k].right
                + 1 < growing[m].left,
    ensures
        forall|rect: Rect|
            #![trigger final(rects)@.contains(rect)]
            final(rects)@.contains(rect) <==> old(rects)@.contains(rect) || (growing@.contains(rect)
                && previous@.contains_key(shape_of(rect))),
        in_merge_order(final(rects)@),
{
    let mut k: usize = 0;
    while k < growing.len()
        invariant
            k <= growing.len(),
            forall|i: int, k: int|
                0 <= i < old(rects).len() && 0 <= k < growing.len() ==> old(rects)[i].top
                    < growing[k].top,
            forall|k: int, m: int|
                0 <= k < m < growing.len() ==> growing[k].top == growing[m].top
                    && growing[k].right + 1 < growing[m].left,
            in_merge_order(rects@),
            old(rects).len() <= rects.len(),
            forall|i: int| 0 <= i < old(rects).len() ==> rects[i] == old(rects)[i],
            forall|i: int, m: int|
                old(rects).len() <= i < rects.len() && k <= m < growing.len() ==> rects[i].top
                    == growing[m].top && rects[i].right + 1 < growing[m].left,
            forall|rect: Rect|
                #![trigger rects@.contains(rect)]
                rects@.contains(rect) <==> old(rects)@.contains(rect) || (exists|i: int|
                    0 <= i < k && growing[i] == rect && previous@.contains_key(shape_of(rect))),
        decreases growing.len() - k,
    {
        let rect = growing[k];
        let ghost before = rects@;
        if previous.contains_key(Plate { left: rect.left, right: rect.right }) {
            rects.push(rect);
            proof {
                assert forall|other: Rect| #![trigger rects@.contains(other)]
                    rects@.contains(other) <==> old(rects)@.contains(other) || (exists|i: int|
                        0 <= i < k + 1 && growing[i] == other && previous@.contains_key(
                            shape_of(other),
                        )) by {
                    vstd::seq_lib::lemma_seq_contains_after_push(before, rect, other);
                }
            }
        }
        k = k + 1;
    }
}

/// The rectangles that cover the occupied cells of a layer of `width` by
/// `height` cells: each rectangle that the row merge yields, once, in the
/// order in which the merge ends them. Where the cells all lie inside the
/// layer, the rectangles cover each of them and nothing else; in any case no
/// two of them share a cell.
pub fn merge_grids(width: i32, height: i32, grid_coords: &CellSet) -> (rects: Vec<Rect>)
    ensures
        forall|rect: Rect|
            #![trigger rects@.contains(rect)]
            #![trigger is_merged_rect(width as int, height as int, grid_coords@, rect)]
            rects@.contains(rect) <==> is_merged_rect(
                width as int,
                height as int,
                grid_coords@,
                rect,
            ),
        in_merge_order(rects@),
        rects@.no_duplicates(),
        in_layer(width as int, height as int, grid_coords@) ==> forall|cell: GridCoords|
            grid_coords@.contains(cell) <==> exists|i: int|
                0 <= i < rects.len() && #[trigger] rects[i].covers(cell),
        forall|i: int, j: int, cell: GridCoords|
            0 <= i < j < rects.len() ==> !(#[trigger] rects[i].covers(cell)
                && #[trigger] rects[j].covers(cell)),
{
    let mut rects: Vec<Rect> = Vec::new();
    // The rectangles in progress: from left to right, and by their columns.
    let mut growing: Vec<Rect> = Vec::new();
    let mut previous = PlateMap::new();
    let mut y: i32 = 0;
    while y < height
        invariant
            0 <= y,
            y <= height || y == 0,
            holds_row(previous@, width as int, grid_coords@, y - 1),
            forall|rect: Rect|
                #![trigger growing@.contains(rect)]
                #![trigger is_growing_rect(width as int, grid_coords@, y - 1, rect)]
                growing@.contains(rect) <==> is_growing_rect(
                    width as int,
                    grid_coords@,
                    y - 1,
                    rect,
                ),
            forall|i: int, j: int|
                0 <= i < j < growing.len() ==> growing[i].right + 1 < growing[j].left,
            forall|rect: Rect|
                #![trigger rects@.contains(rect)]
                #![trigger is_merged_rect(width as int, height as int, grid_coords@, rect)]
                rects@.contains(rect) <==> is_merged_rect(
                    width as int,
                    height as int,
                    grid_coords@,
                    rect,
                ) && rect.top + 1 < y,
            in_merge_order(rects@),
        decreases height - y,
    {
        let plates = row_plates(width, y, grid_coords);
        let ghost in_progress = previous@;
        let (next, current) = grow_row(
            &mut previous,
            &plates,
            y,
            Ghost(width as int),
            Ghost(grid_coords@),
        );
        let ghost ended = rects@;
        proof {
            lemma_rows_apart(ended, growing@, y - 1);
        }
        // What was not taken out of the map has ended with the row below.
        retire_row(&mut rects, &growing, &previous);
        proof {
            assert forall|rect: Rect|
                #![trigger rects@.contains(rect)]
                #![trigger is_merged_rect(width as int, height as int, grid_coords@, rect)]
                rects@.contains(rect) <==> is_merged_rect(
                    width as int,
                    height as int,
                    grid_coords@,
                    rect,
                ) && rect.top + 1 < y + 1 by {
                lemma_merged_rect_is_ended_growth(width as int, height as int, grid_coords@, rect);
                let ends_here = growing@.contains(rect) && previous@.contains_key(shape_of(rect));
                assert(rects@.contains(rect) <==> ended.contains(rect) || ends_here);
                assert(previous@.contains_key(shape_of(rect)) <==> in_progress.contains_key(
                    shape_of(rect),
                ) && !plates@.contains(shape_of(rect)));
                if rect.top + 1 == y {
                    assert(in_progress.contains_key(shape_of(rect)) <==> 0 <= y - 1 && is_plate(
                        width as int,
                        grid_coords@,
                        y - 1,
                        shape_of(rect),
                    ));
                    assert(growing@.contains(rect) <==> is_growing_rect(
                        width as int,
                        grid_coords@,
                        y - 1,
                        rect,
                    ));
                    assert(plates@.contains(shape_of(rect)) <==> is_plate(
                        width as int,
                        grid_coords@,
                        y as int,
                        shape_of(rect),
                    ));
                } else {
                    assert(!is_growing_rect(width as int, grid_coords@, y - 1, rect));
                    assert(!growing@.contains(rect));
                }
            }
        }
        growing = next;
        previous = current;
        y = y + 1;
    }
    // The row past the last one is empty: whatever still grows ends here.
    let ghost ended = rects@;
    let ghost last = growing@;
    rects.append(&mut growing);
    proof {
        lemma_rows_apart(ended, last, y - 1);
        assert(rects@ == ended + last);
        assert forall|rect: Rect|
            #![trigger rects@.contains(rect)]
            #![trigger is_merged_rect(width as int, height as int, grid_coords@, rect)]
            rects@.contains(rect) <==> is_merged_rect(
                width as int,
                height as int,
                grid_coords@,
                rect,
            ) by {
            lemma_merged_rect_is_ended_growth(width as int, height as int, grid_coords@, rect);
            vstd::seq_lib::lemma_seq_concat_contains_all_elements(ended, last, rect);
            assert(last.contains(rect) <==> is_growing_rect(
                width as int,
                grid_coords@,
                y - 1,
                rect,
            ));
            assert(ended.contains(rect) <==> is_merged_rect(
                width as int,
                height as int,
                grid_coords@,
                rect,
            ) && rect.top + 1 < y);
        }
        lemma_merge_covers(width as int, height as int, grid_coords@, rects@);
    }
    rects
}

/// Rectangles that ended below row `y` and rectangles whose top is row `y`:
/// each of the first lies lower than each of the second, and the second all
/// have one top.
proof fn lemma_rows_apart(ended: Seq<Rect>, growing: Seq<Rect>, y: int)
    requires
        forall|rect: Rect| #[trigger] ended.contains(rect) ==> rect.top < y,
        forall|rect: Rect| #[trigger] growing.contains(rect) ==> rect.top == y,
    ensures
        forall|i: int, k: int|
            0 <= i < ended.len() && 0 <= k < growing.len() ==> ended[i].top < growing[k].top,
        forall|k: int, m: int|
            0 <= k < growing.len() && 0 <= m < growing.len() ==> growing[k].top == growing[m].top,
        forall|k: int| 0 <= k < growing.len() ==> (#[trigger] growing[k]).top == y,
        forall|i: int| 0 <= i < ended.len() ==> (#[trigger] ended[i]).top < y,
{
    assert forall|k: int| 0 <= k < growing.len() implies (#[trigger] growing[k]).top == y by {
        assert(growing.contains(growing[k]));
    }
    assert forall|i: int| 0 <= i < ended.len() implies (#[trigger] ended[i]).top < y by {
        assert(ended.contains(ended[i]));
    }
}

/// What a duplicate-free list of exactly the merged rectangles covers.
proof fn lemma_merge_covers(width: int, height: int, cells: Set<GridCoords>, rects: Seq<Rect>)
    requires
        forall|rect: Rect|
            #![trigger rects.contains(rect)]
            rects.contains(rect) <==> is_merged_rect(width, height, cells, rect),
        in_merge_order(rects),
    ensures
        rects.no_duplicates(),
        in_layer(width, height, cells) ==> forall|cell: GridCoords|
            cells.contains(cell) <==> exists|i: int|
                0 <= i < rects.len() && #[trigger] rects[i].covers(cell),
        forall|i: int, j: int, cell: GridCoords|
            0 <= i < j < rects.len() ==> !(#[trigger] rects[i].covers(cell)
                && #[trigger] rects[j].covers(cell)),
{
    assert forall|i: int, j: int, cell: GridCoords| 0 <= i < j < rects.len() implies !(
    #[trigger] rects[i].covers(cell) && #[trigger] rects[j].covers(cell)) by {
        if rects[i].covers(cell) && rects[j].covers(cell) {
            assert(rects.contains(rects[i]));
            assert(rects.contains(rects[j]));
            lemma_merged_rects_do_not_overlap(width, height, cells, rects[i], rects[j], cell);
        }
    }
    assert forall|i: int, j: int| 0 <= i < j < rects.len() implies rects[i] != rects[j] by {
        assert(rects.contains(rects[i]));
        assert(is_plate(width, cells, rects[i].top as int, shape_of(rects[i])));
    }
    if in_layer(width, height, cells) {
        assert forall|cell: GridCoords|
            cells.contains(cell) <==> exists|i: int|
                0 <= i < rects.len() && #[trigger] rects[i].covers(cell) by {
            if cells.contains(cell) {
                let rect = lemma_occupied_cell_is_covered(width, height, cells, cell);
                assert(rects.contains(rect));
                let i = rects.lemma_contains_to_index(rect);
                assert(rects[i].covers(cell));
            }
            if exists|i: int| 0 <= i < rects.len() && #[trigger] rects[i].covers(cell) {
                let i = choose|i: int| 0 <= i < rects.len() && #[trigger] rects[i].covers(cell);
                assert(rects.contains(rects[i]));
                lemma_covered_cell_is_occupied(width, height, cells, rects[i], cell);
            }
        }
    }
}

} // verus!
