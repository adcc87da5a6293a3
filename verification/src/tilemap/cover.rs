//! What the merged rectangles cover: each occupied cell of the layer, once.
use vstd::prelude::*;
use crate::tilemap::{GridCoords, Plate, Rect};
use crate::tilemap::merge::{
    is_merged_rect, is_plate, lemma_run_bottom_stack, occupied, run_bottom, shape_of,
};

verus! {

/// Whether every cell of the set lies inside a layer of `width` by `height`
/// cells.
pub open spec fn in_layer(width: int, height: int, cells: Set<GridCoords>) -> bool {
    forall|cell: GridCoords|
        cells.contains(cell) ==> 0 <= cell.x < width && 0 <= cell.y < height
}

/// The first column of the run of occupied cells that reaches column `x`.
spec fn run_left(cells: Set<GridCoords>, y: int, x: int) -> int
    decreases x,
{
    if x <= 0 || !occupied(cells, x - 1, y) {
        x
    } else {
        run_left(cells, y, x - 1)
    }
}

/// The last column of the run of occupied cells that starts in column `x`.
spec fn run_right(width: int, cells: Set<GridCoords>, y: int, x: int) -> int
    decreases width - x,
{
    if x + 1 >= width || !occupied(cells, x + 1, y) {
        x
    } else {
        run_right(width, cells, y, x + 1)
    }
}

/// The highest row of the stack of equal plates that starts in row `y`.
spec fn run_top(width: int, height: int, cells: Set<GridCoords>, plate: Plate, y: int) -> int
    decreases height - y,
{
    if y + 1 >= height || !is_plate(width, cells, y + 1, plate) {
        y
    } else {
        run_top(width, height, cells, plate, y + 1)
    }
}

proof fn lemma_run_left(cells: Set<GridCoords>, y: int, x: int)
    requires
        0 <= x,
        occupied(cells, x, y),
    ensures
        0 <= run_left(cells, y, x) <= x,
        forall|c: int| run_left(cells, y, x) <= c <= x ==> occupied(cells, c, y),
        run_left(cells, y, x) == 0 || !occupied(cells, run_left(cells, y, x) - 1, y),
    decreases x,
{
    if x > 0 && occupied(cells, x - 1, y) {
        lemma_run_left(cells, y, x - 1);
    }
}

proof fn lemma_run_right(width: int, cells: Set<GridCoords>, y: int, x: int)
    requires
        x < width,
        occupied(cells, x, y),
    ensures
        x <= run_right(width, cells, y, x) < width,
        forall|c: int| x <= c <= run_right(width, cells, y, x) ==> occupied(cells, c, y),
        run_right(width, cells, y, x) + 1 == width || !occupied(
            cells,
            run_right(width, cells, y, x) + 1,
            y,
        ),
    decreases width - x,
{
    if x + 1 < width && occupied(cells, x + 1, y) {
        lemma_run_right(width, cells, y, x + 1);
    }
}

proof fn lemma_run_top(width: int, height: int, cells: Set<GridCoords>, plate: Plate, y: int)
    requires
        y < height,
        is_plate(width, cells, y, plate),
    ensures
        y <= run_top(width, height, cells, plate, y) < height,
        forall|row: int|
            y <= row <= run_top(width, height, cells, plate, y) ==> is_plate(
                width,
                cells,
                row,
                plate,
            ),
        run_top(width, height, cells, plate, y) + 1 == height || !is_plate(
            width,
            cells,
            run_top(width, height, cells, plate, y) + 1,
            plate,
        ),
    decreases height - y,
{
    if y + 1 < height && is_plate(width, cells, y + 1, plate) {
        lemma_run_top(width, height, cells, plate, y + 1);
    }
}

/// A merged rectangle lies inside the layer.
pub proof fn lemma_merged_rect_is_in_layer(
    width: int,
    height: int,
    cells: Set<GridCoords>,
    rect: Rect,
)
    requires
        is_merged_rect(width, height, cells, rect),
    ensures
        0 <= rect.left <= rect.right < width,
        0 <= rect.bottom <= rect.top < height,
{
    assert(is_plate(width, cells, rect.top as int, shape_of(rect)));
}

/// Every cell that a merged rectangle covers is occupied.
pub proof fn lemma_covered_cell_is_occupied(
    width: int,
    height: int,
    cells: Set<GridCoords>,
    rect: Rect,
    cell: GridCoords,
)
    requires
        is_merged_rect(width, height, cells, rect),
        rect.covers(cell),
    ensures
        cells.contains(cell),
{
    assert(is_plate(width, cells, cell.y as int, shape_of(rect)));
    assert(occupied(cells, cell.x as int, cell.y as int));
}

/// Every occupied cell of a set that lies inside the layer is covered by a
/// merged rectangle.
pub proof fn lemma_occupied_cell_is_covered(
    width: int,
    height: int,
    cells: Set<GridCoords>,
    cell: GridCoords,
) -> (rect: Rect)
    requires
        in_layer(width, height, cells),
        cells.contains(cell),
    ensures
        is_merged_rect(width, height, cells, rect),
        rect.covers(cell),
{
    let x = cell.x as int;
    let y = cell.y as int;
    assert(occupied(cells, x, y));
    lemma_run_left(cells, y, x);
    lemma_run_right(width, cells, y, x);
    let left = run_left(cells, y, x);
    let right = run_right(width, cells, y, x);
    assert(occupied(cells, right, y));
    let plate = Plate { left: left as i32, right: right as i32 };
    assert(!occupied(cells, right + 1, y)) by {
        if occupied(cells, right + 1, y) {
            assert(cells.contains(GridCoords { x: (right + 1) as i32, y: y as i32 }));
        }
    }
    assert(is_plate(width, cells, y, plate));
    lemma_run_bottom_stack(width, cells, plate, y);
    lemma_run_top(width, height, cells, plate, y);
    let bottom = run_bottom(width, cells, plate, y);
    let top = run_top(width, height, cells, plate, y);
    assert(is_plate(width, cells, top, plate));
    assert(occupied(cells, left, top));
    let rect = Rect { left: plate.left, right: plate.right, top: top as i32, bottom: bottom as i32 };
    assert(shape_of(rect) == plate);
    rect
}

/// Two merged rectangles that cover a common cell are one rectangle.
pub proof fn lemma_merged_rects_do_not_overlap(
    width: int,
    height: int,
    cells: Set<GridCoords>,
    first: Rect,
    second: Rect,
    cell: GridCoords,
)
    requires
        is_merged_rect(width, height, cells, first),
        is_merged_rect(width, height, cells, second),
        first.covers(cell),
        second.covers(cell),
    ensures
        first == second,
{
    let y = cell.y as int;
    let a = shape_of(first);
    let b = shape_of(second);
    assert(is_plate(width, cells, y, a));
    assert(is_plate(width, cells, y, b));
    // Two plates of one row that share a column are one plate.
    if a.left < b.left {
        assert(occupied(cells, b.left - 1, y));
    }
    if b.left < a.left {
        assert(occupied(cells, a.left - 1, y));
    }
    if a.right < b.right {
        assert(occupied(cells, a.right + 1, y));
    }
    if b.right < a.right {
        assert(occupied(cells, b.right + 1, y));
    }
    assert(a == b);
    // Two stacks of one plate that share a row are one stack.
    if first.bottom < second.bottom {
        assert(is_plate(width, cells, second.bottom - 1, a));
    }
    if second.bottom < first.bottom {
        assert(is_plate(width, cells, first.bottom - 1, a));
    }
    if first.top < second.top {
        assert(is_plate(width, cells, first.top + 1, a));
    }
    if second.top < first.top {
        assert(is_plate(width, cells, second.top + 1, a));
    }
}

/// The merged rectangles of a set inside the layer cover exactly the
/// occupied cells, and no cell twice.
pub proof fn lemma_merged_rects_partition_cells(width: int, height: int, cells: Set<GridCoords>)
    requires
        in_layer(width, height, cells),
    ensures
        forall|cell: GridCoords|
            cells.contains(cell) <==> exists|rect: Rect|
                is_merged_rect(width, height, cells, rect) && #[trigger] rect.covers(cell),
        forall|first: Rect, second: Rect, cell: GridCoords|
            is_merged_rect(width, height, cells, first) && is_merged_rect(
                width,
                height,
                cells,
                second,
            ) && #[trigger] first.covers(cell) && #[trigger] second.covers(cell) ==> first
                == second,
{
    assert forall|cell: GridCoords|
        cells.contains(cell) <==> exists|rect: Rect|
            is_merged_rect(width, height, cells, rect) && #[trigger] rect.covers(cell) by {
        if cells.contains(cell) {
            let rect = lemma_occupied_cell_is_covered(width, height, cells, cell);
            assert(is_merged_rect(width, height, cells, rect) && rect.covers(cell));
        }
        if exists|rect: Rect|
            is_merged_rect(width, height, cells, rect) && #[trigger] rect.covers(cell) {
            let rect = choose|rect: Rect|
                is_merged_rect(width, height, cells, rect) && #[trigger] rect.covers(cell);
            lemma_covered_cell_is_occupied(width, height, cells, rect, cell);
        }
    }
    assert forall|first: Rect, second: Rect, cell: GridCoords|
        is_merged_rect(width, height, cells, first) && is_merged_rect(
            width,
            height,
            cells,
            second,
        ) && #[trigger] first.covers(cell) && #[trigger] second.covers(cell) implies first
        == second by {
        lemma_merged_rects_do_not_overlap(width, height, cells, first, second, cell);
    }
}

} // verus!
