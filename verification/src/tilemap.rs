//! Cells of a tile layer and the rectangles that cover them.
use std::collections::{HashMap, HashSet};
use vstd::prelude::*;

pub mod cover;
pub mod merge;

verus! {

/// A cell of a layer, by column and row.
#[derive(Clone, Copy, Debug, PartialEq, Eq, Structural, Hash, Default)]
pub struct GridCoords {
    pub x: i32,
    pub y: i32,
}

/// A horizontal run of cells in one row, by its first and last column.
#[derive(Clone, Copy, Debug, PartialEq, Eq, Structural, Hash, Default)]
pub struct Plate {
    pub left: i32,
    pub right: i32,
}

/// An axis-aligned rectangle of cells; all four bounds are inclusive.
#[derive(Clone, Copy, Debug, PartialEq, Eq, Structural, Hash, Default)]
pub struct Rect {
    pub left: i32,
    pub right: i32,
    pub top: i32,
    pub bottom: i32,
}

impl Rect {
    /// Whether the cell lies inside the rectangle.
    pub open spec fn covers(self, cell: GridCoords) -> bool {
        self.left <= cell.x <= self.right && self.bottom <= cell.y <= self.top
    }

    /// Whether the cell lies inside the rectangle.
    pub fn contains(&self, cell: GridCoords) -> (inside: bool)
        ensures
            inside == self.covers(cell),
    {
        self.left <= cell.x && cell.x <= self.right && self.bottom <= cell.y && cell.y <= self.top
    }

    /// The number of columns that the rectangle spans.
    pub fn columns(&self) -> (columns: i64)
        ensures
            columns == self.right - self.left + 1,
    {
        self.right as i64 - self.left as i64 + 1
    }

    /// The number of rows that the rectangle spans.
    pub fn rows(&self) -> (rows: i64)
        ensures
            rows == self.top - self.bottom + 1,
    {
        self.top as i64 - self.bottom as i64 + 1
    }

    /// Twice the horizontal distance, in cells, from the left edge of column 0
    /// to the centre of the rectangle.
    pub fn doubled_center_x(&self) -> (doubled: i64)
        ensures
            doubled == self.left + self.right + 1,
    {
        self.left as i64 + self.right as i64 + 1
    }

    /// Twice the vertical distance, in cells, from the lower edge of row 0 to
    /// the centre of the rectangle.
    pub fn doubled_center_y(&self) -> (doubled: i64)
        ensures
            doubled == self.bottom + self.top + 1,
    {
        self.bottom as i64 + self.top as i64 + 1
    }
}

/// The key under which a cell is stored: both coordinates shifted to be
/// non-negative, the column in the upper half and the row in the lower.
pub open spec fn cell_key(cell: GridCoords) -> int {
    (cell.x + 0x8000_0000) * 0x1_0000_0000 + (cell.y + 0x8000_0000)
}

/// Distinct cells have distinct keys.
pub proof fn lemma_cell_key_injective(a: GridCoords, b: GridCoords)
    ensures
        0 <= cell_key(a) <= u64::MAX,
        cell_key(a) == cell_key(b) <==> a == b,
{
}

/// A finite set of cells, the occupied cells of one layer.
pub struct CellSet {
    keys: HashSet<u64>,
}

impl View for CellSet {
    type V = Set<GridCoords>;

    closed spec fn view(&self) -> Set<GridCoords> {
        Set::new(|cell: GridCoords| self.keys@.contains(cell_key(cell) as u64))
    }
}

impl CellSet {
    /// The empty set.
    pub fn new() -> (cells: CellSet)
        ensures
            cells@ == Set::<GridCoords>::empty(),
    {
        let cells = CellSet { keys: HashSet::new() };
        assert(cells@ =~= Set::<GridCoords>::empty());
        cells
    }

    fn key(cell: GridCoords) -> (key: u64)
        ensures
            key == cell_key(cell),
    {
        let column: u64 = (cell.x as i64 + 0x8000_0000) as u64;
        let row: u64 = (cell.y as i64 + 0x8000_0000) as u64;
        column * 0x1_0000_0000 + row
    }

    /// Adds a cell; returns whether it was absent before.
    pub fn insert(&mut self, cell: GridCoords) -> (added: bool)
        ensures
            final(self)@ == old(self)@.insert(cell),
            added == !old(self)@.contains(cell),
    {
        broadcast use vstd::std_specs::hash::group_hash_axioms;

        let key = Self::key(cell);
        let added = self.keys.insert(key);
        proof {
            assert forall|other: GridCoords|
                self@.contains(other) == old(self)@.insert(cell).contains(other) by {
                lemma_cell_key_injective(other, cell);
            }
            assert(self@ =~= old(self)@.insert(cell));
        }
        added
    }

    /// Whether the cell is in the set.
    pub fn contains(&self, cell: GridCoords) -> (found: bool)
        ensures
            found == self@.contains(cell),
    {
        broadcast use vstd::std_specs::hash::group_hash_axioms;

        let key = Self::key(cell);
        self.keys.contains(&key)
    }
}

/// The key under which a plate is stored: both bounds shifted to be
/// non-negative, the left one in the upper half and the right one in the
/// lower.
pub open spec fn plate_key(plate: Plate) -> int {
    (plate.left + 0x8000_0000) * 0x1_0000_0000 + (plate.right + 0x8000_0000)
}

/// Distinct plates have distinct keys.
pub proof fn lemma_plate_key_injective(a: Plate, b: Plate)
    ensures
        0 <= plate_key(a) <= u64::MAX,
        plate_key(a) == plate_key(b) <==> a == b,
{
}

/// The rectangles in progress, each under the plate that is its columns.
pub struct PlateMap {
    rects: HashMap<u64, Rect>,
}

impl View for PlateMap {
    type V = Map<Plate, Rect>;

    closed spec fn view(&self) -> Map<Plate, Rect> {
        Map::new(
            |plate: Plate| self.rects@.contains_key(plate_key(plate) as u64),
            |plate: Plate| self.rects@[plate_key(plate) as u64],
        )
    }
}

impl PlateMap {
    /// The empty map.
    pub fn new() -> (map: PlateMap)
        ensures
            map@ == Map::<Plate, Rect>::empty(),
    {
        let map = PlateMap { rects: HashMap::new() };
        assert(map@ =~= Map::<Plate, Rect>::empty());
        map
    }

    fn key(plate: Plate) -> (key: u64)
        ensures
            key == plate_key(plate),
    {
        let left: u64 = (plate.left as i64 + 0x8000_0000) as u64;
        let right: u64 = (plate.right as i64 + 0x8000_0000) as u64;
        left * 0x1_0000_0000 + right
    }

    /// Puts a rectangle under a plate, in place of the one that was there.
    pub fn insert(&mut self, plate: Plate, rect: Rect)
        ensures
            final(self)@ == old(self)@.insert(plate, rect),
    {
        broadcast use vstd::std_specs::hash::group_hash_axioms;

        let key = Self::key(plate);
        self.rects.insert(key, rect);
        proof {
            assert forall|other: Plate|
                self@.contains_key(other) == old(self)@.insert(plate, rect).contains_key(other)
                && (self@.contains_key(other) ==> self@[other] == old(self)@.insert(
                    plate,
                    rect,
                )[other]) by {
                lemma_plate_key_injective(other, plate);
            }
            assert(self@ =~= old(self)@.insert(plate, rect));
        }
    }

    /// Takes out the rectangle under a plate, if there is one.
    pub fn remove(&mut self, plate: Plate) -> (taken: Option<Rect>)
        ensures
            final(self)@ == old(self)@.remove(plate),
            taken == if old(self)@.contains_key(plate) {
                Some(old(self)@[plate])
            } else {
                None::<Rect>
            },
    {
        broadcast use vstd::std_specs::hash::group_hash_axioms;

        let key = Self::key(plate);
        let taken = self.rects.remove(&key);
        proof {
            assert forall|other: Plate|
                self@.contains_key(other) == old(self)@.remove(plate).contains_key(other) && (
                self@.contains_key(other) ==> self@[other] == old(self)@.remove(plate)[other]) by {
                lemma_plate_key_injective(other, plate);
            }
            assert(self@ =~= old(self)@.remove(plate));
        }
        taken
    }

    /// Whether a rectangle is under the plate.
    pub fn contains_key(&self, plate: Plate) -> (found: bool)
        ensures
            found == self@.contains_key(plate),
    {
        broadcast use vstd::std_specs::hash::group_hash_axioms;

        let key = Self::key(plate);
        self.rects.contains_key(&key)
    }
}

} // verus!
