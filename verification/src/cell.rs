use vstd::prelude::*;

verus! {

/// One grid position together with its aliveness.
///
/// Coordinates are signed so that neighbor-offset arithmetic can form
/// values one below zero without wrapping; a cell stored in a grid always
/// satisfies `0 <= x < width` and `0 <= y < height`.
#[derive(Clone, Copy, Debug, PartialEq, Eq, Structural)]
pub struct Cell {
    pub x: i16,
    pub y: i16,
    pub cell_type: CellType,
}

/// The aliveness tag of a cell.
#[derive(Clone, Copy, Debug, PartialEq, Eq, Structural)]
pub enum CellType {
    LiveCell,
    DeadCell,
}

impl Cell {
    /// Builds a cell from its coordinates and aliveness.
    pub fn new(x: i16, y: i16, cell_type: CellType) -> (c: Cell)
        ensures
            c == (Cell { x, y, cell_type }),
    {
        Cell { x, y, cell_type }
    }

    /// Returns the cell's coordinates as a pair.
    pub fn get_coordinates(&self) -> (r: (i16, i16))
        ensures
            r == (self.x, self.y),
    {
        (self.x, self.y)
    }

    /// Returns a copy of the cell, dead, at the same position.
    pub fn get_dead(&self) -> (c: Cell)
        ensures
            c == (Cell { x: self.x, y: self.y, cell_type: CellType::DeadCell }),
    {
        Cell::new(self.x, self.y, CellType::DeadCell)
    }

    /// Returns a copy of the cell, live, at the same position.
    pub fn get_live(&self) -> (c: Cell)
        ensures
            c == (Cell { x: self.x, y: self.y, cell_type: CellType::LiveCell }),
    {
        Cell::new(self.x, self.y, CellType::LiveCell)
    }
}

impl Default for Cell {
    /// The placeholder used during bulk allocation: a dead cell at the origin.
    fn default() -> (c: Cell)
        ensures
            c == (Cell { x: 0i16, y: 0i16, cell_type: CellType::DeadCell }),
    {
        Cell {
            x: 0,
            y: 0,
            cell_type: CellType::DeadCell,
        }
    }
}

} // verus!
