use vstd::prelude::*;

use crate::cell::{Cell, CellType};
use crate::grid::Grid;

verus! {

/// Width of the visualizer's grid, in cells.
pub const GRID_WIDTH: u32 = 30;

/// Height of the visualizer's grid, in cells.
pub const GRID_HEIGHT: u32 = 30;

/// Side of the filled square drawn for one live cell, in pixels.
pub const CELL_PIXELS: u32 = 32;

/// Width of the window, in pixels: one square per grid column.
pub const SCREEN_WIDTH: u32 = GRID_WIDTH * CELL_PIXELS;

/// Height of the window, in pixels: one square per grid row.
pub const SCREEN_HEIGHT: u32 = GRID_HEIGHT * CELL_PIXELS;

/// One frame's time budget at the target rate of 8 frames per second.
pub const FRAME_BUDGET_MS: u64 = 125;

/// An axis-aligned pixel rectangle: position of its top-left corner and
/// its extent. What the renderer is asked to fill for one live cell.
#[derive(Clone, Copy, Debug, PartialEq, Eq, Structural)]
pub struct PixelRect {
    pub x: u32,
    pub y: u32,
    pub w: u32,
    pub h: u32,
}

/// The square of the window covered by the cell `c`: the cell's grid
/// position scaled by the cell size, with the cell size as extent.
pub open spec fn rect_for(c: Cell) -> PixelRect {
    PixelRect {
        x: (c.x * CELL_PIXELS) as u32,
        y: (c.y * CELL_PIXELS) as u32,
        w: CELL_PIXELS,
        h: CELL_PIXELS,
    }
}

/// The rectangles to fill for one generation: one square per live cell,
/// in the row-major order of the cells; dead cells contribute nothing.
pub open spec fn live_rects(cells: Seq<Cell>) -> Seq<PixelRect>
    decreases cells.len(),
{
    if cells.len() == 0 {
        Seq::empty()
    } else {
        let rest = live_rects(cells.drop_last());
        if cells.last().cell_type is LiveCell {
            rest.push(rect_for(cells.last()))
        } else {
            rest
        }
    }
}

/// The driver's state: the current generation and a tick counter that
/// grows by one per frame.
pub struct GameState {
    pub board: Grid,
    pub time_step: i64,
}

impl GameState {
    /// Builds the start-up state: a grid of the fixed dimensions, seeded
    /// with a random live population, at tick zero.
    pub fn new() -> (s: GameState)
        ensures
            s.board.wf(),
            s.board.width == GRID_WIDTH,
            s.board.height == GRID_HEIGHT,
            s.board.cells@.len() == GRID_WIDTH * GRID_HEIGHT,
            s.time_step == 0,
    {
        let mut board = Grid::new(GRID_WIDTH, GRID_HEIGHT);
        board.init();

        GameState { board, time_step: 0 }
    }

    /// One frame's update: replaces the held grid by its next generation
    /// and counts the tick. The new generation is computed wholly from the
    /// grid held before the call.
    pub fn update(&mut self)
        requires
            old(self).board.wf(),
            old(self).time_step < i64::MAX,
        ensures
            final(self).board.wf(),
            final(self).board.width == old(self).board.width,
            final(self).board.height == old(self).board.height,
            final(self).board.cells@ == old(self).board.next_cells(),
            final(self).time_step == old(self).time_step + 1,
    {
        self.board = self.board.get_next_state();
        self.time_step = self.time_step + 1;
    }

    /// One frame's draw work, short of the renderer: the filled squares
    /// for exactly the live cells of the current generation, in row-major
    /// order. The caller hands these to the renderer on a cleared canvas.
    pub fn draw_rects(&self) -> (r: Vec<PixelRect>)
        requires
            self.board.wf(),
        ensures
            r@ == live_rects(self.board.cells@),
    {
        let mut rects: Vec<PixelRect> = Vec::new();
        let n = self.board.cells.len();

        for i in 0..n
            invariant
                self.board.wf(),
                n == self.board.cells@.len(),
                rects@ == live_rects(self.board.cells@.take(i as int)),
        {
            let c = self.board.cells[i];
            proof {
                vstd::arithmetic::div_mod::lemma_mod_bound(i as int, self.board.width as int);
                vstd::arithmetic::div_mod::lemma_div_pos_is_pos(i as int, self.board.width as int);
                assert(self.board.cells@.take(i + 1).drop_last() =~= self.board.cells@.take(
                    i as int,
                ));
                assert(self.board.cells@.take(i + 1).last() == self.board.cells@[i as int]);
            }
            if matches!(c.cell_type, CellType::LiveCell) {
                rects.push(
                    PixelRect {
                        x: (c.x as u32) * CELL_PIXELS,
                        y: (c.y as u32) * CELL_PIXELS,
                        w: CELL_PIXELS,
                        h: CELL_PIXELS,
                    },
                );
            }
        }

        proof {
            assert(self.board.cells@.take(n as int) =~= self.board.cells@);
        }
        rects
    }
}

/// How long the driver sleeps once a frame's update and draw have taken
/// `elapsed_ms`: the rest of the frame budget, or nothing when the budget
/// is already spent (a slow frame is not made up for).
pub fn sleep_time_ms(elapsed_ms: u64) -> (r: u64)
    ensures
        r == (if elapsed_ms < FRAME_BUDGET_MS {
            FRAME_BUDGET_MS - elapsed_ms
        } else {
            0
        }),
{
    if elapsed_ms < FRAME_BUDGET_MS {
        FRAME_BUDGET_MS - elapsed_ms
    } else {
        0
    }
}

} // verus!
