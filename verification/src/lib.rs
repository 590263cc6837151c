use vstd::prelude::*;

pub mod cell;
pub mod driver;
pub mod grid;
pub mod laws;

pub use cell::Cell;
pub use cell::CellType;
pub use driver::sleep_time_ms;
pub use driver::GameState;
pub use driver::PixelRect;
pub use driver::CELL_PIXELS;
pub use driver::FRAME_BUDGET_MS;
pub use driver::GRID_HEIGHT;
pub use driver::GRID_WIDTH;
pub use driver::SCREEN_HEIGHT;
pub use driver::SCREEN_WIDTH;
pub use grid::Grid;
pub use grid::MAX_DIM;

verus! {

} // verus!
