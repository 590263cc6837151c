use vstd::arithmetic::div_mod::lemma_fundamental_div_mod_converse;
use vstd::prelude::*;

use crate::cell::{Cell, CellType};

verus! {

/// The largest grid dimension accepted: every coordinate of a cell inside
/// such a grid fits the signed 16-bit coordinates that cells carry, and a
/// coordinate one outside the grid still fits during neighbor arithmetic.
pub const MAX_DIM: u32 = 0x7fff;

/// The automaton: a bounded, non-toroidal field of cells stored densely in
/// row-major order, so that the cell at `(x, y)` sits at index
/// `y * width + x`.
pub struct Grid {
    pub cells: Vec<Cell>,
    pub width: u32,
    pub height: u32,
}

/// 1 when the condition holds, 0 otherwise: the contribution of one
/// neighbor slot to a live-neighbor count.
pub open spec fn one_if(b: bool) -> int {
    if b {
        1
    } else {
        0
    }
}

/// The fixed order in which the eight Moore-neighborhood offsets are
/// visited. Only the set of offsets matters to the automaton; the order is
/// an implementation detail.
pub open spec fn neighbor_offset(k: int) -> (int, int) {
    if k == 0 {
        (-1, -1)
    } else if k == 1 {
        (0, -1)
    } else if k == 2 {
        (1, -1)
    } else if k == 3 {
        (-1, 0)
    } else if k == 4 {
        (1, 0)
    } else if k == 5 {
        (-1, 1)
    } else if k == 6 {
        (0, 1)
    } else {
        (1, 1)
    }
}

/// Conway's B3/S23 transition for a single position: `cur` is the cell's
/// current aliveness and `n` its live-neighbor count. A live cell survives
/// with two or three live neighbors; a dead cell is born with exactly
/// three; every other cell is dead in the next generation.
pub open spec fn next_cell_type(cur: CellType, n: int) -> CellType {
    match cur {
        CellType::LiveCell => if n == 2 || n == 3 {
            CellType::LiveCell
        } else {
            CellType::DeadCell
        },
        CellType::DeadCell => if n == 3 {
            CellType::LiveCell
        } else {
            CellType::DeadCell
        },
    }
}

/// Row-major indexing: a position `(x, y)` inside a `w`-by-`h` grid maps to
/// an index in range, and that index decodes back to exactly `(x, y)`.
pub proof fn lemma_row_major_index(w: int, h: int, x: int, y: int)
    requires
        1 <= w,
        1 <= h,
        0 <= x < w,
        0 <= y < h,
    ensures
        0 <= y * w + x < w * h,
        (y * w + x) % w == x,
        (y * w + x) / w == y,
{
    assert(0 <= y * w + x < w * h) by (nonlinear_arith)
        requires
            1 <= w,
            1 <= h,
            0 <= x < w,
            0 <= y < h,
    ;
    lemma_fundamental_div_mod_converse(y * w + x, w, y, x);
}

impl Grid {
    /// Well-formedness: the dimensions are at least 1 and small enough for
    /// 16-bit coordinates, the storage holds exactly `width * height`
    /// cells, and the cell stored at index `i` carries the coordinates of
    /// its own position, `(i % width, i / width)`.
    pub open spec fn wf(self) -> bool {
        &&& 1 <= self.width <= MAX_DIM
        &&& 1 <= self.height <= MAX_DIM
        &&& self.cells@.len() == self.width * self.height
        &&& forall|i: int|
            0 <= i < self.cells@.len() ==> (#[trigger] self.cells@[i]).x == i % (
            self.width as int) && self.cells@[i].y == i / (self.width as int)
    }

    /// Whether `(x, y)` is a position of this grid.
    pub open spec fn in_bounds(self, x: int, y: int) -> bool {
        0 <= x < self.width && 0 <= y < self.height
    }

    /// Whether the cell stored at position `(x, y)` is live; positions
    /// outside the grid count as not live.
    pub open spec fn live_at(self, x: int, y: int) -> bool {
        self.in_bounds(x, y) && self.cells@[y * self.width + x].cell_type is LiveCell
    }

    /// Whether the `k`-th Moore neighbor of `(x, y)` is live.
    pub open spec fn neighbor_live(self, x: int, y: int, k: int) -> bool {
        self.live_at(x + neighbor_offset(k).0, y + neighbor_offset(k).1)
    }

    /// The number of live cells among the first `k` Moore neighbors of
    /// `(x, y)`, in offset order.
    pub open spec fn live_neighbors_upto(self, x: int, y: int, k: int) -> int
        decreases k,
    {
        if k <= 0 {
            0
        } else {
            self.live_neighbors_upto(x, y, k - 1) + one_if(self.neighbor_live(x, y, k - 1))
        }
    }

    /// The number of live cells among the eight Moore neighbors of
    /// `(x, y)`; neighbors outside the bounded grid contribute nothing.
    pub open spec fn live_neighbors(self, x: int, y: int) -> int {
        self.live_neighbors_upto(x, y, 8)
    }

    /// The cells of the next generation: every position keeps its
    /// coordinates, and its aliveness is the B3/S23 transition applied to
    /// its current aliveness and its live-neighbor count, all read from the
    /// same snapshot of this grid.
    pub open spec fn next_cells(self) -> Seq<Cell> {
        Seq::new(
            self.cells@.len(),
            |i: int|
                Cell {
                    x: self.cells@[i].x,
                    y: self.cells@[i].y,
                    cell_type: next_cell_type(
                        self.cells@[i].cell_type,
                        self.live_neighbors(i % (self.width as int), i / (self.width as int)),
                    ),
                },
        )
    }

    /// What `get_all_neighbors` reports in its `k`-th slot for the cell at
    /// `(x, y)`: the stored neighbor cell when the `k`-th offset lands
    /// inside the grid, and nothing when it falls off the edge.
    pub open spec fn neighbor_slot(self, x: int, y: int, k: int) -> Option<Cell> {
        let dx = neighbor_offset(k).0;
        let dy = neighbor_offset(k).1;
        if self.in_bounds(x + dx, y + dy) {
            Some(self.cells@[(y + dy) * self.width + (x + dx)])
        } else {
            None
        }
    }

    /// Builds a `width`-by-`height` grid of dead cells, coordinates
    /// assigned in row-major order.
    pub fn new(width: u32, height: u32) -> (g: Grid)
        requires
            1 <= width <= MAX_DIM,
            1 <= height <= MAX_DIM,
        ensures
            g.wf(),
            g.width == width,
            g.height == height,
            g.cells@.len() == width * height,
            forall|i: int|
                0 <= i < g.cells@.len() ==> (#[trigger] g.cells@[i]).cell_type is DeadCell,
    {
        proof {
            assert(width * height <= 0x3fff_0001) by (nonlinear_arith)
                requires
                    1 <= width <= 0x7fff,
                    1 <= height <= 0x7fff,
            ;
        }
        let total: u32 = width * height;
        let mut cells: Vec<Cell> = Vec::with_capacity(total as usize);

        for i in 0..total
            invariant
                1 <= width <= MAX_DIM,
                1 <= height <= MAX_DIM,
                total == width * height,
                cells@.len() == i,
                forall|j: int|
                    0 <= j < i ==> (#[trigger] cells@[j]).x == j % (width as int) && cells@[j].y
                        == j / (width as int) && cells@[j].cell_type is DeadCell,
        {
            let x: u32 = i % width;
            let y: u32 = i / width;
            proof {
                assert(x < width);
                assert(y < height) by {
                    vstd::arithmetic::div_mod::lemma_multiply_divide_lt(
                        i as int,
                        width as int,
                        height as int,
                    );
                    assert(i < width * height);
                }
            }
            cells.push(Cell::new(x as i16, y as i16, CellType::DeadCell));
        }

        Grid { cells, width, height }
    }

    /// Seeds the grid: every cell is independently flipped to live with
    /// probability one in ten, and is otherwise left as it is. Coordinates
    /// and dimensions are untouched, so which cells end up live is the
    /// only thing a draw can decide.
    pub fn init(&mut self)
        requires
            old(self).wf(),
        ensures
            final(self).wf(),
            final(self).width == old(self).width,
            final(self).height == old(self).height,
            final(self).cells@.len() == old(self).cells@.len(),
            forall|i: int|
                0 <= i < old(self).cells@.len() ==> {
                    let c = #[trigger] final(self).cells@[i];
                    let o = old(self).cells@[i];
                    c.x == o.x && c.y == o.y && (c.cell_type == o.cell_type
                        || c.cell_type is LiveCell)
                },
    {
        let n = self.cells.len();
        for i in 0..n
            invariant
                self.wf(),
                self.width == old(self).width,
                self.height == old(self).height,
                n == self.cells@.len(),
                n == old(self).cells@.len(),
                forall|j: int|
                    0 <= j < i ==> {
                        let c = #[trigger] self.cells@[j];
                        let o = old(self).cells@[j];
                        c.x == o.x && c.y == o.y && (c.cell_type == o.cell_type
                            || c.cell_type is LiveCell)
                    },
                forall|j: int|
                    i <= j < n ==> #[trigger] self.cells@[j] == old(self).cells@[j],
        {
            if random_ratio(1, 10) {
                let cell = self.cells[i];
                self.cells.set(i, cell.get_live());
            }
        }
    }

    /// Computes the next generation: a fresh grid of the same dimensions
    /// in which every cell keeps its coordinates and takes the B3/S23
    /// transition of its current aliveness and live-neighbor count, all
    /// read from this grid as one immutable snapshot.
    pub fn get_next_state(&self) -> (g: Grid)
        requires
            self.wf(),
        ensures
            g.wf(),
            g.width == self.width,
            g.height == self.height,
            g.cells@ == self.next_cells(),
            forall|i: int|
                0 <= i < self.cells@.len() ==> (#[trigger] g.cells@[i]).x == self.cells@[i].x
                    && g.cells@[i].y == self.cells@[i].y,
    {
        let mut new_grid: Grid = Grid::new(self.width, self.height);
        let n = self.cells.len();

        for i in 0..n
            invariant
                self.wf(),
                n == self.cells@.len(),
                new_grid.wf(),
                new_grid.width == self.width,
                new_grid.height == self.height,
                new_grid.cells@.len() == n,
                forall|j: int| 0 <= j < i ==> #[trigger] new_grid.cells@[j] == self.next_cells()[j],
        {
            let cur_cell = self.cells[i];
            proof {
                vstd::arithmetic::div_mod::lemma_mod_bound(i as int, self.width as int);
                vstd::arithmetic::div_mod::lemma_div_pos_is_pos(i as int, self.width as int);
                vstd::arithmetic::div_mod::lemma_multiply_divide_lt(
                    i as int,
                    self.width as int,
                    self.height as int,
                );
            }
            let num_alive = self.get_num_neighbors_alive(cur_cell);

            let new_cell = match cur_cell.cell_type {
                CellType::LiveCell => {
                    if (num_alive == 2) || (num_alive == 3) {
                        cur_cell.get_live()
                    } else {
                        cur_cell.get_dead()
                    }
                },
                CellType::DeadCell => {
                    if num_alive == 3 {
                        cur_cell.get_live()
                    } else {
                        cur_cell.get_dead()
                    }
                },
            };

            new_grid.cells.set(i, new_cell);
        }

        proof {
            assert(new_grid.cells@ =~= self.next_cells());
        }
        new_grid
    }

    /// Looks up the cell one offset `(dx, dy)` away from `(x, y)`, or
    /// nothing when that position falls outside the grid.
    fn neighbor_at(&self, x: i16, y: i16, dx: i16, dy: i16) -> (r: Option<Cell>)
        requires
            self.wf(),
            self.in_bounds(x as int, y as int),
            -1 <= dx <= 1,
            -1 <= dy <= 1,
        ensures
            r == (if self.in_bounds(x + dx, y + dy) {
                Some(self.cells@[(y + dy) * self.width + (x + dx)])
            } else {
                None::<Cell>
            }),
    {
        let nx: i16 = x + dx;
        let ny: i16 = y + dy;
        if nx >= 0 && ny >= 0 && (nx as u32) < self.width && (ny as u32) < self.height {
            proof {
                lemma_row_major_index(
                    self.width as int,
                    self.height as int,
                    nx as int,
                    ny as int,
                );
                assert(self.width * self.height <= 0x3fff_0001) by (nonlinear_arith)
                    requires
                        1 <= self.width <= 0x7fff,
                        1 <= self.height <= 0x7fff,
                ;
            }
            let index: u32 = ny as u32 * self.width + nx as u32;
            Some(self.cells[index as usize])
        } else {
            None
        }
    }

    /// The eight Moore neighbors of `cur_cell`, in the fixed offset order;
    /// an offset that falls off the bounded grid yields an absent slot.
    pub fn get_all_neighbors(&self, cur_cell: Cell) -> (r: [Option<Cell>; 8])
        requires
            self.wf(),
            self.in_bounds(cur_cell.x as int, cur_cell.y as int),
        ensures
            forall|k: int|
                0 <= k < 8 ==> r@[k] == self.neighbor_slot(
                    cur_cell.x as int,
                    cur_cell.y as int,
                    k,
                ),
    {
        let x = cur_cell.x;
        let y = cur_cell.y;
        [
            self.neighbor_at(x, y, -1, -1),
            self.neighbor_at(x, y, 0, -1),
            self.neighbor_at(x, y, 1, -1),
            self.neighbor_at(x, y, -1, 0),
            self.neighbor_at(x, y, 1, 0),
            self.neighbor_at(x, y, -1, 1),
            self.neighbor_at(x, y, 0, 1),
            self.neighbor_at(x, y, 1, 1),
        ]
    }

    /// Counts the live cells among the eight Moore neighbors of
    /// `cur_cell`; absent neighbors beyond the edge contribute nothing, so
    /// the count never exceeds 8.
    pub fn get_num_neighbors_alive(&self, cur_cell: Cell) -> (count: i8)
        requires
            self.wf(),
            self.in_bounds(cur_cell.x as int, cur_cell.y as int),
        ensures
            count == self.live_neighbors(cur_cell.x as int, cur_cell.y as int),
            0 <= count <= 8,
    {
        let x = cur_cell.x;
        let y = cur_cell.y;
        let neighbors: [Option<Cell>; 8] = self.get_all_neighbors(cur_cell);
        let mut count: i8 = 0;

        for k in 0..8usize
            invariant
                self.wf(),
                self.in_bounds(x as int, y as int),
                count == self.live_neighbors_upto(x as int, y as int, k as int),
                0 <= count <= k,
                forall|j: int|
                    0 <= j < 8 ==> neighbors@[j] == self.neighbor_slot(x as int, y as int, j),
        {
            if let Some(neighbor) = neighbors[k] {
                if matches!(neighbor.cell_type, CellType::LiveCell) {
                    count += 1;
                }
            }
        }

        count
    }
}

/// Relies on rand's `RngExt::random_ratio` on the thread-local generator
/// `rand::rng()`: one Bernoulli draw that is true with probability
/// `numerator / denominator`. Its documentation promises that the draw is
/// always false at numerator 0 and always true at numerator equal to
/// denominator, and that the call panics only when the denominator is 0 or
/// smaller than the numerator; nothing is promised of any other single
/// draw.
#[verifier::external_body]
fn random_ratio(numerator: u32, denominator: u32) -> (r: bool)
    requires
        1 <= denominator,
        numerator <= denominator,
    ensures
        numerator == 0 ==> !r,
        numerator == denominator ==> r,
{
    rand::RngExt::random_ratio(&mut rand::rng(), numerator, denominator)
}

/// A live-neighbor count over the first `k` offsets lies between 0 and
/// `k`: each slot contributes at most one.
pub proof fn lemma_live_neighbors_upto_bounds(g: Grid, x: int, y: int, k: int)
    requires
        0 <= k,
    ensures
        0 <= g.live_neighbors_upto(x, y, k) <= k,
    decreases k,
{
    if k > 0 {
        lemma_live_neighbors_upto_bounds(g, x, y, k - 1);
    }
}

} // verus!
