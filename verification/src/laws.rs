use vstd::arithmetic::div_mod::lemma_div_pos_is_pos;
use vstd::arithmetic::div_mod::lemma_mod_bound;
use vstd::arithmetic::div_mod::lemma_multiply_divide_lt;
use vstd::prelude::*;

use crate::cell::CellType;
use crate::grid::lemma_live_neighbors_upto_bounds;
use crate::grid::lemma_row_major_index;
use crate::grid::next_cell_type;
use crate::grid::one_if;
use crate::grid::Grid;

verus! {

/// A live-neighbor count is always between 0 and 8; on a corner cell it
/// is at most 3, and on any other edge cell at most 5, because offsets
/// that leave the bounded grid contribute nothing.
pub proof fn lemma_live_neighbor_range(g: Grid, x: int, y: int)
    requires
        g.wf(),
        g.in_bounds(x, y),
    ensures
        0 <= g.live_neighbors(x, y) <= 8,
        (x == 0 || x == g.width - 1) && (y == 0 || y == g.height - 1) ==> g.live_neighbors(x, y)
            <= 3,
        x == 0 || x == g.width - 1 || y == 0 || y == g.height - 1 ==> g.live_neighbors(x, y) <= 5,
{
    lemma_live_neighbors_upto_bounds(g, x, y, 8);
    assert(g.live_neighbors_upto(x, y, 8) == one_if(g.neighbor_live(x, y, 0)) + one_if(
        g.neighbor_live(x, y, 1),
    ) + one_if(g.neighbor_live(x, y, 2)) + one_if(g.neighbor_live(x, y, 3)) + one_if(
        g.neighbor_live(x, y, 4),
    ) + one_if(g.neighbor_live(x, y, 5)) + one_if(g.neighbor_live(x, y, 6)) + one_if(
        g.neighbor_live(x, y, 7),
    )) by {
        reveal_with_fuel(Grid::live_neighbors_upto, 9);
    }
    if x == 0 {
        assert(!g.neighbor_live(x, y, 0) && !g.neighbor_live(x, y, 3) && !g.neighbor_live(
            x,
            y,
            5,
        ));
    }
    if x == g.width - 1 {
        assert(!g.neighbor_live(x, y, 2) && !g.neighbor_live(x, y, 4) && !g.neighbor_live(
            x,
            y,
            7,
        ));
    }
    if y == 0 {
        assert(!g.neighbor_live(x, y, 0) && !g.neighbor_live(x, y, 1) && !g.neighbor_live(
            x,
            y,
            2,
        ));
    }
    if y == g.height - 1 {
        assert(!g.neighbor_live(x, y, 5) && !g.neighbor_live(x, y, 6) && !g.neighbor_live(
            x,
            y,
            7,
        ));
    }
}

/// Purity of the transition: the next generation is a function of the
/// snapshot alone, so any two grids whose cells both equal the next
/// generation of the same grid agree cell for cell.
pub proof fn lemma_next_state_pure(g: Grid, a: Grid, b: Grid)
    requires
        a.cells@ == g.next_cells(),
        b.cells@ == g.next_cells(),
    ensures
        a.cells@ == b.cells@,
{
}

/// Overpopulation: a live cell with four or more live neighbors is dead
/// in the next generation.
pub proof fn lemma_overpopulation(cur: CellType, n: int)
    requires
        cur is LiveCell,
        4 <= n,
    ensures
        next_cell_type(cur, n) is DeadCell,
{
}

/// A grid with no live cell stays empty: every live-neighbor count is
/// zero, so no cell is born.
pub proof fn lemma_empty_grid_stays_empty(g: Grid)
    requires
        g.wf(),
        forall|i: int| 0 <= i < g.cells@.len() ==> (#[trigger] g.cells@[i]).cell_type is DeadCell,
    ensures
        forall|i: int|
            0 <= i < g.next_cells().len() ==> (#[trigger] g.next_cells()[i]).cell_type is DeadCell,
{
    let w = g.width as int;
    let h = g.height as int;
    assert forall|x: int, y: int| !(#[trigger] g.live_at(x, y)) by {
        if g.in_bounds(x, y) {
            lemma_row_major_index(w, h, x, y);
        }
    }
    assert forall|i: int|
        0 <= i < g.next_cells().len() implies (#[trigger] g.next_cells()[i]).cell_type
        is DeadCell by {
        let x = i % w;
        let y = i / w;
        assert(g.live_neighbors_upto(x, y, 8) == 0) by {
            reveal_with_fuel(Grid::live_neighbors_upto, 9);
        }
    }
}

/// Whether position `p` holds the one and only live cell of `g`.
pub open spec fn exactly_one_live(g: Grid, p: int) -> bool {
    &&& 0 <= p < g.cells@.len()
    &&& forall|i: int|
        0 <= i < g.cells@.len() ==> ((#[trigger] g.cells@[i]).cell_type is LiveCell <==> i == p)
}

/// Underpopulation at its extreme: a single isolated live cell dies in
/// one step, and no dead cell gains enough neighbors to be born, so one
/// step leaves the whole grid dead.
pub proof fn lemma_lone_live_cell_dies(g: Grid, p: int)
    requires
        g.wf(),
        exactly_one_live(g, p),
    ensures
        forall|i: int|
            0 <= i < g.next_cells().len() ==> (#[trigger] g.next_cells()[i]).cell_type is DeadCell,
{
    let w = g.width as int;
    let h = g.height as int;
    let px = p % w;
    let py = p / w;
    lemma_mod_bound(p, w);
    lemma_div_pos_is_pos(p, w);
    lemma_multiply_divide_lt(p, w, h);

    assert forall|x: int, y: int| #[trigger] g.live_at(x, y) implies x == px && y == py by {
        lemma_row_major_index(w, h, x, y);
    }

    assert forall|i: int|
        0 <= i < g.next_cells().len() implies (#[trigger] g.next_cells()[i]).cell_type
        is DeadCell by {
        let x = i % w;
        let y = i / w;
        lemma_mod_bound(i, w);
        lemma_div_pos_is_pos(i, w);
        lemma_multiply_divide_lt(i, w, h);
        lemma_row_major_index(w, h, x, y);
        let n = g.live_neighbors(x, y);
        assert(n == one_if(g.neighbor_live(x, y, 0)) + one_if(g.neighbor_live(x, y, 1)) + one_if(
            g.neighbor_live(x, y, 2),
        ) + one_if(g.neighbor_live(x, y, 3)) + one_if(g.neighbor_live(x, y, 4)) + one_if(
            g.neighbor_live(x, y, 5),
        ) + one_if(g.neighbor_live(x, y, 6)) + one_if(g.neighbor_live(x, y, 7))) by {
            reveal_with_fuel(Grid::live_neighbors_upto, 9);
        }
        if i == p {
            assert(n == 0);
        } else {
            assert(n <= 1);
        }
    }
}

} // verus!
