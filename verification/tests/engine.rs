use game_of_life::Cell;
use game_of_life::CellType;
use game_of_life::Grid;

fn is_live(c: &Cell) -> bool {
    matches!(c.cell_type, CellType::LiveCell)
}

fn grid_with_live(width: u32, height: u32, live: &[(i16, i16)]) -> Grid {
    let mut g = Grid::new(width, height);
    for &(x, y) in live {
        let idx = (y as usize) * (width as usize) + (x as usize);
        let c = g.cells[idx];
        g.cells[idx] = c.get_live();
    }
    g
}

fn live_coords(g: &Grid) -> Vec<(i16, i16)> {
    g.cells.iter().filter(|c| is_live(c)).map(|c| (c.x, c.y)).collect()
}

#[test]
fn cell_constructors_keep_position() {
    let c = Cell::new(7, -3, CellType::LiveCell);
    assert_eq!(c.get_coordinates(), (7, -3));
    assert!(is_live(&c));
    let d = c.get_dead();
    assert_eq!(d.get_coordinates(), (7, -3));
    assert!(!is_live(&d));
    let l = d.get_live();
    assert_eq!(l.get_coordinates(), (7, -3));
    assert!(is_live(&l));
}

#[test]
fn cell_default_is_dead_at_origin() {
    let c = Cell::default();
    assert_eq!(c.get_coordinates(), (0, 0));
    assert!(!is_live(&c));
}

#[test]
fn new_grid_is_dense_dead_and_row_major() {
    let g = Grid::new(4, 3);
    assert_eq!(g.cells.len(), 12);
    for (i, c) in g.cells.iter().enumerate() {
        assert!(!is_live(c));
        assert_eq!(c.x as usize, i % 4);
        assert_eq!(c.y as usize, i / 4);
    }

    let tiny = Grid::new(1, 1);
    assert_eq!(tiny.cells.len(), 1);
    assert_eq!(tiny.cells[0].get_coordinates(), (0, 0));
    assert!(!is_live(&tiny.cells[0]));
}

#[test]
fn next_state_preserves_coordinates() {
    let g = grid_with_live(5, 5, &[(1, 2), (2, 2), (3, 2)]);
    let next = g.get_next_state();
    assert_eq!(next.cells.len(), g.cells.len());
    for i in 0..g.cells.len() {
        assert_eq!(next.cells[i].get_coordinates(), g.cells[i].get_coordinates());
    }
}

#[test]
fn neighbor_counts_on_full_grid() {
    let all: Vec<(i16, i16)> = (0..3i16).flat_map(|y| (0..3i16).map(move |x| (x, y))).collect();
    let g = grid_with_live(3, 3, &all);

    // interior cell: all 8 neighbors present and live
    assert_eq!(g.get_num_neighbors_alive(g.cells[4]), 8);
    // corner cells: 3 neighbors
    for idx in [0, 2, 6, 8] {
        assert_eq!(g.get_num_neighbors_alive(g.cells[idx]), 3);
    }
    // edge (non-corner) cells: 5 neighbors
    for idx in [1, 3, 5, 7] {
        assert_eq!(g.get_num_neighbors_alive(g.cells[idx]), 5);
    }
}

#[test]
fn get_all_neighbors_marks_offgrid_slots_absent() {
    let g = Grid::new(3, 3);
    let corner = g.cells[0];
    let slots = g.get_all_neighbors(corner);
    let present: Vec<(i16, i16)> =
        slots.iter().flatten().map(|c| c.get_coordinates()).collect();
    assert_eq!(present, vec![(1, 0), (0, 1), (1, 1)]);

    let center = g.cells[4];
    let around: Vec<(i16, i16)> =
        g.get_all_neighbors(center).iter().flatten().map(|c| c.get_coordinates()).collect();
    assert_eq!(
        around,
        vec![(0, 0), (1, 0), (2, 0), (0, 1), (2, 1), (0, 2), (1, 2), (2, 2)]
    );
}

#[test]
fn next_state_is_pure() {
    let g = grid_with_live(5, 4, &[(0, 0), (1, 1), (2, 1), (3, 3), (2, 2)]);
    let a = g.get_next_state();
    let b = g.get_next_state();
    assert_eq!(a.cells, b.cells);
}

#[test]
fn block_is_a_still_life() {
    let block = [(1, 1), (2, 1), (1, 2), (2, 2)];
    let g = grid_with_live(4, 4, &block);
    let next = g.get_next_state();
    assert_eq!(live_coords(&next), live_coords(&g));
}

#[test]
fn blinker_oscillates_with_period_two() {
    let g = grid_with_live(5, 5, &[(1, 2), (2, 2), (3, 2)]);
    let first = g.get_next_state();
    assert_eq!(live_coords(&first), vec![(2, 1), (2, 2), (2, 3)]);
    let second = first.get_next_state();
    assert_eq!(live_coords(&second), vec![(1, 2), (2, 2), (3, 2)]);
}

#[test]
fn birth_rule_is_clipped_at_the_edge() {
    let g = grid_with_live(3, 3, &[(0, 0), (1, 0), (2, 0)]);
    let next = g.get_next_state();
    assert_eq!(live_coords(&next), vec![(1, 0), (1, 1)]);
}

#[test]
fn lone_live_cell_dies_anywhere() {
    for &(x, y) in &[(0i16, 0i16), (4, 0), (0, 4), (4, 4), (2, 2), (3, 1)] {
        let g = grid_with_live(5, 5, &[(x, y)]);
        let next = g.get_next_state();
        assert_eq!(live_coords(&next), vec![]);
    }
}

#[test]
fn overcrowded_live_cell_dies() {
    let around = [(0i16, 0i16), (1, 0), (2, 0), (0, 1), (2, 1), (0, 2), (1, 2), (2, 2)];
    for k in 4..=8usize {
        let mut live: Vec<(i16, i16)> = vec![(1, 1)];
        live.extend_from_slice(&around[..k]);
        let g = grid_with_live(3, 3, &live);
        assert_eq!(g.get_num_neighbors_alive(g.cells[4]), k as i8);
        let next = g.get_next_state();
        assert!(!is_live(&next.cells[4]));
    }
}

#[test]
fn empty_grid_stays_empty() {
    for &(w, h) in &[(1u32, 1u32), (7, 5), (30, 30)] {
        let g = Grid::new(w, h);
        let next = g.get_next_state();
        assert_eq!(next.cells.len(), g.cells.len());
        assert_eq!(live_coords(&next), vec![]);
    }
}

#[test]
fn corner_birth_is_blocked_at_two_neighbors() {
    let g = grid_with_live(3, 3, &[(0, 1), (1, 0)]);
    assert_eq!(g.get_num_neighbors_alive(g.cells[0]), 2);
    let next = g.get_next_state();
    assert!(!is_live(&next.cells[0]));
}

#[test]
fn seeding_hits_about_a_tenth_of_the_cells() {
    let mut g = Grid::new(100, 100);
    g.init();
    assert_eq!(g.cells.len(), 10000);
    let live = live_coords(&g).len();
    assert!(
        (700..=1300).contains(&live),
        "live count {} outside the expected band",
        live
    );
    // seeding never moves a cell
    for (i, c) in g.cells.iter().enumerate() {
        assert_eq!(c.x as usize, i % 100);
        assert_eq!(c.y as usize, i / 100);
    }
}
