use game_of_life::sleep_time_ms;
use game_of_life::CellType;
use game_of_life::GameState;
use game_of_life::Grid;
use game_of_life::PixelRect;
use game_of_life::CELL_PIXELS;
use game_of_life::FRAME_BUDGET_MS;
use game_of_life::GRID_HEIGHT;
use game_of_life::GRID_WIDTH;
use game_of_life::SCREEN_HEIGHT;
use game_of_life::SCREEN_WIDTH;

#[test]
fn window_constants_match_the_grid() {
    assert_eq!(GRID_WIDTH, 30);
    assert_eq!(GRID_HEIGHT, 30);
    assert_eq!(CELL_PIXELS, 32);
    assert_eq!(SCREEN_WIDTH, 960);
    assert_eq!(SCREEN_HEIGHT, 960);
    assert_eq!(FRAME_BUDGET_MS, 125);
}

#[test]
fn game_state_starts_at_tick_zero_on_a_full_board() {
    let s = GameState::new();
    assert_eq!(s.time_step, 0);
    assert_eq!(s.board.width, GRID_WIDTH);
    assert_eq!(s.board.height, GRID_HEIGHT);
    assert_eq!(s.board.cells.len(), (GRID_WIDTH * GRID_HEIGHT) as usize);
}

#[test]
fn update_advances_one_generation_and_counts_the_tick() {
    let board = {
        let mut g = Grid::new(5, 5);
        for &(x, y) in &[(1i16, 2i16), (2, 2), (3, 2)] {
            let idx = (y as usize) * 5 + (x as usize);
            let c = g.cells[idx];
            g.cells[idx] = c.get_live();
        }
        g
    };
    let expected = board.get_next_state();
    let mut s = GameState { board, time_step: 41 };
    s.update();
    assert_eq!(s.time_step, 42);
    assert_eq!(s.board.cells, expected.cells);
}

#[test]
fn draw_rects_covers_exactly_the_live_cells() {
    let mut g = Grid::new(4, 4);
    for &(x, y) in &[(2i16, 0i16), (1, 1), (3, 3)] {
        let idx = (y as usize) * 4 + (x as usize);
        let c = g.cells[idx];
        g.cells[idx] = c.get_live();
    }
    let s = GameState { board: g, time_step: 0 };
    let rects = s.draw_rects();
    assert_eq!(
        rects,
        vec![
            PixelRect { x: 64, y: 0, w: 32, h: 32 },
            PixelRect { x: 32, y: 32, w: 32, h: 32 },
            PixelRect { x: 96, y: 96, w: 32, h: 32 },
        ]
    );
}

#[test]
fn draw_rects_is_empty_on_a_dead_board() {
    let s = GameState { board: Grid::new(6, 2), time_step: 9 };
    assert_eq!(s.draw_rects(), vec![]);
}

#[test]
fn frame_budget_remainder_is_slept() {
    assert_eq!(sleep_time_ms(0), 125);
    assert_eq!(sleep_time_ms(100), 25);
    assert_eq!(sleep_time_ms(124), 1);
    assert_eq!(sleep_time_ms(125), 0);
    assert_eq!(sleep_time_ms(1000), 0);
}
