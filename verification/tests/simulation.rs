use life_grid::cell::{
    HINT_BLUE_MAX, HINT_BLUE_MIN, HINT_GREEN_MAX, HINT_GREEN_MIN, HINT_RED_MAX, HINT_RED_MIN,
};
use life_grid::grid::GridError;
use life_grid::state::GridState;
use life_grid::stepper::count_live_neighbors;

/// The coordinates of every live cell, in column-major order.
fn live_cells(s: &GridState) -> Vec<(usize, usize)> {
    let mut out = Vec::new();
    for x in 0..s.width() {
        for y in 0..s.height() {
            if s.is_alive(x, y) {
                out.push((x, y));
            }
        }
    }
    out
}

#[test]
fn new_rejects_zero_dimensions() {
    assert_eq!(GridState::new(0, 5).err(), Some(GridError::InvalidDimensions));
    assert_eq!(GridState::new(5, 0).err(), Some(GridError::InvalidDimensions));
    assert_eq!(GridState::new(0, 0).err(), Some(GridError::InvalidDimensions));
}

#[test]
fn new_grid_is_dead_paused_at_generation_zero() {
    let s = GridState::new(4, 3).unwrap();
    assert_eq!(s.width(), 4);
    assert_eq!(s.height(), 3);
    assert!(!s.is_running());
    assert_eq!(s.generation(), 0);
    assert!(live_cells(&s).is_empty());
}

#[test]
fn tick_while_paused_changes_nothing() {
    let mut s = GridState::new(5, 5).unwrap();
    s.toggle_cell(1, 2).unwrap();
    s.toggle_cell(2, 2).unwrap();
    s.toggle_cell(3, 2).unwrap();
    let before = live_cells(&s);
    let gen = s.tick();
    assert_eq!(gen, 0);
    assert_eq!(s.generation(), 0);
    assert_eq!(live_cells(&s), before);
    let gen = s.tick();
    assert_eq!(gen, 0);
    assert_eq!(live_cells(&s), before);
}

#[test]
fn neighbor_count_interior_sees_all_eight() {
    let mut s = GridState::new(3, 3).unwrap();
    for x in 0..3 {
        for y in 0..3 {
            if !(x == 1 && y == 1) {
                s.toggle_cell(x, y).unwrap();
            }
        }
    }
    assert_eq!(count_live_neighbors(&s.grid, 1, 1), 8);
}

#[test]
fn neighbor_count_at_corner_caps_at_three() {
    // a fully live 2x2 grid: each corner sees only its 3 in-bounds
    // neighbours, never more
    let mut s = GridState::new(2, 2).unwrap();
    for x in 0..2 {
        for y in 0..2 {
            s.toggle_cell(x, y).unwrap();
        }
    }
    assert_eq!(count_live_neighbors(&s.grid, 0, 0), 3);
    assert_eq!(count_live_neighbors(&s.grid, 1, 0), 3);
    assert_eq!(count_live_neighbors(&s.grid, 0, 1), 3);
    assert_eq!(count_live_neighbors(&s.grid, 1, 1), 3);
}

#[test]
fn neighbor_count_corner_partial() {
    let mut s = GridState::new(4, 4).unwrap();
    s.toggle_cell(0, 1).unwrap();
    s.toggle_cell(1, 0).unwrap();
    s.toggle_cell(1, 1).unwrap();
    s.toggle_cell(3, 3).unwrap();
    assert_eq!(count_live_neighbors(&s.grid, 0, 0), 3);
    assert_eq!(count_live_neighbors(&s.grid, 2, 2), 2);
}

#[test]
fn lone_cell_dies_of_underpopulation() {
    let mut s = GridState::new(3, 3).unwrap();
    s.toggle_cell(1, 1).unwrap();
    s.set_running(true);
    let gen = s.tick();
    assert_eq!(gen, 1);
    assert!(live_cells(&s).is_empty());
}

#[test]
fn block_is_a_still_life() {
    let mut s = GridState::new(4, 4).unwrap();
    s.toggle_cell(1, 1).unwrap();
    s.toggle_cell(1, 2).unwrap();
    s.toggle_cell(2, 1).unwrap();
    s.toggle_cell(2, 2).unwrap();
    let block = live_cells(&s);
    assert_eq!(block, vec![(1, 1), (1, 2), (2, 1), (2, 2)]);
    s.set_running(true);
    for expected_gen in 1..=4u64 {
        let gen = s.tick();
        assert_eq!(gen, expected_gen);
        assert_eq!(live_cells(&s), block);
    }
}

#[test]
fn blinker_oscillates_with_period_two() {
    let mut s = GridState::new(5, 5).unwrap();
    s.toggle_cell(1, 2).unwrap();
    s.toggle_cell(2, 2).unwrap();
    s.toggle_cell(3, 2).unwrap();
    s.set_running(true);
    s.tick();
    assert_eq!(live_cells(&s), vec![(2, 1), (2, 2), (2, 3)]);
    s.tick();
    assert_eq!(live_cells(&s), vec![(1, 2), (2, 2), (3, 2)]);
    s.tick();
    assert_eq!(live_cells(&s), vec![(2, 1), (2, 2), (2, 3)]);
}

#[test]
fn toggle_twice_restores_liveness_and_clears_hint() {
    let mut s = GridState::new(3, 3).unwrap();
    // dead -> alive -> dead again
    s.toggle_cell(1, 1).unwrap();
    s.toggle_cell(1, 1).unwrap();
    assert!(!s.is_alive(1, 1));
    assert!(s.display_hint(1, 1).is_none());
    // a cell made alive by hand never carries a hint
    s.toggle_cell(2, 0).unwrap();
    assert!(s.is_alive(2, 0));
    assert!(s.display_hint(2, 0).is_none());
}

#[test]
fn toggle_twice_on_simulated_birth_clears_its_hint() {
    let mut s = GridState::new(5, 5).unwrap();
    s.toggle_cell(1, 2).unwrap();
    s.toggle_cell(2, 2).unwrap();
    s.toggle_cell(3, 2).unwrap();
    s.set_running(true);
    s.tick();
    // (2, 1) was just born by the simulation and carries a hint
    assert!(s.is_alive(2, 1));
    assert!(s.display_hint(2, 1).is_some());
    s.toggle_cell(2, 1).unwrap();
    assert!(!s.is_alive(2, 1));
    assert!(s.display_hint(2, 1).is_none());
    s.toggle_cell(2, 1).unwrap();
    assert!(s.is_alive(2, 1));
    assert!(s.display_hint(2, 1).is_none());
}

#[test]
fn birth_hints_stay_in_the_palette() {
    let mut s = GridState::new(5, 5).unwrap();
    s.toggle_cell(1, 2).unwrap();
    s.toggle_cell(2, 2).unwrap();
    s.toggle_cell(3, 2).unwrap();
    s.set_running(true);
    s.tick();
    // births at (2, 1) and (2, 3); only the documented channel ranges
    // may be asserted, never the sampled values themselves
    for &(x, y) in &[(2usize, 1usize), (2, 3)] {
        let h = s.display_hint(x, y).expect("a simulated birth carries a hint");
        assert!(HINT_RED_MIN <= h.red && h.red < HINT_RED_MAX);
        assert!(HINT_GREEN_MIN <= h.green && h.green < HINT_GREEN_MAX);
        assert!(HINT_BLUE_MIN <= h.blue && h.blue < HINT_BLUE_MAX);
    }
    // a survivor that was placed by hand still has no hint
    assert!(s.is_alive(2, 2));
    assert!(s.display_hint(2, 2).is_none());
}

#[test]
fn reset_clears_grid_and_lifecycle() {
    let mut s = GridState::new(4, 4).unwrap();
    s.toggle_cell(1, 1).unwrap();
    s.toggle_cell(1, 2).unwrap();
    s.toggle_cell(2, 1).unwrap();
    s.toggle_cell(2, 2).unwrap();
    s.set_running(true);
    s.tick();
    s.tick();
    assert_eq!(s.generation(), 2);
    s.reset();
    assert!(live_cells(&s).is_empty());
    assert!(!s.is_running());
    assert_eq!(s.generation(), 0);
    assert_eq!(s.width(), 4);
    assert_eq!(s.height(), 4);
}

#[test]
fn out_of_bounds_is_reported_consistently() {
    let mut s = GridState::new(3, 3).unwrap();
    s.toggle_cell(0, 0).unwrap();
    let before = live_cells(&s);
    assert_eq!(s.toggle_cell(3, 0), Err(GridError::OutOfBounds));
    assert_eq!(s.toggle_cell(0, 3), Err(GridError::OutOfBounds));
    assert_eq!(s.toggle_cell(usize::MAX, usize::MAX), Err(GridError::OutOfBounds));
    // repeating the same call answers the same way and changes nothing
    assert_eq!(s.toggle_cell(3, 0), Err(GridError::OutOfBounds));
    assert_eq!(live_cells(&s), before);
    assert_eq!(s.generation(), 0);
    // off-grid queries read as dead and hintless
    assert!(!s.is_alive(7, 7));
    assert!(s.display_hint(7, 7).is_none());
}

#[test]
fn play_pause_and_direct_run_control() {
    let mut s = GridState::new(3, 3).unwrap();
    assert!(!s.is_running());
    s.toggle_running();
    assert!(s.is_running());
    s.toggle_running();
    assert!(!s.is_running());
    s.set_running(true);
    assert!(s.is_running());
    s.set_running(false);
    assert!(!s.is_running());
}

#[test]
fn generation_counts_only_running_ticks() {
    let mut s = GridState::new(4, 4).unwrap();
    s.toggle_cell(1, 1).unwrap();
    s.tick();
    assert_eq!(s.generation(), 0);
    s.set_running(true);
    assert_eq!(s.tick(), 1);
    assert_eq!(s.tick(), 2);
    s.set_running(false);
    assert_eq!(s.tick(), 2);
    s.set_running(true);
    assert_eq!(s.tick(), 3);
    assert_eq!(s.generation(), 3);
}

#[test]
fn death_clears_cell_and_edges_stay_dead() {
    // a horizontal pair dies entirely: each cell has one neighbour
    let mut s = GridState::new(4, 4).unwrap();
    s.toggle_cell(0, 0).unwrap();
    s.toggle_cell(1, 0).unwrap();
    s.set_running(true);
    s.tick();
    assert!(live_cells(&s).is_empty());
    assert!(s.display_hint(0, 0).is_none());
    assert!(s.display_hint(1, 0).is_none());
}
