use game_of_life::grid::{Grid, GridError};
use rand::rngs::StdRng;
use rand::{Rng, SeedableRng};

fn grid_with(width: usize, height: usize, alive: &[(usize, usize)]) -> Grid {
    let mut grid = Grid::new(width, height);
    for &(x, y) in alive {
        assert_eq!(grid.set(x, y, true), Ok(()));
    }
    grid
}

#[test]
fn new_grid_is_all_dead() {
    let grid = Grid::new(4, 3);
    assert_eq!(grid.width(), 4);
    assert_eq!(grid.height(), 3);
    for y in 0..3 {
        for x in 0..4 {
            assert_eq!(grid.is_alive(x, y), Ok(false));
        }
    }
    assert_eq!(grid.iter_alive(), vec![]);
}

#[test]
fn dead_grid_stays_dead() {
    let mut grid = Grid::new(6, 4);
    grid.advance();
    assert_eq!(grid.iter_alive(), vec![]);
    grid.advance();
    assert_eq!(grid.iter_alive(), vec![]);
}

#[test]
fn lonely_cell_dies() {
    let mut grid = grid_with(5, 5, &[(2, 2)]);
    grid.advance();
    assert_eq!(grid.is_alive(2, 2), Ok(false));
    assert_eq!(grid.iter_alive(), vec![]);
}

#[test]
fn cell_with_one_neighbor_dies() {
    let mut grid = grid_with(5, 5, &[(2, 2), (3, 2)]);
    grid.advance();
    assert_eq!(grid.iter_alive(), vec![]);
}

#[test]
fn cell_with_two_neighbors_survives() {
    let mut grid = grid_with(5, 5, &[(1, 1), (2, 2), (3, 3)]);
    grid.advance();
    assert_eq!(grid.iter_alive(), vec![(2, 2)]);
}

#[test]
fn cell_with_three_neighbors_survives() {
    let mut grid = grid_with(5, 5, &[(2, 2), (1, 1), (3, 1), (2, 3)]);
    grid.advance();
    assert_eq!(grid.is_alive(2, 2), Ok(true));
}

#[test]
fn cell_with_four_neighbors_dies() {
    let mut grid = grid_with(5, 5, &[(2, 2), (1, 2), (3, 2), (2, 1), (2, 3)]);
    grid.advance();
    assert_eq!(grid.is_alive(2, 2), Ok(false));
}

#[test]
fn cell_with_eight_neighbors_dies() {
    let all: Vec<(usize, usize)> = (0..3).flat_map(|y| (0..3).map(move |x| (x, y))).collect();
    let mut grid = grid_with(3, 3, &all);
    grid.advance();
    assert_eq!(grid.iter_alive(), vec![(0, 0), (2, 0), (0, 2), (2, 2)]);
}

#[test]
fn dead_cell_with_three_neighbors_is_born() {
    let mut grid = grid_with(5, 5, &[(1, 1), (3, 1), (2, 3)]);
    grid.advance();
    assert_eq!(grid.iter_alive(), vec![(2, 2)]);
}

#[test]
fn dead_cell_with_two_or_four_neighbors_stays_dead() {
    let mut two = grid_with(5, 5, &[(1, 1), (3, 3)]);
    two.advance();
    assert_eq!(two.is_alive(2, 2), Ok(false));
    let mut four = grid_with(5, 5, &[(1, 1), (3, 1), (1, 3), (3, 3)]);
    four.advance();
    assert_eq!(four.is_alive(2, 2), Ok(false));
}

#[test]
fn edges_do_not_wrap_around() {
    let mut row = grid_with(3, 1, &[(0, 0), (1, 0), (2, 0)]);
    row.advance();
    assert_eq!(row.iter_alive(), vec![(1, 0)]);

    let mut column = grid_with(1, 3, &[(0, 0), (0, 1), (0, 2)]);
    column.advance();
    assert_eq!(column.iter_alive(), vec![(0, 1)]);

    let mut far_apart = grid_with(5, 5, &[(0, 0), (4, 0), (0, 4), (4, 4)]);
    far_apart.advance();
    assert_eq!(far_apart.iter_alive(), vec![]);

    let mut opposite_edges = grid_with(4, 3, &[(0, 0), (0, 1), (0, 2)]);
    opposite_edges.advance();
    assert_eq!(opposite_edges.iter_alive(), vec![(0, 1), (1, 1)]);
}

#[test]
fn corner_counts_its_three_neighbors() {
    let mut grid = grid_with(4, 4, &[(1, 0), (0, 1), (1, 1)]);
    grid.advance();
    assert_eq!(grid.iter_alive(), vec![(0, 0), (1, 0), (0, 1), (1, 1)]);
}

#[test]
fn single_cell_grid() {
    let mut grid = grid_with(1, 1, &[(0, 0)]);
    grid.advance();
    assert_eq!(grid.is_alive(0, 0), Ok(false));
}

#[test]
fn toggle_flips_one_cell() {
    let mut grid = Grid::new(3, 3);
    assert_eq!(grid.toggle(1, 2), Ok(()));
    assert_eq!(grid.is_alive(1, 2), Ok(true));
    assert_eq!(grid.is_alive(2, 1), Ok(false));
    assert_eq!(grid.iter_alive(), vec![(1, 2)]);
}

#[test]
fn toggle_twice_restores_the_cell() {
    let mut grid = grid_with(4, 4, &[(1, 1), (3, 2)]);
    let before = grid.iter_alive();
    assert_eq!(grid.toggle(1, 1), Ok(()));
    assert_eq!(grid.is_alive(1, 1), Ok(false));
    assert_eq!(grid.toggle(1, 1), Ok(()));
    assert_eq!(grid.iter_alive(), before);
    assert_eq!(grid.toggle(0, 3), Ok(()));
    assert_eq!(grid.is_alive(0, 3), Ok(true));
    assert_eq!(grid.toggle(0, 3), Ok(()));
    assert_eq!(grid.iter_alive(), before);
}

#[test]
fn clear_kills_every_cell() {
    let mut grid = grid_with(3, 2, &[(0, 0), (2, 1), (1, 1)]);
    grid.clear();
    assert_eq!(grid.width(), 3);
    assert_eq!(grid.height(), 2);
    for y in 0..2 {
        for x in 0..3 {
            assert_eq!(grid.is_alive(x, y), Ok(false));
        }
    }
}

#[test]
fn out_of_bounds_is_refused() {
    let mut grid = grid_with(3, 2, &[(1, 1)]);
    assert_eq!(grid.is_alive(3, 0), Err(GridError::OutOfBounds));
    assert_eq!(grid.is_alive(0, 2), Err(GridError::OutOfBounds));
    assert_eq!(grid.is_alive(usize::MAX, usize::MAX), Err(GridError::OutOfBounds));
    assert_eq!(grid.toggle(3, 1), Err(GridError::OutOfBounds));
    assert_eq!(grid.toggle(1, 2), Err(GridError::OutOfBounds));
    assert_eq!(grid.set(3, 0, true), Err(GridError::OutOfBounds));
    assert_eq!(grid.iter_alive(), vec![(1, 1)]);
    assert_eq!(grid.is_alive(2, 1), Ok(false));
}

#[test]
fn set_gives_the_state_asked_for() {
    let mut grid = Grid::new(3, 3);
    assert_eq!(grid.set(2, 0, true), Ok(()));
    assert_eq!(grid.set(2, 0, true), Ok(()));
    assert_eq!(grid.is_alive(2, 0), Ok(true));
    assert_eq!(grid.is_alive(0, 2), Ok(false));
    assert_eq!(grid.set(2, 0, false), Ok(()));
    assert_eq!(grid.iter_alive(), vec![]);
}

#[test]
fn iter_alive_goes_row_by_row() {
    let grid = grid_with(3, 3, &[(2, 2), (0, 1), (2, 0), (1, 0), (1, 1)]);
    assert_eq!(grid.iter_alive(), vec![(1, 0), (2, 0), (0, 1), (1, 1), (2, 2)]);
    assert_eq!(grid.iter_alive(), grid.iter_alive());
}

#[test]
fn blinker() {
    let vertical = vec![(2, 1), (2, 2), (2, 3)];
    let horizontal = vec![(1, 2), (2, 2), (3, 2)];
    let mut grid = grid_with(5, 5, &vertical);
    assert_eq!(grid.iter_alive(), vertical);
    grid.advance();
    assert_eq!(grid.iter_alive(), horizontal);
    grid.advance();
    assert_eq!(grid.iter_alive(), vertical);

    let mut wide = grid_with(9, 6, &vertical);
    wide.advance();
    assert_eq!(wide.iter_alive(), horizontal);
    wide.advance();
    assert_eq!(wide.iter_alive(), vertical);
}

#[test]
fn block() {
    let cells = vec![(2, 2), (3, 2), (2, 3), (3, 3)];
    let mut grid = grid_with(6, 6, &[(2, 2), (2, 3), (3, 2), (3, 3)]);
    grid.advance();
    assert_eq!(grid.iter_alive(), cells);
    grid.advance();
    assert_eq!(grid.iter_alive(), cells);
}

#[test]
fn glider_moves_diagonally() {
    let mut grid = grid_with(6, 6, &[(1, 0), (2, 1), (0, 2), (1, 2), (2, 2)]);
    for _ in 0..4 {
        grid.advance();
    }
    assert_eq!(grid.iter_alive(), vec![(2, 1), (3, 2), (1, 3), (2, 3), (3, 3)]);
}

#[test]
fn advance_reads_only_the_old_generation() {
    let mut grid = grid_with(3, 3, &[(0, 0), (1, 0), (2, 0)]);
    grid.advance();
    assert_eq!(grid.iter_alive(), vec![(1, 0), (1, 1)]);
}

#[test]
fn randomize_draws_one_state_per_cell_in_row_order() {
    let mut grid = Grid::new(7, 5);
    let mut rng = StdRng::seed_from_u64(42);
    grid.randomize(&mut rng);
    assert_eq!(grid.width(), 7);
    assert_eq!(grid.height(), 5);

    let mut same_seed = StdRng::seed_from_u64(42);
    let mut some_alive = false;
    let mut some_dead = false;
    for y in 0..5 {
        for x in 0..7 {
            let expected: bool = same_seed.gen();
            assert_eq!(grid.is_alive(x, y), Ok(expected));
            some_alive |= expected;
            some_dead |= !expected;
        }
    }
    assert!(some_alive && some_dead);
    let next_of_ours: u64 = rng.gen();
    let next_of_theirs: u64 = same_seed.gen();
    assert_eq!(next_of_ours, next_of_theirs);
}

#[test]
fn randomize_replaces_what_was_there() {
    let all: Vec<(usize, usize)> = (0..8).flat_map(|y| (0..8).map(move |x| (x, y))).collect();
    let mut first = grid_with(8, 8, &all);
    let mut second = Grid::new(8, 8);
    first.randomize(&mut StdRng::seed_from_u64(7));
    second.randomize(&mut StdRng::seed_from_u64(7));
    assert_eq!(first.iter_alive(), second.iter_alive());
    assert!(first.iter_alive().len() < 64);
    assert!(!first.iter_alive().is_empty());
}

#[test]
fn fill_lays_the_states_out_row_by_row() {
    let mut grid = Grid::new(3, 2);
    grid.fill(&vec![true, false, false, false, true, true]);
    assert_eq!(grid.iter_alive(), vec![(0, 0), (1, 1), (2, 1)]);
    assert_eq!(grid.is_alive(0, 0), Ok(true));
    assert_eq!(grid.is_alive(1, 0), Ok(false));
    assert_eq!(grid.is_alive(0, 1), Ok(false));
    assert_eq!(grid.is_alive(2, 1), Ok(true));
    assert_eq!(grid.width(), 3);
    assert_eq!(grid.height(), 2);
}

#[test]
fn fill_forgets_what_was_there() {
    let states = vec![false, true, true, false];
    let mut empty = Grid::new(2, 2);
    let mut full = grid_with(2, 2, &[(0, 0), (1, 0), (0, 1), (1, 1)]);
    empty.fill(&states);
    full.fill(&states);
    assert_eq!(empty.iter_alive(), vec![(1, 0), (0, 1)]);
    assert_eq!(full.iter_alive(), vec![(1, 0), (0, 1)]);
}

#[test]
fn randomize_hands_back_the_draws_it_placed() {
    let mut grid = grid_with(4, 3, &[(0, 0), (3, 2)]);
    let mut rng = StdRng::seed_from_u64(2024);
    let drawn = grid.randomize(&mut rng);
    assert_eq!(drawn.len(), 12);

    let mut same_seed = StdRng::seed_from_u64(2024);
    let expected: Vec<bool> = (0..12).map(|_| same_seed.gen()).collect();
    assert_eq!(drawn, expected);
    for y in 0..3 {
        for x in 0..4 {
            assert_eq!(grid.is_alive(x, y), Ok(drawn[y * 4 + x]));
        }
    }

    let mut filled = Grid::new(4, 3);
    filled.fill(&drawn);
    assert_eq!(filled.iter_alive(), grid.iter_alive());
}

#[test]
fn randomize_twice_draws_on() {
    let mut grid = Grid::new(8, 8);
    let mut rng = StdRng::seed_from_u64(5);
    let first = grid.randomize(&mut rng);
    let second = grid.randomize(&mut rng);
    assert_ne!(first, second);
    let mut same_seed = StdRng::seed_from_u64(5);
    let expected: Vec<bool> = (0..128).map(|_| same_seed.gen()).collect();
    assert_eq!(first, expected[..64].to_vec());
    assert_eq!(second, expected[64..].to_vec());
    for y in 0..8 {
        for x in 0..8 {
            assert_eq!(grid.is_alive(x, y), Ok(second[y * 8 + x]));
        }
    }
}
