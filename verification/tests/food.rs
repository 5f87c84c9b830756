use snake::food::{count_empty_interior, place_food, spawn_food};
use snake::grid::{draw_border, Cell, Grid};

fn walled_board(width: usize, height: usize) -> Grid {
    let mut grid = Grid::initialize(width, height);
    draw_border(&mut grid);
    grid
}

fn food_squares(grid: &Grid) -> Vec<(usize, usize)> {
    let mut found = Vec::new();
    for x in 0..grid.width() {
        for y in 0..grid.height() {
            if grid.get(x, y) == Cell::Food {
                found.push((x, y));
            }
        }
    }
    found
}

#[test]
fn count_is_the_number_of_empty_squares_inside_the_ring() {
    assert_eq!(count_empty_interior(&walled_board(40, 20)), 38 * 18);
    assert_eq!(count_empty_interior(&walled_board(10, 10)), 64);
    assert_eq!(count_empty_interior(&walled_board(3, 3)), 1);
}

#[test]
fn count_ignores_the_ring_itself() {
    // No border drawn: the ring is empty too, but it does not count.
    assert_eq!(count_empty_interior(&Grid::initialize(5, 4)), 6);
}

#[test]
fn count_is_zero_without_an_interior() {
    for (width, height) in [(0, 0), (1, 1), (2, 2), (2, 9), (9, 2), (0, 5), (5, 0), (1, 7)] {
        assert_eq!(count_empty_interior(&Grid::initialize(width, height)), 0);
    }
}

#[test]
fn count_leaves_out_what_is_not_empty() {
    let mut grid = walled_board(5, 5);
    assert_eq!(count_empty_interior(&grid), 9);
    grid.set(1, 1, Cell::Body);
    grid.set(2, 2, Cell::Food);
    grid.set(3, 3, Cell::Wall);
    assert_eq!(count_empty_interior(&grid), 6);
}

#[test]
fn place_food_numbers_squares_down_each_column_in_turn() {
    let expected = [
        (1, 1),
        (1, 2),
        (1, 3),
        (2, 1),
        (2, 2),
        (2, 3),
        (3, 1),
        (3, 2),
        (3, 3),
    ];
    for (rank, &square) in expected.iter().enumerate() {
        let mut grid = walled_board(5, 5);
        assert_eq!(place_food(&mut grid, rank), square);
        assert_eq!(food_squares(&grid), vec![square]);
    }
}

#[test]
fn place_food_skips_squares_that_are_taken() {
    let mut grid = walled_board(5, 5);
    grid.set(1, 1, Cell::Body);
    grid.set(1, 3, Cell::Body);
    grid.set(2, 1, Cell::Wall);
    // The empty ones, in order: (1,2) (2,2) (2,3) (3,1) (3,2) (3,3).
    assert_eq!(place_food(&mut grid, 2), (2, 3));
    assert_eq!(grid.get(2, 3), Cell::Food);
    // With (2,3) taken by food: (1,2) (2,2) (3,1) (3,2) (3,3).
    assert_eq!(place_food(&mut grid, 2), (3, 1));
    assert_eq!(place_food(&mut grid, 0), (1, 2));
    assert_eq!(place_food(&mut grid, 2), (3, 3));
    assert_eq!(food_squares(&grid), vec![(1, 2), (2, 3), (3, 1), (3, 3)]);
    assert_eq!(grid.get(1, 1), Cell::Body);
    assert_eq!(grid.get(1, 3), Cell::Body);
    assert_eq!(grid.get(2, 1), Cell::Wall);
    assert_eq!(grid.get(2, 2), Cell::Empty);
    assert_eq!(grid.get(3, 2), Cell::Empty);
}

#[test]
fn spawn_food_takes_the_only_empty_square() {
    let mut grid = walled_board(5, 5);
    for x in 1..4 {
        for y in 1..4 {
            grid.set(x, y, Cell::Body);
        }
    }
    grid.set(3, 2, Cell::Empty);
    assert_eq!(spawn_food(&mut grid), (3, 2));
    assert_eq!(grid.get(3, 2), Cell::Food);
    assert_eq!(count_empty_interior(&grid), 0);
}

#[test]
fn spawned_food_lies_inside_the_ring_on_a_square_that_was_empty() {
    for _ in 0..500 {
        let mut grid = walled_board(6, 5);
        grid.set(2, 2, Cell::Body);
        grid.set(3, 2, Cell::Body);
        let before = grid.clone();
        let (x, y) = spawn_food(&mut grid);
        assert!(1 <= x && x < 5, "x = {}", x);
        assert!(1 <= y && y < 4, "y = {}", y);
        assert_eq!(before.get(x, y), Cell::Empty);
        assert_eq!(grid.get(x, y), Cell::Food);
        for i in 0..6 {
            for j in 0..5 {
                if (i, j) != (x, y) {
                    assert_eq!(grid.get(i, j), before.get(i, j));
                }
            }
        }
    }
}

#[test]
fn spawning_until_the_board_is_full_uses_every_square_once() {
    let mut grid = walled_board(6, 6);
    let mut seen = Vec::new();
    for left in (1..=16).rev() {
        assert_eq!(count_empty_interior(&grid), left);
        let square = spawn_food(&mut grid);
        assert!(!seen.contains(&square));
        seen.push(square);
    }
    assert_eq!(count_empty_interior(&grid), 0);
    assert_eq!(food_squares(&grid).len(), 16);
}

#[test]
fn spawned_food_does_not_always_land_on_the_same_square() {
    // Two empty squares: 200 draws that all agree would be a chance of 2^-199.
    let mut first = 0;
    let mut second = 0;
    for _ in 0..200 {
        let mut grid = walled_board(4, 3);
        match spawn_food(&mut grid) {
            (1, 1) => first += 1,
            (2, 1) => second += 1,
            other => panic!("food outside the ring at {:?}", other),
        }
    }
    assert!(first > 0);
    assert!(second > 0);
    assert_eq!(first + second, 200);
}

#[test]
fn spawned_food_reaches_every_empty_square() {
    let mut hits = vec![vec![0u32; 5]; 5];
    for _ in 0..2000 {
        let mut grid = walled_board(5, 5);
        let (x, y) = spawn_food(&mut grid);
        hits[x][y] += 1;
    }
    for x in 0..5 {
        for y in 0..5 {
            let inside = 1 <= x && x < 4 && 1 <= y && y < 4;
            assert_eq!(hits[x][y] > 0, inside, "at ({}, {})", x, y);
        }
    }
}

#[test]
fn spawn_food_keeps_the_border() {
    let mut grid = walled_board(8, 5);
    for _ in 0..18 {
        spawn_food(&mut grid);
    }
    for x in 0..8 {
        for y in 0..5 {
            let on_ring = x == 0 || x == 7 || y == 0 || y == 4;
            let expected = if on_ring { Cell::Wall } else { Cell::Food };
            assert_eq!(grid.get(x, y), expected);
        }
    }
}
