//! Setting up a game.

use crate::direction::Direction;
use crate::engine::in_play;
use crate::food::spawn_food;
use crate::grid::{draw_border, Cell, Grid};
use std::collections::VecDeque;
use vstd::prelude::*;

verus! {

/// Everything that changes from tick to tick: the board, the snake with its
/// head first, and the direction in effect.
#[derive(Clone, Debug)]
pub struct Game {
    pub screen: Grid,
    pub player: VecDeque<(usize, usize)>,
    pub dir: Direction,
}

/// A board of this size can hold the walls, the snake's head and one food,
/// and its squares can be counted in a `usize`.
pub open spec fn room_to_start(width: int, height: int) -> bool {
    &&& width >= 3
    &&& height >= 3
    &&& (width > 3 || height > 3)
    &&& width * height <= usize::MAX
}

/// The board of an opening position with its food at `(fx, fy)`: walls all
/// around, the snake's head at the centre, the food, and nothing else.
pub open spec fn opening_board(screen: &Grid, fx: int, fy: int) -> bool {
    &&& screen.interior(fx, fy)
    &&& !(fx == screen.width() / 2 && fy == screen.height() / 2)
    &&& forall|x: int, y: int|
        screen.in_bounds(x, y) ==> #[trigger] screen.at(x, y) == (if screen.on_border(x, y) {
            Cell::Wall
        } else if x == screen.width() / 2 && y == screen.height() / 2 {
            Cell::Body
        } else if x == fx && y == fy {
            Cell::Food
        } else {
            Cell::Empty
        })
}

/// `game` is the opening position on a board of `width` by `height`: walls
/// all around, the snake a single head at the centre and heading up, one
/// food somewhere inside, and every other square empty.
pub open spec fn opening(game: &Game, width: int, height: int) -> bool {
    &&& game.screen.width() == width
    &&& game.screen.height() == height
    &&& game.player@ == seq![((width / 2) as usize, (height / 2) as usize)]
    &&& game.dir == Direction::Up
    &&& in_play(&game.screen, game.player@)
    &&& game.screen.has_single_food()
    &&& exists|fx: int, fy: int| opening_board(&game.screen, fx, fy)
}

/// Sets up a game on a board of `width` by `height`, or returns `None` when
/// the board is too small to hold it.
pub fn start(width: usize, height: usize) -> (game: Option<Game>)
    ensures
        game is Some <==> room_to_start(width as int, height as int),
        game matches Some(g) ==> opening(&g, width as int, height as int),
{
    if width < 3 || height < 3 || (width == 3 && height == 3) {
        return None;
    }
    if width.checked_mul(height).is_none() {
        return None;
    }
    let mut screen = Grid::initialize(width, height);
    let ghost blank = screen;
    let center = (width / 2, height / 2);
    let mut player: VecDeque<(usize, usize)> = VecDeque::new();
    player.push_front(center);
    screen.set(center.0, center.1, Cell::Body);
    let ghost marked = screen;
    draw_border(&mut screen);
    let ghost walled = screen;
    proof {
        assert(marked.at(1, 1) == blank.at(1, 1));
        assert(walled.at(1, 1) == Cell::Empty);
    }
    let food = spawn_food(&mut screen);
    proof {
        let fx = food.0 as int;
        let fy = food.1 as int;
        assert forall|x: int, y: int| screen.in_bounds(x, y) implies #[trigger] screen.at(x, y) == (
        if screen.on_border(x, y) {
            Cell::Wall
        } else if x == screen.width() / 2 && y == screen.height() / 2 {
            Cell::Body
        } else if x == fx && y == fy {
            Cell::Food
        } else {
            Cell::Empty
        }) by {
            assert(blank.at(x, y) == Cell::Empty);
        }
        assert(screen.food_only_at(fx, fy));
    }
    let game = Game { screen, player, dir: Direction::Up };
    proof {
        assert(opening_board(&game.screen, food.0 as int, food.1 as int));
    }
    Some(game)
}

} // verus!
