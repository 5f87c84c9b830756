//! Moving the snake: one square per tick, with collisions and growth.

use crate::direction::Direction;
use crate::food::{count_empty_interior, lemma_empty_interior_counted, spawn_food};
use crate::grid::{lemma_put, put, Cell, Grid};
use std::collections::VecDeque;
use vstd::prelude::*;

verus! {

/// Whether the game goes on after a tick, and if not, how it ended.
#[derive(Clone, Copy, Debug, PartialEq, Eq, Structural)]
pub enum GameState {
    Alive,
    Dead { final_length: usize },
    Quit,
}

/// The snake `player`, head first, lies on the board: it has a head, no two
/// segments share a square, and every segment is on a body square.
pub open spec fn snake_on_grid(screen: &Grid, player: Seq<(usize, usize)>) -> bool {
    &&& player.len() > 0
    &&& player.no_duplicates()
    &&& forall|i: int|
        0 <= i < player.len() ==> {
            &&& screen.in_bounds((#[trigger] player[i]).0 as int, player[i].1 as int)
            &&& screen.at(player[i].0 as int, player[i].1 as int) == Cell::Body
        }
}

/// A state in which the snake can be moved: a board inside a ring of walls
/// with the snake lying on it.
pub open spec fn in_play(screen: &Grid, player: Seq<(usize, usize)>) -> bool {
    &&& screen.wf()
    &&& screen.border_is_wall()
    &&& snake_on_grid(screen, player)
}

/// The square that the head enters when it moves in direction `dir`.
pub open spec fn ahead(player: Seq<(usize, usize)>, dir: Direction) -> (int, int) {
    dir.target(player[0])
}

/// Where the head is after a move in direction `dir`.
pub open spec fn head_after(player: Seq<(usize, usize)>, dir: Direction) -> (usize, usize) {
    (ahead(player, dir).0 as usize, ahead(player, dir).1 as usize)
}

/// What the square ahead of the head holds.
pub open spec fn cell_ahead(screen: &Grid, player: Seq<(usize, usize)>, dir: Direction) -> Cell {
    screen.at(ahead(player, dir).0, ahead(player, dir).1)
}

/// The snake after its trailing segments have each taken the place of the
/// segment ahead of it, the head staying where it is.
pub open spec fn shifted(player: Seq<(usize, usize)>) -> Seq<(usize, usize)> {
    Seq::new(
        player.len(),
        |i: int|
            if i == 0 {
                player[0]
            } else {
                player[i - 1]
            },
    )
}

/// A move onto an empty square: the snake has a new head at `head` and has
/// given up its last segment, whose square is empty again.
pub open spec fn advanced(
    before: Seq<Seq<Cell>>,
    player: Seq<(usize, usize)>,
    head: (usize, usize),
    after: Seq<Seq<Cell>>,
    moved: Seq<(usize, usize)>,
) -> bool {
    &&& moved == seq![head] + player.drop_last()
    &&& after == put(
        put(before, player.last().0 as int, player.last().1 as int, Cell::Empty),
        head.0 as int,
        head.1 as int,
        Cell::Body,
    )
}

/// A move onto food: the snake has a new head at `head` and keeps all its
/// segments, and new food lies on an interior square that was empty.
pub open spec fn grown(
    screen: &Grid,
    player: Seq<(usize, usize)>,
    head: (usize, usize),
    after: Seq<Seq<Cell>>,
    moved: Seq<(usize, usize)>,
) -> bool {
    &&& moved == seq![head] + player
    &&& exists|fx: int, fy: int|
        {
            &&& screen.interior(fx, fy)
            &&& #[trigger] screen.at(fx, fy) == Cell::Empty
            &&& after == put(
                put(screen@, head.0 as int, head.1 as int, Cell::Body),
                fx,
                fy,
                Cell::Food,
            )
        }
}

/// A move onto an empty square keeps the game in play: the border is still
/// wall and the snake still lies on the board without crossing itself.  The
/// food, if there was exactly one, is still the only one.
pub proof fn lemma_advanced_in_play(
    before: &Grid,
    after: &Grid,
    player: Seq<(usize, usize)>,
    head: (usize, usize),
    moved: Seq<(usize, usize)>,
)
    requires
        in_play(before, player),
        before.in_bounds(head.0 as int, head.1 as int),
        before.at(head.0 as int, head.1 as int) == Cell::Empty,
        after.wf(),
        after.width() == before.width(),
        after.height() == before.height(),
        advanced(before@, player, head, after@, moved),
    ensures
        in_play(after, moved),
        before.has_single_food() ==> after.has_single_food(),
{
    let tail = player.last();
    let cleared = put(before@, tail.0 as int, tail.1 as int, Cell::Empty);
    assert forall|x: int, y: int| before.in_bounds(x, y) implies #[trigger] after.at(x, y) == (if x
        == head.0 && y == head.1 {
        Cell::Body
    } else if x == tail.0 && y == tail.1 {
        Cell::Empty
    } else {
        before.at(x, y)
    }) by {
        lemma_put(before@, tail.0 as int, tail.1 as int, Cell::Empty, x, y);
        lemma_put(before@, tail.0 as int, tail.1 as int, Cell::Empty, head.0 as int, head.1 as int);
        lemma_put(cleared, head.0 as int, head.1 as int, Cell::Body, x, y);
    }
    assert(after.border_is_wall());
    assert(moved.no_duplicates());
    assert(snake_on_grid(after, moved));
    if before.has_single_food() {
        let (fx, fy) = choose|fx: int, fy: int| before.food_only_at(fx, fy);
        assert(after.food_only_at(fx, fy));
    }
}

/// A move onto food keeps the game in play: the border is still wall and
/// the longer snake lies on the board without crossing itself.  If the food
/// eaten was the only one, the new food is the only one.
pub proof fn lemma_grown_in_play(
    before: &Grid,
    after: &Grid,
    player: Seq<(usize, usize)>,
    head: (usize, usize),
    moved: Seq<(usize, usize)>,
)
    requires
        in_play(before, player),
        before.in_bounds(head.0 as int, head.1 as int),
        before.at(head.0 as int, head.1 as int) == Cell::Food,
        after.wf(),
        after.width() == before.width(),
        after.height() == before.height(),
        grown(before, player, head, after@, moved),
    ensures
        in_play(after, moved),
        before.has_single_food() ==> after.has_single_food(),
{
    let (fx, fy) = choose|fx: int, fy: int|
        {
            &&& before.interior(fx, fy)
            &&& #[trigger] before.at(fx, fy) == Cell::Empty
            &&& after@ == put(
                put(before@, head.0 as int, head.1 as int, Cell::Body),
                fx,
                fy,
                Cell::Food,
            )
        };
    let eaten = put(before@, head.0 as int, head.1 as int, Cell::Body);
    assert forall|x: int, y: int| before.in_bounds(x, y) implies #[trigger] after.at(x, y) == (if x
        == fx && y == fy {
        Cell::Food
    } else if x == head.0 && y == head.1 {
        Cell::Body
    } else {
        before.at(x, y)
    }) by {
        lemma_put(before@, head.0 as int, head.1 as int, Cell::Body, x, y);
        lemma_put(before@, head.0 as int, head.1 as int, Cell::Body, fx, fy);
        lemma_put(eaten, fx, fy, Cell::Food, x, y);
    }
    assert(after.border_is_wall());
    assert(moved.no_duplicates());
    assert(snake_on_grid(after, moved));
    if before.has_single_food() {
        let (gx, gy) = choose|gx: int, gy: int| before.food_only_at(gx, gy);
        assert(after.food_only_at(fx, fy));
    }
}

/// Whether every square of the outer ring is a wall.
pub fn border_intact(screen: &Grid) -> (ok: bool)
    requires
        screen.wf(),
    ensures
        ok == screen.border_is_wall(),
{
    let w = screen.width();
    let h = screen.height();
    let mut x: usize = 0;
    while x < w
        invariant
            screen.wf(),
            w == screen.width(),
            h == screen.height(),
            x <= w,
            forall|i: int, j: int|
                0 <= i < x && screen.on_border(i, j) ==> #[trigger] screen.at(i, j) == Cell::Wall,
        decreases w - x,
    {
        let mut y: usize = 0;
        while y < h
            invariant
                screen.wf(),
                w == screen.width(),
                h == screen.height(),
                x < w,
                y <= h,
                forall|i: int, j: int|
                    0 <= i < x && screen.on_border(i, j) ==> #[trigger] screen.at(i, j)
                        == Cell::Wall,
                forall|j: int|
                    0 <= j < y && screen.on_border(x as int, j) ==> #[trigger] screen.at(
                        x as int,
                        j,
                    ) == Cell::Wall,
            decreases h - y,
        {
            if (x == 0 || y == 0 || x == w - 1 || y == h - 1) && screen.get(x, y) != Cell::Wall {
                return false;
            }
            y += 1;
        }
        x += 1;
    }
    true
}

/// Whether no two segments of the snake share a square.
pub fn segments_distinct(player: &VecDeque<(usize, usize)>) -> (ok: bool)
    ensures
        ok == player@.no_duplicates(),
{
    let n = player.len();
    let mut i: usize = 0;
    while i < n
        invariant
            n == player@.len(),
            i <= n,
            forall|a: int, b: int| 0 <= a < i && a < b < n ==> player@[a] != player@[b],
        decreases n - i,
    {
        let mut j: usize = i + 1;
        while j < n
            invariant
                n == player@.len(),
                i < j <= n,
                forall|b: int| i < b < j ==> player@[i as int] != player@[b],
            decreases n - j,
        {
            if player[i].0 == player[j].0 && player[i].1 == player[j].1 {
                return false;
            }
            j += 1;
        }
        i += 1;
    }
    true
}

/// Whether the board and the snake make a state in which the snake can be
/// moved.
pub fn is_in_play(screen: &Grid, player: &VecDeque<(usize, usize)>) -> (ok: bool)
    requires
        screen.wf(),
    ensures
        ok == in_play(screen, player@),
{
    if player.len() == 0 || !border_intact(screen) || !segments_distinct(player) {
        return false;
    }
    let mut i: usize = 0;
    while i < player.len()
        invariant
            screen.wf(),
            i <= player@.len(),
            forall|k: int|
                0 <= k < i ==> {
                    &&& screen.in_bounds((#[trigger] player@[k]).0 as int, player@[k].1 as int)
                    &&& screen.at(player@[k].0 as int, player@[k].1 as int) == Cell::Body
                },
        decreases player@.len() - i,
    {
        let segment = player[i];
        if segment.0 >= screen.width() || segment.1 >= screen.height() {
            return false;
        }
        if screen.get(segment.0, segment.1) != Cell::Body {
            return false;
        }
        i += 1;
    }
    true
}

/// The state in which a snake of this length has died.
pub fn death(player: &VecDeque<(usize, usize)>) -> (state: GameState)
    ensures
        state == (GameState::Dead { final_length: player.len() }),
{
    GameState::Dead { final_length: player.len() }
}

/// Looks at the square that the head would enter.
pub fn look_ahead(screen: &Grid, dir: Direction, player: &VecDeque<(usize, usize)>) -> (c: Cell)
    requires
        in_play(screen, player@),
    ensures
        c == cell_ahead(screen, player@, dir),
        screen.in_bounds(ahead(player@, dir).0, ahead(player@, dir).1),
{
    let head = player[0];
    let next = dir.step(head);
    screen.get(next.0, next.1)
}

/// Whether [`move_player`] may be called: it may, unless the head is about
/// to eat and the board has no empty square left for the next food.
pub fn can_move(screen: &Grid, dir: Direction, player: &VecDeque<(usize, usize)>) -> (ok: bool)
    requires
        in_play(screen, player@),
    ensures
        ok == (cell_ahead(screen, player@, dir) == Cell::Food ==> screen.has_empty_interior()),
{
    proof {
        lemma_empty_interior_counted(screen);
    }
    look_ahead(screen, dir, player) != Cell::Food || count_empty_interior(screen) > 0
}

/// Shifts the body behind the head: each trailing segment takes the place
/// of the segment ahead of it, so the first follower lands on the head's
/// square, which the head is about to leave.  The last square is freed.
/// A snake that is only a head is left alone.
pub fn move_next(screen: &mut Grid, player: &mut VecDeque<(usize, usize)>)
    requires
        old(screen).wf(),
        old(player)@.no_duplicates(),
        forall|i: int|
            0 <= i < old(player)@.len() ==> old(screen).in_bounds(
                (#[trigger] old(player)@[i]).0 as int,
                old(player)@[i].1 as int,
            ),
        old(player)@.len() >= 2 ==> old(screen).at(
            old(player)@[0].0 as int,
            old(player)@[0].1 as int,
        ) == Cell::Empty,
    ensures
        final(screen).wf(),
        final(screen).width() == old(screen).width(),
        final(screen).height() == old(screen).height(),
        old(player)@.len() < 2 ==> final(player)@ == old(player)@ && final(screen)@ == old(screen)@,
        old(player)@.len() >= 2 ==> {
            &&& final(player)@ == shifted(old(player)@)
            &&& final(screen)@ == put(
                put(
                    old(screen)@,
                    old(player)@.last().0 as int,
                    old(player)@.last().1 as int,
                    Cell::Empty,
                ),
                old(player)@[0].0 as int,
                old(player)@[0].1 as int,
                Cell::Body,
            )
        },
{
    if player.len() < 2 {
        return ;
    }
    let front = player[0];
    match player.pop_back() {
        Some(back) => {
            screen.set(back.0, back.1, Cell::Empty);
        },
        None => {},
    }
    screen.set(front.0, front.1, Cell::Body);
    player.push_front(front);
}

/// Advances the snake by one square in direction `dir`.
///
/// The square ahead of the head decides.  On a wall or on the snake's own
/// body the snake dies and nothing is changed.  On food the snake grows by a
/// new head and new food is placed.  On an empty square the whole snake
/// moves along by one.
pub fn move_player(
    screen: &mut Grid,
    dir: Direction,
    player: &mut VecDeque<(usize, usize)>,
) -> (state: GameState)
    requires
        in_play(old(screen), old(player)@),
        cell_ahead(old(screen), old(player)@, dir) == Cell::Food
            ==> old(screen).has_empty_interior(),
    ensures
        final(screen).wf(),
        final(screen).width() == old(screen).width(),
        final(screen).height() == old(screen).height(),
        match cell_ahead(old(screen), old(player)@, dir) {
            Cell::Wall | Cell::Body => {
                &&& state == (GameState::Dead { final_length: old(player).len() })
                &&& final(screen)@ == old(screen)@
                &&& final(player)@ == old(player)@
            },
            Cell::Empty => {
                &&& state == GameState::Alive
                &&& advanced(
                    old(screen)@,
                    old(player)@,
                    head_after(old(player)@, dir),
                    final(screen)@,
                    final(player)@,
                )
            },
            Cell::Food => {
                &&& state == GameState::Alive
                &&& grown(
                    old(screen),
                    old(player)@,
                    head_after(old(player)@, dir),
                    final(screen)@,
                    final(player)@,
                )
            },
        },
        in_play(final(screen), final(player)@),
        old(screen).has_single_food() ==> final(screen).has_single_food(),
        final(player)@.len() == old(player)@.len() + (if cell_ahead(
            old(screen),
            old(player)@,
            dir,
        ) == Cell::Food {
            1int
        } else {
            0int
        }),
        old(player)@.contains(head_after(old(player)@, dir)) ==> state == (GameState::Dead {
            final_length: old(player).len(),
        }),
{
    let old_pos = player[0];
    let new_pos = dir.step(old_pos);
    let next_slot = screen.get(new_pos.0, new_pos.1);
    if next_slot == Cell::Body || next_slot == Cell::Wall {
        return death(player);
    }
    if next_slot == Cell::Food {
        let ghost (ex, ey) = choose|x: int, y: int|
            screen.interior(x, y) && #[trigger] screen.at(x, y) == Cell::Empty;
        screen.set(new_pos.0, new_pos.1, Cell::Body);
        player.push_front(new_pos);
        proof {
            lemma_put(old(screen)@, new_pos.0 as int, new_pos.1 as int, Cell::Body, ex, ey);
            assert(screen.interior(ex, ey) && screen.at(ex, ey) == Cell::Empty);
        }
        let food = spawn_food(screen);
        proof {
            lemma_put(
                old(screen)@,
                new_pos.0 as int,
                new_pos.1 as int,
                Cell::Body,
                food.0 as int,
                food.1 as int,
            );
            assert(old(screen).at(food.0 as int, food.1 as int) == Cell::Empty);
            lemma_grown_in_play(old(screen), screen, old(player)@, new_pos, player@);
        }
    } else {
        screen.set(old_pos.0, old_pos.1, Cell::Empty);
        move_next(screen, player);
        screen.set(new_pos.0, new_pos.1, Cell::Body);
        player.pop_front();
        player.push_front(new_pos);
        proof {
            assert(player@ =~= seq![new_pos] + old(player)@.drop_last());
            assert(screen@ =~~= put(
                put(
                    old(screen)@,
                    old(player)@.last().0 as int,
                    old(player)@.last().1 as int,
                    Cell::Empty,
                ),
                new_pos.0 as int,
                new_pos.1 as int,
                Cell::Body,
            ));
            lemma_advanced_in_play(old(screen), screen, old(player)@, new_pos, player@);
        }
    }
    GameState::Alive
}

} // verus!
