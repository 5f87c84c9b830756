//! Placing food on a random empty square inside the walls.
//!
//! The empty interior squares are numbered column by column and, within a
//! column, from the top down.  One random number picks the square by its
//! number, so every empty interior square is equally likely.

use crate::grid::{lemma_put, put, Cell, Grid};
use rand::Rng;
use vstd::prelude::*;

verus! {

/// How many of the squares `(x, 1), .., (x, rows_end - 1)` are empty.
pub open spec fn empty_in_column(screen: &Grid, x: int, rows_end: int) -> nat
    decreases rows_end,
{
    if rows_end <= 1 {
        0
    } else {
        let here: nat = if screen.at(x, rows_end - 1) == Cell::Empty {
            1
        } else {
            0
        };
        empty_in_column(screen, x, rows_end - 1) + here
    }
}

/// How many interior squares of the columns `1, .., cols_end - 1` are empty.
pub open spec fn empty_in_columns(screen: &Grid, cols_end: int) -> nat
    decreases cols_end,
{
    if cols_end <= 1 {
        0
    } else {
        empty_in_columns(screen, cols_end - 1) + empty_in_column(
            screen,
            cols_end - 1,
            screen.height() - 1,
        )
    }
}

/// How many empty interior squares come before `(x, y)`, counting column by
/// column and down each column.
pub open spec fn empty_before(screen: &Grid, x: int, y: int) -> nat {
    empty_in_columns(screen, x) + empty_in_column(screen, x, y)
}

/// How many interior squares are empty.
pub open spec fn empty_interior(screen: &Grid) -> nat {
    empty_in_columns(screen, screen.width() - 1)
}

proof fn lemma_column_bound(screen: &Grid, x: int, rows_end: int)
    requires
        1 <= rows_end,
    ensures
        empty_in_column(screen, x, rows_end) <= rows_end - 1,
    decreases rows_end,
{
    if rows_end > 1 {
        lemma_column_bound(screen, x, rows_end - 1);
    }
}

proof fn lemma_columns_bound(screen: &Grid, cols_end: int)
    requires
        1 <= cols_end,
        1 <= screen.height(),
    ensures
        empty_in_columns(screen, cols_end) <= (cols_end - 1) * screen.height(),
    decreases cols_end,
{
    let h = screen.height() as int;
    if cols_end > 1 {
        lemma_columns_bound(screen, cols_end - 1);
        lemma_column_bound(screen, cols_end - 1, h);
        assert((cols_end - 2) * h + h == (cols_end - 1) * h) by (nonlinear_arith);
    } else {
        assert((cols_end - 1) * h == 0) by (nonlinear_arith)
            requires
                cols_end == 1,
        ;
    }
}

/// While the scan stands inside the walls, what it has counted is less than
/// the number of squares of the board.
proof fn lemma_count_fits(screen: &Grid, x: int, y: int)
    requires
        screen.wf(),
        screen.interior(x, y),
    ensures
        empty_before(screen, x, y) < screen.width() * screen.height(),
{
    let w = screen.width() as int;
    let h = screen.height() as int;
    lemma_columns_bound(screen, x);
    lemma_column_bound(screen, x, y);
    assert((x - 1) * h + h == x * h) by (nonlinear_arith);
    assert(x * h <= w * h) by (nonlinear_arith)
        requires
            0 <= x <= w,
            0 <= h,
    ;
}

proof fn lemma_column_monotone(screen: &Grid, x: int, from: int, to: int)
    requires
        from <= to,
    ensures
        empty_in_column(screen, x, from) <= empty_in_column(screen, x, to),
    decreases to - from,
{
    if from < to {
        lemma_column_monotone(screen, x, from, to - 1);
    }
}

proof fn lemma_columns_monotone(screen: &Grid, from: int, to: int)
    requires
        from <= to,
    ensures
        empty_in_columns(screen, from) <= empty_in_columns(screen, to),
    decreases to - from,
{
    if from < to {
        lemma_columns_monotone(screen, from, to - 1);
    }
}

proof fn lemma_column_without_empty(screen: &Grid, x: int, rows_end: int)
    requires
        forall|y: int| 1 <= y < rows_end ==> #[trigger] screen.at(x, y) != Cell::Empty,
    ensures
        empty_in_column(screen, x, rows_end) == 0,
    decreases rows_end,
{
    if rows_end > 1 {
        lemma_column_without_empty(screen, x, rows_end - 1);
    }
}

proof fn lemma_columns_without_empty(screen: &Grid, cols_end: int)
    requires
        forall|x: int, y: int|
            1 <= x < cols_end && 1 <= y < screen.height() - 1 ==> #[trigger] screen.at(x, y)
                != Cell::Empty,
    ensures
        empty_in_columns(screen, cols_end) == 0,
    decreases cols_end,
{
    if cols_end > 1 {
        lemma_columns_without_empty(screen, cols_end - 1);
        lemma_column_without_empty(screen, cols_end - 1, screen.height() - 1);
    }
}

/// The count of empty interior squares is positive exactly when there is
/// an empty interior square.
pub proof fn lemma_empty_interior_counted(screen: &Grid)
    ensures
        empty_interior(screen) > 0 <==> screen.has_empty_interior(),
{
    let w = screen.width() as int;
    let h = screen.height() as int;
    if screen.has_empty_interior() {
        let (x, y) = choose|x: int, y: int|
            screen.interior(x, y) && #[trigger] screen.at(x, y) == Cell::Empty;
        lemma_column_monotone(screen, x, y + 1, h - 1);
        lemma_columns_monotone(screen, x + 1, w - 1);
    } else {
        lemma_columns_without_empty(screen, w - 1);
    }
}

/// An empty interior square is told from every other by the number of
/// empty interior squares before it.
pub proof fn lemma_rank_tells_squares_apart(screen: &Grid, a: (int, int), b: (int, int))
    requires
        screen.interior(a.0, a.1),
        screen.interior(b.0, b.1),
        screen.at(a.0, a.1) == Cell::Empty,
        screen.at(b.0, b.1) == Cell::Empty,
        empty_before(screen, a.0, a.1) == empty_before(screen, b.0, b.1),
    ensures
        a == b,
{
    if a.0 < b.0 || (a.0 == b.0 && a.1 < b.1) {
        lemma_later_square_counts_more(screen, a, b);
    } else if b.0 < a.0 || (b.0 == a.0 && b.1 < a.1) {
        lemma_later_square_counts_more(screen, b, a);
    }
}

proof fn lemma_later_square_counts_more(screen: &Grid, a: (int, int), b: (int, int))
    requires
        screen.interior(a.0, a.1),
        screen.interior(b.0, b.1),
        screen.at(a.0, a.1) == Cell::Empty,
        a.0 < b.0 || (a.0 == b.0 && a.1 < b.1),
    ensures
        empty_before(screen, a.0, a.1) < empty_before(screen, b.0, b.1),
{
    let h = screen.height() as int;
    if a.0 == b.0 {
        lemma_column_monotone(screen, a.0, a.1 + 1, b.1);
    } else {
        lemma_column_monotone(screen, a.0, a.1 + 1, h - 1);
        lemma_columns_monotone(screen, a.0 + 1, b.0);
    }
}

/// Counts the empty squares inside the walls.
pub fn count_empty_interior(screen: &Grid) -> (n: usize)
    requires
        screen.wf(),
    ensures
        n == empty_interior(screen),
{
    let w = screen.width();
    let h = screen.height();
    if w < 3 || h < 3 {
        proof {
            lemma_empty_interior_counted(screen);
        }
        return 0;
    }
    let mut n: usize = 0;
    let mut x: usize = 1;
    while x < w - 1
        invariant
            screen.wf(),
            w == screen.width(),
            h == screen.height(),
            h >= 3,
            1 <= x <= w - 1,
            n == empty_in_columns(screen, x as int),
        decreases w - x,
    {
        let mut y: usize = 1;
        while y < h - 1
            invariant
                screen.wf(),
                w == screen.width(),
                h == screen.height(),
                1 <= x < w - 1,
                1 <= y <= h - 1,
                n == empty_before(screen, x as int, y as int),
            decreases h - y,
        {
            if screen.get(x, y) == Cell::Empty {
                proof {
                    lemma_count_fits(screen, x as int, y as int);
                }
                n += 1;
            }
            y += 1;
        }
        x += 1;
    }
    n
}

/// Puts food on the empty interior square that has exactly `rank` empty
/// interior squares before it, and returns where that is.
pub fn place_food(screen: &mut Grid, rank: usize) -> (pos: (usize, usize))
    requires
        old(screen).wf(),
        rank < empty_interior(old(screen)),
    ensures
        final(screen).wf(),
        final(screen).width() == old(screen).width(),
        final(screen).height() == old(screen).height(),
        old(screen).interior(pos.0 as int, pos.1 as int),
        old(screen).at(pos.0 as int, pos.1 as int) == Cell::Empty,
        empty_before(old(screen), pos.0 as int, pos.1 as int) == rank,
        final(screen)@ == put(old(screen)@, pos.0 as int, pos.1 as int, Cell::Food),
{
    let w = screen.width();
    let h = screen.height();
    proof {
        // Some interior square is empty, so the board has an interior and
        // `(1, 1)` lies in it.
        lemma_empty_interior_counted(screen);
        let (ex, ey) = choose|x: int, y: int|
            screen.interior(x, y) && #[trigger] screen.at(x, y) == Cell::Empty;
        assert(screen.interior(ex, ey));
    }
    let mut seen: usize = 0;
    let mut x: usize = 1;
    let mut y: usize = 1;
    loop
        invariant
            *screen == *old(screen),
            screen.wf(),
            w == screen.width(),
            h == screen.height(),
            screen.interior(x as int, y as int),
            seen == empty_before(screen, x as int, y as int),
            seen <= rank < empty_interior(screen),
        decreases w - x, h - y,
    {
        if screen.get(x, y) == Cell::Empty {
            if seen == rank {
                screen.set(x, y, Cell::Food);
                return (x, y);
            }
            seen += 1;
        }
        if y + 1 < h - 1 {
            y += 1;
        } else {
            x += 1;
            y = 1;
        }
    }
}

/// Draws a number from `low` up to, not including, `high`.
///
/// Calls `rand::Rng::gen_range` on `rand::thread_rng()` with the range
/// `low..high`.  The contract claims only that the draw lies in the range,
/// which `gen_range` documents for a non-empty range; on an empty range it
/// panics, so one is not admitted.  Which number comes back is up to chance.
/// `thread_rng` panics when the operating system can give it no seed.
#[verifier::external_body]
fn random_in_range(low: usize, high: usize) -> (drawn: usize)
    requires
        low < high,
    ensures
        low <= drawn < high,
{
    rand::thread_rng().gen_range(low..high)
}

/// Puts food on an empty interior square picked at random, each with the
/// same chance, and returns where it is.  No other square changes.
pub fn spawn_food(screen: &mut Grid) -> (pos: (usize, usize))
    requires
        old(screen).wf(),
        old(screen).has_empty_interior(),
    ensures
        final(screen).wf(),
        final(screen).width() == old(screen).width(),
        final(screen).height() == old(screen).height(),
        old(screen).interior(pos.0 as int, pos.1 as int),
        old(screen).at(pos.0 as int, pos.1 as int) == Cell::Empty,
        final(screen)@ == put(old(screen)@, pos.0 as int, pos.1 as int, Cell::Food),
        old(screen).border_is_wall() ==> final(screen).border_is_wall(),
        old(screen).has_no_food() ==> final(screen).food_only_at(pos.0 as int, pos.1 as int),
{
    let empty = count_empty_interior(screen);
    proof {
        lemma_empty_interior_counted(screen);
    }
    let rank = random_in_range(0, empty);
    let pos = place_food(screen, rank);
    proof {
        assert forall|x: int, y: int| screen.in_bounds(x, y) implies #[trigger] screen.at(x, y) == (
        if x == pos.0 && y == pos.1 {
            Cell::Food
        } else {
            old(screen).at(x, y)
        }) by {
            lemma_put(old(screen)@, pos.0 as int, pos.1 as int, Cell::Food, x, y);
        }
    }
    pos
}

} // verus!
