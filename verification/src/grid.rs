//! The board: a rectangle of cells, addressed by column `x` and row `y`.

use vstd::prelude::*;

verus! {

/// What one square of the board holds.
#[derive(Clone, Copy, Debug, PartialEq, Eq, Structural)]
pub enum Cell {
    Empty,
    Wall,
    Food,
    Body,
}

/// The columns `cells` with square `(x, y)` replaced by `c`.
pub open spec fn put(cells: Seq<Seq<Cell>>, x: int, y: int, c: Cell) -> Seq<Seq<Cell>> {
    cells.update(x, cells[x].update(y, c))
}

/// What [`put`] does to each square, and that it keeps the shape.
pub proof fn lemma_put(cells: Seq<Seq<Cell>>, x: int, y: int, c: Cell, i: int, j: int)
    requires
        0 <= x < cells.len(),
        0 <= y < cells[x].len(),
        0 <= i < cells.len(),
        0 <= j < cells[i].len(),
    ensures
        put(cells, x, y, c).len() == cells.len(),
        put(cells, x, y, c)[i].len() == cells[i].len(),
        put(cells, x, y, c)[i][j] == (if i == x && j == y {
            c
        } else {
            cells[i][j]
        }),
{
}

/// A board of `width` columns and `height` rows.
///
/// Its view is the sequence of its columns, so that `grid@[x][y]` is the cell
/// in column `x` and row `y`.
#[derive(Clone, Debug)]
pub struct Grid {
    width: usize,
    height: usize,
    cells: Vec<Vec<Cell>>,
}

impl View for Grid {
    type V = Seq<Seq<Cell>>;

    closed spec fn view(&self) -> Seq<Seq<Cell>> {
        Seq::new(self.cells@.len(), |x: int| self.cells@[x]@)
    }
}

impl Grid {
    /// The number of columns; in contracts, written `width()`.
    pub closed spec fn spec_width(&self) -> usize {
        self.width
    }

    /// The number of rows; in contracts, written `height()`.
    pub closed spec fn spec_height(&self) -> usize {
        self.height
    }

    /// The cell in column `x`, row `y`.
    pub open spec fn at(&self, x: int, y: int) -> Cell {
        self@[x][y]
    }

    /// The view has `width` columns of `height` cells each, and the number of
    /// cells fits in a `usize`.
    pub open spec fn wf(&self) -> bool {
        &&& self@.len() == self.width()
        &&& forall|x: int| 0 <= x < self.width() ==> (#[trigger] self@[x]).len() == self.height()
        &&& self.width() * self.height() <= usize::MAX
    }

    /// `(x, y)` is a square of the board.
    pub open spec fn in_bounds(&self, x: int, y: int) -> bool {
        0 <= x < self.width() && 0 <= y < self.height()
    }

    /// `(x, y)` lies on the outer ring: first or last column, first or last row.
    pub open spec fn on_border(&self, x: int, y: int) -> bool {
        &&& self.in_bounds(x, y)
        &&& (x == 0 || y == 0 || x == self.width() - 1 || y == self.height() - 1)
    }

    /// `(x, y)` lies inside the outer ring.
    pub open spec fn interior(&self, x: int, y: int) -> bool {
        1 <= x < self.width() - 1 && 1 <= y < self.height() - 1
    }

    /// Every square of the outer ring is a wall.
    pub open spec fn border_is_wall(&self) -> bool {
        forall|x: int, y: int| self.on_border(x, y) ==> #[trigger] self.at(x, y) == Cell::Wall
    }

    /// Some square inside the outer ring is empty.
    pub open spec fn has_empty_interior(&self) -> bool {
        exists|x: int, y: int| self.interior(x, y) && #[trigger] self.at(x, y) == Cell::Empty
    }

    /// `(fx, fy)` holds food, and no other square does.
    pub open spec fn food_only_at(&self, fx: int, fy: int) -> bool {
        &&& self.in_bounds(fx, fy)
        &&& forall|x: int, y: int|
            self.in_bounds(x, y) ==> (#[trigger] self.at(x, y) == Cell::Food <==> x == fx && y
                == fy)
    }

    /// Exactly one square holds food.
    pub open spec fn has_single_food(&self) -> bool {
        exists|fx: int, fy: int| self.food_only_at(fx, fy)
    }

    /// No square holds food.
    pub open spec fn has_no_food(&self) -> bool {
        forall|x: int, y: int| self.in_bounds(x, y) ==> #[trigger] self.at(x, y) != Cell::Food
    }

    /// The columns of this board with the outer ring made wall and every
    /// other square as it is.
    pub open spec fn bordered(&self) -> Seq<Seq<Cell>> {
        Seq::new(
            self.width() as nat,
            |x: int|
                Seq::new(
                    self.height() as nat,
                    |y: int|
                        if self.on_border(x, y) {
                            Cell::Wall
                        } else {
                            self.at(x, y)
                        },
                ),
        )
    }

    /// A board of `width` by `height` empty squares.
    pub fn initialize(width: usize, height: usize) -> (grid: Grid)
        requires
            width * height <= usize::MAX,
        ensures
            grid.wf(),
            grid.width() == width,
            grid.height() == height,
            forall|x: int, y: int| grid.in_bounds(x, y) ==> #[trigger] grid.at(x, y) == Cell::Empty,
    {
        let mut cells: Vec<Vec<Cell>> = Vec::new();
        let mut x: usize = 0;
        while x < width
            invariant
                x <= width,
                cells@.len() == x,
                forall|i: int| 0 <= i < x ==> (#[trigger] cells@[i])@.len() == height,
                forall|i: int, j: int|
                    0 <= i < x && 0 <= j < height ==> (#[trigger] cells@[i]@[j]) == Cell::Empty,
            decreases width - x,
        {
            let mut column: Vec<Cell> = Vec::new();
            let mut y: usize = 0;
            while y < height
                invariant
                    y <= height,
                    column@.len() == y,
                    forall|j: int| 0 <= j < y ==> (#[trigger] column@[j]) == Cell::Empty,
                decreases height - y,
            {
                column.push(Cell::Empty);
                y += 1;
            }
            cells.push(column);
            x += 1;
        }
        Grid { width, height, cells }
    }

    /// The number of columns.
    #[verifier::when_used_as_spec(spec_width)]
    pub fn width(&self) -> (w: usize)
        ensures
            w == self.spec_width(),
    {
        self.width
    }

    /// The number of rows.
    #[verifier::when_used_as_spec(spec_height)]
    pub fn height(&self) -> (h: usize)
        ensures
            h == self.spec_height(),
    {
        self.height
    }

    /// Reads the cell in column `x`, row `y`.
    pub fn get(&self, x: usize, y: usize) -> (c: Cell)
        requires
            self.wf(),
            self.in_bounds(x as int, y as int),
        ensures
            c == self.at(x as int, y as int),
    {
        self.cells[x][y]
    }

    /// Writes `c` to column `x`, row `y`, and touches no other square.
    pub fn set(&mut self, x: usize, y: usize, c: Cell)
        requires
            old(self).wf(),
            old(self).in_bounds(x as int, y as int),
        ensures
            final(self).wf(),
            final(self).width() == old(self).width(),
            final(self).height() == old(self).height(),
            final(self)@ == put(old(self)@, x as int, y as int, c),
    {
        assert(self@[x as int].len() == self.height());
        self.cells[x][y] = c;
        assert(self@ =~~= put(old(self)@, x as int, y as int, c));
    }
}

/// The columns of `screen` with the border drawn on every square that comes
/// before `(x_end, y_end)`, going column by column and down each column.
spec fn bordered_before(screen: &Grid, x_end: int, y_end: int) -> Seq<Seq<Cell>> {
    Seq::new(
        screen.width() as nat,
        |x: int|
            Seq::new(
                screen.height() as nat,
                |y: int|
                    if (x < x_end || (x == x_end && y < y_end)) && screen.on_border(x, y) {
                        Cell::Wall
                    } else {
                        screen.at(x, y)
                    },
            ),
    )
}

/// Makes the outer ring of the board wall and leaves every other square as
/// it is.
pub fn draw_border(screen: &mut Grid)
    requires
        old(screen).wf(),
    ensures
        final(screen).wf(),
        final(screen).width() == old(screen).width(),
        final(screen).height() == old(screen).height(),
        final(screen)@ == old(screen).bordered(),
        final(screen).border_is_wall(),
{
    let cols = screen.width();
    let rows = screen.height();
    assert(screen@ =~~= bordered_before(old(screen), 0, 0));
    let mut x: usize = 0;
    while x < cols
        invariant
            screen.wf(),
            cols == screen.width() == old(screen).width(),
            rows == screen.height() == old(screen).height(),
            x <= cols,
            screen@ == bordered_before(old(screen), x as int, 0),
        decreases cols - x,
    {
        let mut y: usize = 0;
        while y < rows
            invariant
                screen.wf(),
                cols == screen.width() == old(screen).width(),
                rows == screen.height() == old(screen).height(),
                x < cols,
                y <= rows,
                screen@ == bordered_before(old(screen), x as int, y as int),
            decreases rows - y,
        {
            if y == 0 || y == rows - 1 || x == 0 || x == cols - 1 {
                screen.set(x, y, Cell::Wall);
            }
            y += 1;
            assert(screen@ =~~= bordered_before(old(screen), x as int, y as int));
        }
        x += 1;
        assert(screen@ =~~= bordered_before(old(screen), x as int, 0));
    }
    assert(screen@ =~~= old(screen).bordered());
}

/// Drawing the border a second time changes nothing: a board that came out
/// of [`draw_border`] is its own result.
pub proof fn lemma_draw_border_idempotent(before: &Grid, after: &Grid)
    requires
        after.width() == before.width(),
        after.height() == before.height(),
        after@ == before.bordered(),
    ensures
        after.bordered() == after@,
{
    assert(after.bordered() =~~= after@);
}

/// Drawing the border leaves every square inside the ring as it was.
pub proof fn lemma_draw_border_keeps_interior(before: &Grid, after: &Grid, x: int, y: int)
    requires
        after@ == before.bordered(),
        before.interior(x, y),
    ensures
        after.at(x, y) == before.at(x, y),
{
}

} // verus!
