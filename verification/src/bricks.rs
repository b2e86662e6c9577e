use vstd::prelude::*;

use crate::geometry::Point;

verus! {

/// Rows of bricks in a wall.
pub const ROWS: u32 = 3;

/// Bricks in each row.
pub const COLUMNS: u32 = 15;

/// Width of a brick, in hundredths of a pixel.
pub const BRICK_WIDTH: i64 = 8000;

/// Height of a brick, in hundredths of a pixel.
pub const BRICK_HEIGHT: i64 = 3200;

/// Space between two neighbouring bricks, in hundredths of a pixel.
pub const GAP: i64 = 428;

/// Space between the wall and the top left corner of the screen, in
/// hundredths of a pixel.
pub const MARGIN: i64 = 1000;

/// The centre of the brick in row `row` and column `column`.
pub open spec fn brick_spot(row: int, column: int) -> Point {
    Point {
        x: ((BRICK_WIDTH + GAP) * column + BRICK_WIDTH / 2 + MARGIN) as i64,
        y: ((BRICK_HEIGHT + GAP) * row + BRICK_HEIGHT / 2 + MARGIN) as i64,
    }
}

/// The centre of the `k`th brick of a wall, counted row by row.
pub open spec fn wall_spot(k: int) -> Point {
    brick_spot(k / COLUMNS as int, k % COLUMNS as int)
}

/// The count after `k` hits on a wall that counted `start` bricks.
pub open spec fn count_after_hits(start: int, k: nat) -> int
    decreases k,
{
    if k == 0 {
        start
    } else {
        count_after_hits(start, (k - 1) as nat) - 1
    }
}

/// The wall of bricks, which counts the bricks still standing.
pub struct Bricks {
    count: i32,
}

impl View for Bricks {
    type V = int;

    /// The number of bricks still counted as standing.
    closed spec fn view(&self) -> int {
        self.count as int
    }
}

impl Bricks {
    /// An empty wall.
    pub fn new() -> (b: Bricks)
        ensures
            b@ == 0,
    {
        Bricks { count: 0 }
    }

    /// The number of bricks still counted as standing.
    pub fn count(&self) -> (n: i32)
        ensures
            n == self@,
    {
        self.count
    }

    /// The centre of the brick in row `row` and column `column`.
    pub fn brick_position(row: u32, column: u32) -> (p: Point)
        requires
            row < ROWS,
            column < COLUMNS,
        ensures
            p == brick_spot(row as int, column as int),
    {
        Point {
            x: (BRICK_WIDTH + GAP) * (column as i64) + BRICK_WIDTH / 2 + MARGIN,
            y: (BRICK_HEIGHT + GAP) * (row as i64) + BRICK_HEIGHT / 2 + MARGIN,
        }
    }

    /// Lays out a new wall: the centres of its bricks, row by row, each row
    /// from left to right. The wall then counts every one of them.
    pub fn generate(&mut self) -> (spots: Vec<Point>)
        ensures
            spots@.len() == ROWS * COLUMNS,
            forall|k: int| 0 <= k < spots@.len() ==> #[trigger] spots@[k] == wall_spot(k),
            final(self)@ == ROWS * COLUMNS,
    {
        self.count = 0;
        let mut spots: Vec<Point> = Vec::new();
        let mut row: u32 = 0;
        while row < ROWS
            invariant
                row <= ROWS,
                spots@.len() == row * COLUMNS,
                self.count == spots@.len(),
                forall|k: int| 0 <= k < spots@.len() ==> #[trigger] spots@[k] == wall_spot(k),
            decreases ROWS - row,
        {
            let mut column: u32 = 0;
            while column < COLUMNS
                invariant
                    row < ROWS,
                    column <= COLUMNS,
                    spots@.len() == row * COLUMNS + column,
                    self.count == spots@.len(),
                    forall|k: int| 0 <= k < spots@.len() ==> #[trigger] spots@[k] == wall_spot(k),
                decreases COLUMNS - column,
            {
                let ghost k: int = row * COLUMNS + column;
                assert(k / COLUMNS as int == row && k % COLUMNS as int == column) by (nonlinear_arith)
                    requires
                        k == row * COLUMNS + column,
                        column < COLUMNS,
                ;
                spots.push(Bricks::brick_position(row, column));
                self.count = self.count + 1;
                column = column + 1;
            }
            row = row + 1;
        }
        spots
    }

    /// A brick was hit: one fewer stands. Returns whether that was the last
    /// one, which is when the wall emits `bricks_cleared`.
    pub fn on_brick_hited(&mut self) -> (cleared: bool)
        requires
            old(self)@ > i32::MIN,
        ensures
            final(self)@ == old(self)@ - 1,
            cleared == (final(self)@ == 0),
    {
        self.count = self.count - 1;
        self.count == 0
    }
}

/// `k` hits take `k` off the count.
proof fn lemma_count_after_hits(start: int, k: nat)
    ensures
        count_after_hits(start, k) == start - k,
    decreases k,
{
    if k > 0 {
        lemma_count_after_hits(start, (k - 1) as nat);
    }
}

/// A freshly laid wall reports itself cleared on the hit that takes its last
/// brick, and on no hit before.
pub proof fn lemma_wall_clears_on_last_hit(k: nat)
    requires
        1 <= k <= ROWS * COLUMNS,
    ensures
        (count_after_hits((ROWS * COLUMNS) as int, k) == 0) == (k == ROWS * COLUMNS),
{
    lemma_count_after_hits((ROWS * COLUMNS) as int, k);
}

/// The wall's layout: the first brick is centred at (50, 26) pixels, and
/// neighbouring bricks are 84.28 pixels apart along a row and 36.28 pixels
/// apart down a column; the k-th brick of a wall is in row k / 15 and column
/// k % 15.
pub proof fn lemma_wall_layout(row: int, column: int, k: int)
    requires
        0 <= row < ROWS - 1,
        0 <= column < COLUMNS - 1,
        0 <= k < ROWS * COLUMNS,
    ensures
        brick_spot(0, 0) == (Point { x: 5000, y: 2600 }),
        brick_spot(row, column + 1).x == brick_spot(row, column).x + 8428,
        brick_spot(row, column + 1).y == brick_spot(row, column).y,
        brick_spot(row + 1, column).y == brick_spot(row, column).y + 3628,
        brick_spot(row + 1, column).x == brick_spot(row, column).x,
        wall_spot(k) == brick_spot(k / 15, k % 15),
{
}

} // verus!
