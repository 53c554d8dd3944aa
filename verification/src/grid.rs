use vstd::prelude::*;

verus! {

/// Width of the arena in cells; a cell's x coordinate is valid iff 0 <= x < ARENA_WIDTH.
pub const ARENA_WIDTH: i32 = 10;

/// Height of the arena in cells; a cell's y coordinate is valid iff 0 <= y < ARENA_HEIGHT.
pub const ARENA_HEIGHT: i32 = 10;

/// A cell of the grid, identified by its integer coordinates.
#[derive(Clone, Copy, Debug, PartialEq, Eq, Structural)]
pub struct Position {
    pub x: i32,
    pub y: i32,
}

impl Position {
    /// A position is inside the arena iff both coordinates lie in the grid's ranges.
    pub open spec fn spec_in_bounds(self) -> bool {
        0 <= self.x < ARENA_WIDTH && 0 <= self.y < ARENA_HEIGHT
    }

    /// Runtime check that this position lies inside the arena.
    pub fn in_bounds(self) -> (r: bool)
        ensures
            r == self.spec_in_bounds(),
    {
        0 <= self.x && self.x < ARENA_WIDTH && 0 <= self.y && self.y < ARENA_HEIGHT
    }
}

/// A heading of the snake's head.
#[derive(Clone, Copy, Debug, PartialEq, Eq, Structural)]
pub enum Direction {
    Left,
    Up,
    Right,
    Down,
}

impl Direction {
    /// The direction pointing the opposite way.
    pub open spec fn spec_opposite(self) -> Direction {
        match self {
            Direction::Left => Direction::Right,
            Direction::Up => Direction::Down,
            Direction::Right => Direction::Left,
            Direction::Down => Direction::Up,
        }
    }

    /// Returns the direction pointing the opposite way.
    pub fn opposite(self) -> (r: Direction)
        ensures
            r == self.spec_opposite(),
    {
        match self {
            Direction::Left => Direction::Right,
            Direction::Up => Direction::Down,
            Direction::Right => Direction::Left,
            Direction::Down => Direction::Up,
        }
    }

    /// The cell reached by moving one step from `p` in this direction.
    pub open spec fn spec_step(self, p: Position) -> Position {
        match self {
            Direction::Left => Position { x: (p.x - 1) as i32, y: p.y },
            Direction::Up => Position { x: p.x, y: (p.y + 1) as i32 },
            Direction::Right => Position { x: (p.x + 1) as i32, y: p.y },
            Direction::Down => Position { x: p.x, y: (p.y - 1) as i32 },
        }
    }

    /// Moves `p` one cell in this direction. The result may lie just outside the
    /// arena; callers detect that as a wall collision.
    pub fn step(self, p: Position) -> (r: Position)
        requires
            p.spec_in_bounds(),
        ensures
            r == self.spec_step(p),
    {
        match self {
            Direction::Left => Position { x: p.x - 1, y: p.y },
            Direction::Up => Position { x: p.x, y: p.y + 1 },
            Direction::Right => Position { x: p.x + 1, y: p.y },
            Direction::Down => Position { x: p.x, y: p.y - 1 },
        }
    }
}

/// Taking the opposite of a direction twice gives the direction back.
pub proof fn lemma_opposite_involutive(d: Direction)
    ensures
        d.spec_opposite().spec_opposite() == d,
{
}

} // verus!
