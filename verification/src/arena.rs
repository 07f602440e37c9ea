use vstd::prelude::*;

verus! {

/// Fixed bounds of the playing field: the cells with `x` in `[0, width)` and
/// `y` in `[0, height)` are inside the arena. Supplied once at construction
/// of a game and immutable thereafter.
#[derive(Clone, Copy, PartialEq, Eq, Structural, Debug)]
pub struct ArenaSize {
    pub width: i32,
    pub height: i32,
}

impl ArenaSize {
    /// The fixed spawn cells (1, 0) and (0, 0) must lie inside the arena,
    /// and at least one further cell must be free so that the first food
    /// has somewhere to go.
    pub open spec fn wf(self) -> bool {
        2 <= self.width && 1 <= self.height && 3 <= self.width * self.height
    }
}

/// A grid cell, addressed by exact integer coordinates. A value type:
/// replaced, never mutated in place.
#[derive(Clone, Copy, PartialEq, Eq, Structural, Debug)]
pub struct Position {
    pub x: i32,
    pub y: i32,
}

impl Position {
    /// Componentwise translation as a mathematical value; it coincides with
    /// integer addition wherever the sums stay within `i32`.
    pub open spec fn spec_add(self, other: Position) -> Position {
        Position { x: (self.x + other.x) as i32, y: (self.y + other.y) as i32 }
    }

    /// Componentwise translation by another position (used with the unit
    /// delta of a direction).
    pub fn add(self, other: Position) -> (r: Position)
        requires
            i32::MIN <= self.x + other.x <= i32::MAX,
            i32::MIN <= self.y + other.y <= i32::MAX,
        ensures
            r == self.spec_add(other),
            r.x == self.x + other.x,
            r.y == self.y + other.y,
    {
        Position { x: self.x + other.x, y: self.y + other.y }
    }
}

/// Whether `p` lies inside the arena.
pub open spec fn in_bounds(arena: ArenaSize, p: Position) -> bool {
    0 <= p.x < arena.width && 0 <= p.y < arena.height
}

} // verus!
