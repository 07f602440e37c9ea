use vstd::prelude::*;

use crate::arena::{in_bounds, ArenaSize, Position};

verus! {

/// The one food item that may be on the board: its cell. At most one food
/// exists at any time; the game holds it as an `Option<Food>`.
#[derive(Clone, Copy, PartialEq, Eq, Structural, Debug)]
pub struct Food {
    pub position: Position,
}

/// Relies on rand::Rng::gen_range on the half-open range `0..bound`, through
/// rand::thread_rng: a uniformly random integer at least 0 and below `bound`.
/// gen_range panics only on an empty range, which the precondition excludes.
#[verifier::external_body]
fn random_coord(bound: i32) -> (r: i32)
    requires
        1 <= bound,
    ensures
        0 <= r < bound,
{
    rand::Rng::gen_range(&mut rand::thread_rng(), 0..bound)
}

/// Whether `p` occurs in `v`.
pub(crate) fn contains_pos(v: &Vec<Position>, p: Position) -> (r: bool)
    ensures
        r == v@.contains(p),
{
    let mut i: usize = 0;
    while i < v.len()
        invariant
            0 <= i <= v@.len(),
            forall|j: int| 0 <= j < i ==> v@[j] != p,
        decreases v@.len() - i,
    {
        if v[i] == p {
            return true;
        }
        i += 1;
    }
    false
}

/// How many cells are sampled at random before placement falls back to a
/// deterministic scan of the whole arena.
const RANDOM_PLACEMENT_ATTEMPTS: usize = 64;

/// Places one food item on a cell of the arena that none of `occupied`
/// holds: first by uniform random samples, then, should those all land on
/// occupied cells, by scanning every cell in row order. Returns `None` only
/// when every cell of the arena is occupied.
pub fn spawn_food(arena: &ArenaSize, occupied: &Vec<Position>) -> (r: Option<Food>)
    requires
        arena.wf(),
    ensures
        (r matches Some(f) ==> in_bounds(*arena, f.position) && !occupied@.contains(f.position)),
        (r is None ==> forall|p: Position| in_bounds(*arena, p) ==> occupied@.contains(p)),
{
    let mut attempt: usize = 0;
    while attempt < RANDOM_PLACEMENT_ATTEMPTS
        invariant
            arena.wf(),
        decreases RANDOM_PLACEMENT_ATTEMPTS - attempt,
    {
        let p = Position { x: random_coord(arena.width), y: random_coord(arena.height) };
        if !contains_pos(occupied, p) {
            return Some(Food { position: p });
        }
        attempt += 1;
    }
    // Every sample hit an occupied cell; scan for a free one so that
    // placement terminates even on a nearly full board.
    let mut y: i32 = 0;
    while y < arena.height
        invariant
            arena.wf(),
            0 <= y <= arena.height,
            forall|p: Position|
                0 <= p.x < arena.width && 0 <= p.y < y ==> occupied@.contains(p),
        decreases arena.height - y,
    {
        let mut x: i32 = 0;
        while x < arena.width
            invariant
                arena.wf(),
                0 <= y < arena.height,
                0 <= x <= arena.width,
                forall|p: Position|
                    0 <= p.x < arena.width && 0 <= p.y < y ==> occupied@.contains(p),
                forall|p: Position|
                    0 <= p.x < x && p.y == y ==> occupied@.contains(p),
            decreases arena.width - x,
        {
            let p = Position { x, y };
            if !contains_pos(occupied, p) {
                return Some(Food { position: p });
            }
            x += 1;
        }
        y += 1;
    }
    None
}

} // verus!
