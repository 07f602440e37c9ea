use vstd::prelude::*;

use crate::arena::Position;

verus! {

/// One of the four movement directions of the snake.
#[derive(Clone, Copy, PartialEq, Eq, Structural, Debug)]
pub enum Direction {
    Left,
    Right,
    Up,
    Down,
}

impl Direction {
    /// The direction that points exactly the other way.
    pub open spec fn spec_opposite(self) -> Direction {
        match self {
            Direction::Left => Direction::Right,
            Direction::Right => Direction::Left,
            Direction::Up => Direction::Down,
            Direction::Down => Direction::Up,
        }
    }

    /// The direction that points exactly the other way.
    pub fn opposite(self) -> (r: Direction)
        ensures
            r == self.spec_opposite(),
    {
        match self {
            Direction::Left => Direction::Right,
            Direction::Right => Direction::Left,
            Direction::Up => Direction::Down,
            Direction::Down => Direction::Up,
        }
    }

    /// The unit step a head takes in this direction per tick. The `y` axis
    /// grows downward, so `Up` is a step of -1 in `y`.
    pub open spec fn spec_delta(self) -> Position {
        match self {
            Direction::Left => Position { x: -1i32, y: 0 },
            Direction::Right => Position { x: 1, y: 0 },
            Direction::Up => Position { x: 0, y: -1i32 },
            Direction::Down => Position { x: 0, y: 1 },
        }
    }

    /// The unit step a head takes in this direction per tick.
    pub fn delta(self) -> (r: Position)
        ensures
            r == self.spec_delta(),
    {
        match self {
            Direction::Left => Position { x: -1, y: 0 },
            Direction::Right => Position { x: 1, y: 0 },
            Direction::Up => Position { x: 0, y: -1 },
            Direction::Down => Position { x: 0, y: 1 },
        }
    }
}

/// The head's direction state: the direction just used (`current_direction`),
/// the direction committed for the very next tick (`next_direction`), and at
/// most one change queued behind it (`buffer_direction`).
#[derive(Clone, Copy, Debug)]
pub struct MovementStatus {
    pub current_direction: Direction,
    pub next_direction: Direction,
    pub buffer_direction: Option<Direction>,
}

/// The movement status never commits an instant reversal: the committed
/// direction is not the opposite of the one just used, and a queued
/// direction is not the opposite of the committed one.
pub open spec fn ms_wf(ms: MovementStatus) -> bool {
    &&& ms.next_direction != ms.current_direction.spec_opposite()
    &&& (ms.buffer_direction matches Some(b) ==> b != ms.next_direction.spec_opposite())
}

/// The input rule for one candidate direction `td`: commit it if it is
/// neither the current direction nor its opposite (clearing the queue);
/// otherwise queue it unless it would reverse the committed direction;
/// otherwise leave everything unchanged.
pub open spec fn apply_candidate(ms: MovementStatus, td: Direction) -> MovementStatus {
    if ms.current_direction.spec_opposite() != td && ms.current_direction != td {
        MovementStatus { next_direction: td, buffer_direction: None, ..ms }
    } else if ms.next_direction.spec_opposite() != td {
        MovementStatus { buffer_direction: Some(td), ..ms }
    } else {
        ms
    }
}

/// The input rule for a whole pressed-key set, applied in the fixed
/// priority order Left, Right, Up, Down.
pub open spec fn apply_pressed(
    ms: MovementStatus,
    left: bool,
    right: bool,
    up: bool,
    down: bool,
) -> MovementStatus {
    let ms1 = if left {
        apply_candidate(ms, Direction::Left)
    } else {
        ms
    };
    let ms2 = if right {
        apply_candidate(ms1, Direction::Right)
    } else {
        ms1
    };
    let ms3 = if up {
        apply_candidate(ms2, Direction::Up)
    } else {
        ms2
    };
    if down {
        apply_candidate(ms3, Direction::Down)
    } else {
        ms3
    }
}

/// The per-tick promotion of the direction state: a queued direction, if
/// any, becomes the committed one, the queue empties, and the committed
/// direction is recorded as the one just used.
pub open spec fn advance_status(ms: MovementStatus) -> MovementStatus {
    let promoted = match ms.buffer_direction {
        Some(d) => d,
        None => ms.next_direction,
    };
    MovementStatus {
        current_direction: promoted,
        next_direction: promoted,
        buffer_direction: None,
    }
}

/// Reversal rule, for one candidate: starting from a well-formed status, the
/// input rule never commits the opposite of the direction just used; a
/// same-tick reversal command leaves the committed direction alone and is at
/// most queued.
pub proof fn lemma_reversal_rule_candidate(ms: MovementStatus, td: Direction)
    requires
        ms_wf(ms),
    ensures
        ms_wf(apply_candidate(ms, td)),
        apply_candidate(ms, td).current_direction == ms.current_direction,
        apply_candidate(ms, td).next_direction
            != apply_candidate(ms, td).current_direction.spec_opposite(),
        td == ms.current_direction.spec_opposite() ==> apply_candidate(ms, td).next_direction
            == ms.next_direction,
{
}

/// Reversal rule, for a whole pressed-key set: whatever combination of keys
/// is held in one tick, the committed direction is never set to the
/// opposite of the direction just used.
pub proof fn lemma_reversal_rule(ms: MovementStatus, left: bool, right: bool, up: bool, down: bool)
    requires
        ms_wf(ms),
    ensures
        ms_wf(apply_pressed(ms, left, right, up, down)),
        apply_pressed(ms, left, right, up, down).current_direction == ms.current_direction,
        apply_pressed(ms, left, right, up, down).next_direction
            != ms.current_direction.spec_opposite(),
{
}

/// The per-tick promotion keeps the status well-formed: the promoted
/// direction becomes both current and committed, and a direction is never
/// its own opposite.
pub proof fn lemma_advance_preserves_wf(ms: MovementStatus)
    ensures
        ms_wf(advance_status(ms)),
{
}

/// The input rule for one candidate direction, as executable code.
pub fn candidate_step(ms: MovementStatus, td: Direction) -> (r: MovementStatus)
    ensures
        r == apply_candidate(ms, td),
{
    if ms.current_direction.opposite() != td && ms.current_direction != td {
        MovementStatus { next_direction: td, buffer_direction: None, ..ms }
    } else if ms.next_direction.opposite() != td {
        MovementStatus { buffer_direction: Some(td), ..ms }
    } else {
        ms
    }
}

/// The snake's head: its cell and its direction state. Exactly one head
/// exists while a round is active.
#[derive(Clone, Copy, Debug)]
pub struct Head {
    pub position: Position,
    pub movement_status: MovementStatus,
}

} // verus!
