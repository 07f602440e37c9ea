use vstd::pervasive::VecAdditionalExecFns;
use vstd::prelude::*;

use crate::arena::{in_bounds, ArenaSize, Position};
use crate::food::{contains_pos, spawn_food, Food};
use crate::snake::{
    advance_status, apply_pressed, candidate_step, lemma_advance_preserves_wf, lemma_reversal_rule,
    ms_wf, Direction, Head, MovementStatus,
};

verus! {

/// The snake's length counter: number of body segments (the head is not
/// counted). The score shown to the player is this number minus one.
#[derive(Clone, Copy, PartialEq, Eq, Structural, Debug)]
pub struct AmountBodyParts(pub usize);

/// What an entry of `positions` describes: the head, one body segment with
/// its 1-based order (1 is adjacent to the head), or the food.
#[derive(Clone, Copy, PartialEq, Eq, Structural, Debug)]
pub enum EntityKind {
    Head,
    BodySegment(usize),
    Food,
}

/// The set of movement keys held during one tick.
#[derive(Clone, Copy, PartialEq, Eq, Structural, Debug)]
pub struct PressedKeys {
    pub left: bool,
    pub right: bool,
    pub up: bool,
    pub down: bool,
}

/// The whole simulation state of one round: arena bounds, the head, the
/// ordered body (index `i` holds the segment of order `i + 1`), at most one
/// food item, and the game-over signal left by the latest tick.
pub struct Game {
    pub arena: ArenaSize,
    pub head: Head,
    pub body: Vec<Position>,
    pub food: Option<Food>,
    pub game_over: Option<usize>,
}

/// The body after one movement step: the segment next to the head takes the
/// head's previous cell, and every other segment takes the cell of the
/// segment one order closer to the head.
pub open spec fn shifted_body(body: Seq<Position>, head_prev: Position) -> Seq<Position> {
    Seq::new(body.len(), |i: int| if i == 0 { head_prev } else { body[i - 1] })
}

/// Whether the snake (head or some body segment) stands on `p`.
pub open spec fn occupies(head: Position, body: Seq<Position>, p: Position) -> bool {
    p == head || body.contains(p)
}

impl Game {
    /// Well-formedness of a game state: valid arena, at least one body
    /// segment, a direction state that commits no reversal, and every snake
    /// and food cell inside the arena.
    pub open spec fn wf(self) -> bool {
        &&& self.arena.wf()
        &&& 1 <= self.body@.len()
        &&& ms_wf(self.head.movement_status)
        &&& in_bounds(self.arena, self.head.position)
        &&& (forall|i: int| 0 <= i < self.body@.len() ==> in_bounds(self.arena, #[trigger] self.body@[i]))
        &&& (self.food matches Some(f) ==> in_bounds(self.arena, f.position))
    }

    /// The direction the head will use on the coming tick.
    pub open spec fn committed_direction(self) -> Direction {
        self.head.movement_status.next_direction
    }

    /// Where the head stands after the coming tick's movement step.
    pub open spec fn moved_head(self) -> Position {
        self.head.position.spec_add(self.committed_direction().spec_delta())
    }

    /// The body after the coming tick's movement step.
    pub open spec fn body_after_move(self) -> Seq<Position> {
        shifted_body(self.body@, self.head.position)
    }

    /// Whether the coming tick's movement step lands the head on the food.
    pub open spec fn ate(self) -> bool {
        self.food matches Some(f) && self.moved_head() == f.position
    }

    /// The body after the coming tick's movement and growth: an eat appends
    /// one segment on the cell of the tail it stretches from.
    pub open spec fn body_after_grow(self) -> Seq<Position> {
        if self.ate() {
            self.body_after_move().push(self.body_after_move().last())
        } else {
            self.body_after_move()
        }
    }

    /// Whether the coming tick ends the round: the moved head leaves the
    /// arena or lands on a body segment.
    pub open spec fn game_over_now(self) -> bool {
        !in_bounds(self.arena, self.moved_head()) || self.body_after_grow().contains(
            self.moved_head(),
        )
    }

    /// The score a game-over on the coming tick carries: segments after
    /// growth, minus one.
    pub open spec fn final_score(self) -> int {
        self.body_after_grow().len() - 1
    }

    /// The state every round starts from: head on (1, 0) moving right with
    /// nothing queued, one body segment of order 1 on (0, 0).
    pub open spec fn fresh_spawn(self) -> bool {
        &&& self.head.position == (Position { x: 1, y: 0 })
        &&& self.head.movement_status == (MovementStatus {
            current_direction: Direction::Right,
            next_direction: Direction::Right,
            buffer_direction: None,
        })
        &&& self.body@ == seq![Position { x: 0, y: 0 }]
    }

    /// Starts a round on the given arena: the fresh spawn state, with one
    /// food item placed on a free cell.
    pub fn new(arena: ArenaSize) -> (g: Game)
        requires
            arena.wf(),
        ensures
            g.wf(),
            g.arena == arena,
            g.fresh_spawn(),
            g.game_over is None,
            (g.food matches Some(f) && in_bounds(arena, f.position) && f.position != (Position {
                x: 1,
                y: 0,
            }) && f.position != (Position { x: 0, y: 0 })),
    {
        let head = Head {
            position: Position { x: 1, y: 0 },
            movement_status: MovementStatus {
                current_direction: Direction::Right,
                next_direction: Direction::Right,
                buffer_direction: None,
            },
        };
        let mut body: Vec<Position> = Vec::new();
        body.push(Position { x: 0, y: 0 });
        let mut occupied: Vec<Position> = Vec::new();
        occupied.push(Position { x: 1, y: 0 });
        occupied.push(Position { x: 0, y: 0 });
        let food = spawn_food(&arena, &occupied);
        proof {
            assert(body@ =~= seq![Position { x: 0, y: 0 }]);
            assert(occupied@[0] == (Position { x: 1, y: 0 }));
            assert(occupied@[1] == (Position { x: 0, y: 0 }));
            assert(occupied@.contains(Position { x: 1, y: 0 }));
            assert(occupied@.contains(Position { x: 0, y: 0 }));
            if food is None {
                // The arena holds a third cell beyond the two spawn cells,
                // so a failed placement would contradict its own contract.
                assert(arena.height == 1 ==> arena.width >= 3) by (nonlinear_arith)
                    requires
                        arena.wf(),
                ;
                let w = if arena.height >= 2 {
                    Position { x: 0, y: 1 }
                } else {
                    Position { x: 2, y: 0 }
                };
                assert(in_bounds(arena, w));
                assert(occupied@.contains(w));
                let k = choose|k: int| 0 <= k < occupied@.len() && occupied@[k] == w;
                assert(false);
            }
        }
        Game { arena, head, body, food, game_over: None }
    }

    /// Consumes the pressed-key set sampled for this tick, in the fixed
    /// priority order Left, Right, Up, Down, mutating only the head's
    /// direction state by the input-buffer rule.
    pub fn set_input(&mut self, pressed: PressedKeys)
        requires
            old(self).wf(),
        ensures
            final(self).wf(),
            final(self).head.movement_status == apply_pressed(
                old(self).head.movement_status,
                pressed.left,
                pressed.right,
                pressed.up,
                pressed.down,
            ),
            final(self).head.position == old(self).head.position,
            final(self).arena == old(self).arena,
            final(self).body@ == old(self).body@,
            final(self).food == old(self).food,
            final(self).game_over == old(self).game_over,
    {
        proof {
            lemma_reversal_rule(
                old(self).head.movement_status,
                pressed.left,
                pressed.right,
                pressed.up,
                pressed.down,
            );
        }
        if pressed.left {
            self.head.movement_status = candidate_step(self.head.movement_status, Direction::Left);
        }
        if pressed.right {
            self.head.movement_status = candidate_step(self.head.movement_status, Direction::Right);
        }
        if pressed.up {
            self.head.movement_status = candidate_step(self.head.movement_status, Direction::Up);
        }
        if pressed.down {
            self.head.movement_status = candidate_step(self.head.movement_status, Direction::Down);
        }
    }

    /// Advances the round by exactly one step, in the fixed order: move the
    /// head one cell in the committed direction and shift the body after it;
    /// eat the food if the head landed on it; grow one segment on the tail's
    /// cell per eat; on a wall or body collision end the round, leaving the
    /// final score in the game-over signal and the fresh spawn state with a
    /// new food behind; otherwise replace an eaten food on a free cell
    /// (which can fail only on a completely covered board).
    pub fn tick(&mut self)
        requires
            old(self).wf(),
            old(self).food is Some,
        ensures
            final(self).wf(),
            final(self).arena == old(self).arena,
            old(self).game_over_now() ==> {
                &&& final(self).fresh_spawn()
                &&& final(self).game_over == Some(old(self).final_score() as usize)
                &&& (final(self).food matches Some(f) && in_bounds(old(self).arena, f.position)
                    && f.position != (Position { x: 1, y: 0 }) && f.position != (Position {
                    x: 0,
                    y: 0,
                }))
            },
            !old(self).game_over_now() ==> {
                &&& final(self).game_over is None
                &&& final(self).head.position == old(self).moved_head()
                &&& final(self).head.movement_status == advance_status(
                    old(self).head.movement_status,
                )
                &&& final(self).body@ == old(self).body_after_grow()
                &&& (!old(self).ate() ==> final(self).food == old(self).food)
                &&& (old(self).ate() ==> {
                    &&& (final(self).food matches Some(f) ==> in_bounds(old(self).arena, f.position)
                        && !occupies(old(self).moved_head(), old(self).body_after_grow(), f.position))
                    &&& (final(self).food is None ==> forall|p: Position|
                        in_bounds(old(self).arena, p) ==> occupies(
                            old(self).moved_head(),
                            old(self).body_after_grow(),
                            p,
                        ))
                })
            },
    {
        proof {
            lemma_advance_preserves_wf(old(self).head.movement_status);
        }
        // Movement: step the head, promote a queued direction, record the
        // direction just used, and shift the body.
        let head_prev = self.head.position;
        let dir = self.head.movement_status.next_direction;
        let step = dir.delta();
        let moved = head_prev.add(step);
        self.head.position = moved;
        let ms = self.head.movement_status;
        let promoted = match ms.buffer_direction {
            Some(d) => d,
            None => ms.next_direction,
        };
        self.head.movement_status = MovementStatus {
            current_direction: promoted,
            next_direction: promoted,
            buffer_direction: None,
        };
        shift_body(&mut self.body, head_prev);
        // Eat: the moved head on the food consumes it.
        let mut ate = false;
        match &self.food {
            Some(f) => {
                if f.position == moved {
                    ate = true;
                }
            },
            None => {},
        }
        // Grow: one new tail segment per eat, on the cell of the segment it
        // stretches from.
        if ate {
            self.food = None;
            let last = self.body[self.body.len() - 1];
            self.body.push(last);
        }
        // Collision: the moved head off the board or on a body segment ends
        // the round.
        let wall = moved.x < 0 || moved.y < 0 || moved.x >= self.arena.width || moved.y
            >= self.arena.height;
        let hits = contains_pos(&self.body, moved);
        if wall || hits {
            let score = self.body.len() - 1;
            let arena = self.arena;
            *self = Game::new(arena);
            self.game_over = Some(score);
        } else {
            self.game_over = None;
            if ate {
                let occ = occupied_cells(self.head.position, &self.body);
                match spawn_food(&self.arena, &occ) {
                    Some(f) => {
                        self.food = Some(f);
                    },
                    None => {},
                }
            }
        }
    }

    /// Lists, for the renderer, what stands where at this tick boundary:
    /// the head first, then each body segment with its order (the orders run
    /// contiguously from 1 up to the body's length), then the food if one
    /// exists.
    pub fn positions(&self) -> (r: Vec<(EntityKind, Position)>)
        ensures
            r@.len() == 1 + self.body@.len() + (if self.food is Some {
                1int
            } else {
                0int
            }),
            r@[0] == (EntityKind::Head, self.head.position),
            forall|i: int|
                0 <= i < self.body@.len() ==> r@[i + 1] == (
                    EntityKind::BodySegment((i + 1) as usize),
                    self.body@[i],
                ),
            (self.food matches Some(f) ==> r@[r@.len() - 1] == (EntityKind::Food, f.position)),
            forall|i: int, j: int|
                1 <= i < j <= self.body@.len() ==> r@[i].0 != r@[j].0,
    {
        let mut r: Vec<(EntityKind, Position)> = Vec::new();
        r.push((EntityKind::Head, self.head.position));
        let mut i: usize = 0;
        while i < self.body.len()
            invariant
                0 <= i <= self.body@.len(),
                r@.len() == 1 + i,
                r@[0] == (EntityKind::Head, self.head.position),
                forall|j: int|
                    0 <= j < i ==> r@[j + 1] == (
                        EntityKind::BodySegment((j + 1) as usize),
                        self.body@[j],
                    ),
            decreases self.body@.len() - i,
        {
            let p = self.body[i];
            r.push((EntityKind::BodySegment(i + 1), p));
            i += 1;
        }
        match &self.food {
            Some(f) => {
                r.push((EntityKind::Food, f.position));
            },
            None => {},
        }
        proof {
            assert forall|a: int, b: int|
                1 <= a < b <= self.body@.len() implies r@[a].0 != r@[b].0 by {
                assert(r@[a] == (EntityKind::BodySegment(a as usize), self.body@[a - 1]));
                assert(r@[b] == (EntityKind::BodySegment(b as usize), self.body@[b - 1]));
            }
        }
        r
    }

    /// The length counter: body segments, head not counted.
    pub fn amount_body_parts(&self) -> (r: AmountBodyParts)
        requires
            self.wf(),
        ensures
            r.0 == self.body@.len(),
    {
        AmountBodyParts(self.body.len())
    }

    /// The score shown to the player: the length counter minus one.
    pub fn score(&self) -> (r: usize)
        requires
            self.wf(),
        ensures
            r == self.body@.len() - 1,
    {
        self.body.len() - 1
    }

    /// Reads the game-over signal the latest tick left, clearing it: the
    /// signal is edge-triggered and carries the ended round's final score.
    pub fn game_over_signal(&mut self) -> (r: Option<usize>)
        ensures
            r == old(self).game_over,
            final(self).game_over is None,
            final(self).arena == old(self).arena,
            final(self).head == old(self).head,
            final(self).body@ == old(self).body@,
            final(self).food == old(self).food,
    {
        let r = self.game_over;
        self.game_over = None;
        r
    }
}

/// Segment ordering invariant: orders reported as `i + 1` for positions
/// `0 <= i < n` — as `positions` reports them — are exactly the values 1 up
/// to the length counter `n`: each within range, no two equal, none missing.
pub proof fn lemma_segment_ordering(orders: Seq<usize>, n: usize)
    requires
        orders.len() == n,
        forall|i: int| 0 <= i < n ==> #[trigger] orders[i] == i + 1,
    ensures
        forall|i: int| 0 <= i < n ==> 1 <= #[trigger] orders[i] <= n,
        forall|i: int, j: int| 0 <= i < j < n ==> orders[i] != orders[j],
        forall|k: usize| 1 <= k <= n ==> orders.contains(k),
{
    assert forall|k: usize| 1 <= k <= n implies orders.contains(k) by {
        assert(orders[k - 1] == k);
    }
}

/// Movement consistency: after a move, the first body segment holds the
/// head's previous cell, and every further segment holds the cell the
/// segment one order closer to the head held immediately before the move.
pub proof fn lemma_movement_consistency(body: Seq<Position>, head_prev: Position)
    ensures
        shifted_body(body, head_prev).len() == body.len(),
        body.len() >= 1 ==> shifted_body(body, head_prev)[0] == head_prev,
        forall|i: int| 1 <= i < body.len() ==> shifted_body(body, head_prev)[i] == body[i - 1],
{
}

/// Growth latency: one eat event grows the body by exactly one segment and
/// leaves the length counter alone otherwise; the new segment starts on the
/// cell of the tail it stretches from (the gap the next movement step fills).
pub proof fn lemma_growth(g: Game)
    requires
        g.wf(),
    ensures
        g.ate() ==> g.body_after_grow().len() == g.body@.len() + 1,
        g.ate() ==> g.body_after_grow().last() == g.body_after_move().last(),
        !g.ate() ==> g.body_after_grow() == g.body_after_move(),
        g.body_after_move().len() == g.body@.len(),
{
}

/// Wall boundary: a moved head exactly on the lines x = -1, y = -1,
/// x = width or y = height stands outside the arena, so that tick ends the
/// round.
pub proof fn lemma_wall_boundary(g: Game)
    requires
        g.wf(),
        g.moved_head().x == -1 || g.moved_head().y == -1 || g.moved_head().x == g.arena.width
            || g.moved_head().y == g.arena.height,
    ensures
        g.game_over_now(),
{
}

/// Moves every body segment one step along the chain: the first segment
/// takes the head's previous cell, each further one the cell of its
/// neighbour one order closer to the head. Old positions are read before
/// they are overwritten by walking from the tail toward the head.
fn shift_body(body: &mut Vec<Position>, head_prev: Position)
    requires
        1 <= old(body)@.len(),
    ensures
        final(body)@ == shifted_body(old(body)@, head_prev),
{
    let ghost orig = body@;
    let mut i: usize = body.len() - 1;
    while 1 <= i
        invariant
            body@.len() == orig.len(),
            0 <= i < body@.len(),
            forall|j: int| i < j < body@.len() ==> body@[j] == orig[j - 1],
            forall|j: int| 0 <= j <= i ==> body@[j] == orig[j],
        decreases i,
    {
        let prev = body[i - 1];
        body.set(i, prev);
        i -= 1;
    }
    body.set(0, head_prev);
    proof {
        assert(body@ =~= shifted_body(orig, head_prev));
    }
}

/// Collects the cells the snake stands on: the head's cell followed by
/// every body segment's cell.
fn occupied_cells(head: Position, body: &Vec<Position>) -> (r: Vec<Position>)
    ensures
        forall|p: Position| #[trigger] r@.contains(p) <==> occupies(head, body@, p),
{
    let mut r: Vec<Position> = Vec::new();
    r.push(head);
    let mut i: usize = 0;
    while i < body.len()
        invariant
            0 <= i <= body@.len(),
            r@.len() == 1 + i,
            r@[0] == head,
            forall|j: int| 0 <= j < i ==> r@[j + 1] == body@[j],
        decreases body@.len() - i,
    {
        let b = body[i];
        r.push(b);
        i += 1;
    }
    proof {
        assert forall|p: Position| #[trigger] r@.contains(p) <==> occupies(head, body@, p) by {
            if r@.contains(p) {
                let k = choose|k: int| 0 <= k < r@.len() && r@[k] == p;
                if k == 0 {
                    assert(p == head);
                } else {
                    assert(body@[k - 1] == p);
                    assert(body@.contains(p));
                }
            }
            if occupies(head, body@, p) {
                if p == head {
                    assert(r@[0] == p);
                    assert(r@.contains(p));
                } else {
                    let k = choose|k: int| 0 <= k < body@.len() && body@[k] == p;
                    assert(r@[k + 1] == p);
                    assert(r@.contains(p));
                }
            }
        }
    }
    r
}

} // verus!
