use snaky::arena::{ArenaSize, Position};
use snaky::food::Food;
use snaky::game::{EntityKind, Game, PressedKeys};
use snaky::snake::{Direction, Head, MovementStatus};

fn arena_10() -> ArenaSize {
    ArenaSize { width: 10, height: 10 }
}

fn keys(left: bool, right: bool, up: bool, down: bool) -> PressedKeys {
    PressedKeys { left, right, up, down }
}

fn place_food(g: &mut Game, x: i32, y: i32) {
    g.food = Some(Food { position: Position { x, y } });
}

#[test]
fn plain_move_first_tick() {
    // 10x10 arena; head spawns at (1,0) moving right, one body segment at
    // (0,0). One tick with no input: head (2,0), segment (1,0), score 0.
    let mut g = Game::new(arena_10());
    assert_eq!(g.head.position, Position { x: 1, y: 0 });
    assert_eq!(g.body.len(), 1);
    assert_eq!(g.body[0], Position { x: 0, y: 0 });
    place_food(&mut g, 5, 5);
    g.tick();
    assert_eq!(g.head.position, Position { x: 2, y: 0 });
    assert_eq!(g.body[0], Position { x: 1, y: 0 });
    assert_eq!(g.score(), 0);
    assert_eq!(g.game_over_signal(), None);
}

#[test]
fn eat_grows_and_scores() {
    // Food on the head's next cell: the tick eats it, the length counter
    // becomes 2 and the score 1.
    let mut g = Game::new(arena_10());
    place_food(&mut g, 2, 0);
    g.tick();
    assert_eq!(g.amount_body_parts().0, 2);
    assert_eq!(g.score(), 1);
    assert_eq!(g.game_over_signal(), None);
}

#[test]
fn food_respawn_avoids_snake() {
    // The eaten food is replaced on a cell the snake does not stand on.
    let mut g = Game::new(arena_10());
    place_food(&mut g, 2, 0);
    g.tick();
    let f = g.food.expect("food must be respawned on a nearly empty board");
    assert_ne!(f.position, g.head.position);
    for p in &g.body {
        assert_ne!(f.position, *p);
    }
    assert!(f.position.x >= 0 && f.position.x < 10);
    assert!(f.position.y >= 0 && f.position.y < 10);
}

#[test]
fn off_left_edge_resets_round() {
    // Drive the head to x = -1: game over fires with score 0, and the next
    // state is a fresh spawn.
    let mut g = Game::new(arena_10());
    place_food(&mut g, 9, 9);
    g.set_input(keys(false, false, false, true));
    g.tick(); // head (1,1), moving down
    assert_eq!(g.head.position, Position { x: 1, y: 1 });
    g.set_input(keys(true, false, false, false));
    g.tick(); // head (0,1), moving left
    assert_eq!(g.head.position, Position { x: 0, y: 1 });
    assert_eq!(g.game_over_signal(), None);
    g.tick(); // head steps to (-1,1): off the board
    assert_eq!(g.game_over_signal(), Some(0));
    assert_eq!(g.head.position, Position { x: 1, y: 0 });
    assert_eq!(g.body.len(), 1);
    assert_eq!(g.body[0], Position { x: 0, y: 0 });
    assert_eq!(g.score(), 0);
}

#[test]
fn same_tick_reversal_rejected() {
    // Pressing Left then Right in the same tick while moving right: the
    // committed direction stays Right and the head keeps moving right.
    let mut g = Game::new(arena_10());
    place_food(&mut g, 9, 9);
    g.set_input(keys(true, true, false, false));
    assert_eq!(g.head.movement_status.next_direction, Direction::Right);
    g.tick();
    assert_eq!(g.head.position, Position { x: 2, y: 0 });
}

#[test]
fn lone_reversal_is_ignored() {
    // Pressing only Left while moving right changes nothing: an instant
    // 180-degree turn would be an immediate collision.
    let mut g = Game::new(arena_10());
    place_food(&mut g, 9, 9);
    g.set_input(keys(true, false, false, false));
    assert_eq!(g.head.movement_status.next_direction, Direction::Right);
    assert_eq!(g.head.movement_status.buffer_direction, None);
    g.tick();
    assert_eq!(g.head.position, Position { x: 2, y: 0 });
}

#[test]
fn buffered_turn_applies_next_tick() {
    // Down commits for the next tick; Right, pressed before that tick runs,
    // is queued and takes over on the tick after it.
    let mut g = Game::new(arena_10());
    place_food(&mut g, 9, 9);
    g.set_input(keys(false, false, false, true));
    assert_eq!(g.head.movement_status.next_direction, Direction::Down);
    g.set_input(keys(false, true, false, false));
    assert_eq!(g.head.movement_status.next_direction, Direction::Down);
    assert_eq!(g.head.movement_status.buffer_direction, Some(Direction::Right));
    g.tick(); // steps down, promotes Right
    assert_eq!(g.head.position, Position { x: 1, y: 1 });
    assert_eq!(g.head.movement_status.next_direction, Direction::Right);
    assert_eq!(g.head.movement_status.buffer_direction, None);
    g.tick(); // steps right
    assert_eq!(g.head.position, Position { x: 2, y: 1 });
}

#[test]
fn movement_follows_the_chain() {
    // Each segment takes the cell its neighbour one order closer to the
    // head held before the tick; the first takes the head's previous cell.
    let mut g = Game::new(arena_10());
    place_food(&mut g, 2, 0);
    g.tick(); // eat: body [(1,0), (1,0)], head (2,0)
    place_food(&mut g, 3, 0);
    g.tick(); // eat again: body [(2,0), (1,0), (1,0)], head (3,0)
    assert_eq!(g.head.position, Position { x: 3, y: 0 });
    assert_eq!(g.body.len(), 3);
    assert_eq!(g.body[0], Position { x: 2, y: 0 });
    assert_eq!(g.body[1], Position { x: 1, y: 0 });
    assert_eq!(g.body[2], Position { x: 1, y: 0 });
    place_food(&mut g, 9, 9);
    g.tick(); // no eat: plain shift
    assert_eq!(g.head.position, Position { x: 4, y: 0 });
    assert_eq!(g.body[0], Position { x: 3, y: 0 });
    assert_eq!(g.body[1], Position { x: 2, y: 0 });
    assert_eq!(g.body[2], Position { x: 1, y: 0 });
}

#[test]
fn growth_fills_gap_next_tick() {
    // The new segment starts on the stretched tail's cell and stays put for
    // one tick while the rest of the chain moves on.
    let mut g = Game::new(arena_10());
    place_food(&mut g, 2, 0);
    g.tick();
    // New tail shares the old tail's cell right after the eat...
    assert_eq!(g.body[0], g.body[1]);
    place_food(&mut g, 9, 9);
    g.tick();
    // ...and one tick later the chain is gapless and duplicate-free.
    assert_eq!(g.body[0], Position { x: 2, y: 0 });
    assert_eq!(g.body[1], Position { x: 1, y: 0 });
    assert_ne!(g.body[0], g.body[1]);
}

#[test]
fn segment_orders_contiguous() {
    // The reported orders run 1, 2, ..., length with no gap or duplicate.
    let mut g = Game::new(arena_10());
    place_food(&mut g, 2, 0);
    g.tick();
    place_food(&mut g, 3, 0);
    g.tick();
    let entries = g.positions();
    let mut orders: Vec<usize> = Vec::new();
    for (kind, _) in &entries {
        if let EntityKind::BodySegment(order) = kind {
            orders.push(*order);
        }
    }
    assert_eq!(orders, vec![1, 2, 3]);
    assert_eq!(orders.len(), g.amount_body_parts().0);
}

#[test]
fn positions_lists_head_body_food() {
    let mut g = Game::new(arena_10());
    place_food(&mut g, 7, 3);
    let entries = g.positions();
    assert_eq!(entries.len(), 3);
    assert_eq!(entries[0], (EntityKind::Head, Position { x: 1, y: 0 }));
    assert_eq!(entries[1], (EntityKind::BodySegment(1), Position { x: 0, y: 0 }));
    assert_eq!(entries[2], (EntityKind::Food, Position { x: 7, y: 3 }));
}

#[test]
fn wall_top_edge_ends_round() {
    // Head exactly on y = -1 yields game over on that tick.
    let mut g = Game::new(arena_10());
    place_food(&mut g, 9, 9);
    g.set_input(keys(false, false, true, false));
    g.tick(); // head steps from (1,0) to (1,-1)
    assert_eq!(g.game_over_signal(), Some(0));
    assert_eq!(g.head.position, Position { x: 1, y: 0 });
}

#[test]
fn wall_right_edge_ends_round() {
    // Head exactly on x = width yields game over on that tick.
    let mut g = Game::new(arena_10());
    place_food(&mut g, 9, 9);
    for _ in 0..8 {
        g.tick();
        assert_eq!(g.game_over_signal(), None);
    }
    assert_eq!(g.head.position, Position { x: 9, y: 0 });
    g.tick(); // head steps to (10,0): x = width
    assert_eq!(g.game_over_signal(), Some(0));
}

#[test]
fn wall_bottom_edge_ends_round() {
    // Head exactly on y = height yields game over on that tick.
    let mut g = Game::new(arena_10());
    place_food(&mut g, 9, 9);
    g.set_input(keys(false, false, false, true));
    for _ in 0..9 {
        g.tick();
        assert_eq!(g.game_over_signal(), None);
    }
    assert_eq!(g.head.position, Position { x: 1, y: 9 });
    g.tick(); // head steps to (1,10): y = height
    assert_eq!(g.game_over_signal(), Some(0));
}

#[test]
fn self_collision_ends_round() {
    // A head stepping onto a cell a body segment moves into ends the round
    // with the current score.
    let g0 = Game {
        arena: arena_10(),
        head: Head {
            position: Position { x: 5, y: 5 },
            movement_status: MovementStatus {
                current_direction: Direction::Right,
                next_direction: Direction::Right,
                buffer_direction: None,
            },
        },
        body: vec![Position { x: 6, y: 5 }, Position { x: 6, y: 6 }],
        food: Some(Food { position: Position { x: 9, y: 9 } }),
        game_over: None,
    };
    let mut g = g0;
    g.tick(); // moved head (6,5) meets the shifted first segment's old cell
    assert_eq!(g.game_over_signal(), Some(1));
    assert_eq!(g.head.position, Position { x: 1, y: 0 });
    assert_eq!(g.score(), 0);
}

#[test]
fn game_over_signal_reads_once() {
    // The signal is edge-triggered: reading it clears it.
    let mut g = Game::new(arena_10());
    place_food(&mut g, 9, 9);
    g.set_input(keys(false, false, true, false));
    g.tick();
    assert_eq!(g.game_over_signal(), Some(0));
    assert_eq!(g.game_over_signal(), None);
}

#[test]
fn new_food_in_bounds_and_free() {
    // A fresh round has exactly one food, inside the arena and off the
    // snake's two spawn cells.
    let g = Game::new(arena_10());
    let f = g.food.expect("a fresh round has food");
    assert!(f.position.x >= 0 && f.position.x < 10);
    assert!(f.position.y >= 0 && f.position.y < 10);
    assert_ne!(f.position, Position { x: 1, y: 0 });
    assert_ne!(f.position, Position { x: 0, y: 0 });
    let foods = g
        .positions()
        .into_iter()
        .filter(|(kind, _)| *kind == EntityKind::Food)
        .count();
    assert_eq!(foods, 1);
}
