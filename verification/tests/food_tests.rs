use snaky::arena::{ArenaSize, Position};
use snaky::food::spawn_food;

#[test]
fn spawn_food_within_bounds() {
    // On an empty board the food lands on some cell of the arena.
    let arena = ArenaSize { width: 3, height: 3 };
    let occupied: Vec<Position> = Vec::new();
    let f = spawn_food(&arena, &occupied).expect("an empty board has room");
    assert!(f.position.x >= 0 && f.position.x < 3);
    assert!(f.position.y >= 0 && f.position.y < 3);
}

#[test]
fn spawn_food_avoids_occupied_cells() {
    let arena = ArenaSize { width: 4, height: 4 };
    let mut occupied: Vec<Position> = Vec::new();
    for x in 0..4 {
        for y in 0..3 {
            occupied.push(Position { x, y });
        }
    }
    // Only the bottom row is free.
    let f = spawn_food(&arena, &occupied).expect("the bottom row is free");
    assert_eq!(f.position.y, 3);
    assert!(!occupied.contains(&f.position));
}

#[test]
fn spawn_food_single_free_cell() {
    // With one free cell left, placement must find exactly that cell.
    let arena = ArenaSize { width: 2, height: 2 };
    let occupied = vec![
        Position { x: 0, y: 0 },
        Position { x: 1, y: 0 },
        Position { x: 0, y: 1 },
    ];
    let f = spawn_food(&arena, &occupied).expect("one cell is free");
    assert_eq!(f.position, Position { x: 1, y: 1 });
}

#[test]
fn spawn_food_full_board_returns_none() {
    // A completely covered board has nowhere to put food.
    let arena = ArenaSize { width: 2, height: 2 };
    let occupied = vec![
        Position { x: 0, y: 0 },
        Position { x: 1, y: 0 },
        Position { x: 0, y: 1 },
        Position { x: 1, y: 1 },
    ];
    assert!(spawn_food(&arena, &occupied).is_none());
}

#[test]
fn position_add_translates_componentwise() {
    let p = Position { x: 3, y: -2 };
    let q = Position { x: -1, y: 5 };
    assert_eq!(p.add(q), Position { x: 2, y: 3 });
}
