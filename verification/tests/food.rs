use snake::Direction;
use snake::GameState;
use snake::Position;

fn state_with(segments: Vec<Position>, food: Option<Position>) -> GameState {
    GameState {
        segments,
        pending_direction: Direction::Up,
        last_direction: Direction::Up,
        last_tail_position: None,
        food,
    }
}

#[test]
fn free_cells_excludes_occupied_cells() {
    let s = GameState::new();
    let free = s.free_cells();
    assert_eq!(free.len(), 98);
    assert!(!free.contains(&Position { x: 3, y: 3 }));
    assert!(!free.contains(&Position { x: 3, y: 2 }));

    let with_food = state_with(s.segments.clone(), Some(Position { x: 7, y: 7 }));
    assert_eq!(with_food.free_cells().len(), 97);
}

#[test]
fn food_never_lands_on_the_snake() {
    let mut s = GameState::new();
    s.food_tick();
    let food = s.food.expect("a mostly empty arena must receive food");
    assert!(food.in_bounds());
    assert!(!s.segments.contains(&food));
}

#[test]
fn existing_food_makes_the_tick_a_no_op() {
    let mut s = state_with(
        vec![Position { x: 3, y: 3 }, Position { x: 3, y: 2 }],
        Some(Position { x: 5, y: 5 }),
    );
    s.food_tick();
    assert_eq!(s.food, Some(Position { x: 5, y: 5 }));
}

#[test]
fn single_free_cell_receives_the_food() {
    let mut segments = Vec::new();
    for x in 0..10 {
        for y in 0..10 {
            if !(x == 7 && y == 7) {
                segments.push(Position { x, y });
            }
        }
    }
    let mut s = state_with(segments, None);
    s.food_tick();
    assert_eq!(s.food, Some(Position { x: 7, y: 7 }));
}

#[test]
fn full_arena_gets_no_food() {
    let mut segments = Vec::new();
    for x in 0..10 {
        for y in 0..10 {
            segments.push(Position { x, y });
        }
    }
    let mut s = state_with(segments, None);
    s.food_tick();
    assert_eq!(s.food, None);
}

#[test]
fn occupied_sees_segments_and_food() {
    let s = state_with(
        vec![Position { x: 3, y: 3 }, Position { x: 3, y: 2 }],
        Some(Position { x: 5, y: 5 }),
    );
    assert!(s.occupied(Position { x: 3, y: 3 }));
    assert!(s.occupied(Position { x: 5, y: 5 }));
    assert!(!s.occupied(Position { x: 0, y: 0 }));
}
