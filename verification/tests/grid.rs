use snake::Direction;
use snake::Position;

#[test]
fn opposite_is_involutive() {
    let dirs = [
        Direction::Left,
        Direction::Up,
        Direction::Right,
        Direction::Down,
    ];
    for d in dirs {
        assert_eq!(d.opposite().opposite(), d);
    }
}

#[test]
fn opposite_values() {
    assert_eq!(Direction::Left.opposite(), Direction::Right);
    assert_eq!(Direction::Right.opposite(), Direction::Left);
    assert_eq!(Direction::Up.opposite(), Direction::Down);
    assert_eq!(Direction::Down.opposite(), Direction::Up);
}

#[test]
fn step_moves_one_cell() {
    let p = Position { x: 4, y: 4 };
    assert_eq!(Direction::Left.step(p), Position { x: 3, y: 4 });
    assert_eq!(Direction::Right.step(p), Position { x: 5, y: 4 });
    assert_eq!(Direction::Up.step(p), Position { x: 4, y: 5 });
    assert_eq!(Direction::Down.step(p), Position { x: 4, y: 3 });
}

#[test]
fn bounds_of_arena() {
    assert!(Position { x: 0, y: 0 }.in_bounds());
    assert!(Position { x: 9, y: 9 }.in_bounds());
    assert!(!Position { x: 10, y: 5 }.in_bounds());
    assert!(!Position { x: 5, y: 10 }.in_bounds());
    assert!(!Position { x: -1, y: 5 }.in_bounds());
    assert!(!Position { x: 5, y: -1 }.in_bounds());
}
