use rust_snake::snake::{Direction, Position, Snake, INITIAL_LENGTH};

#[test]
fn snake_initial_length() {
    let snake = Snake::new(10, 10);
    assert_eq!(snake.body.len(), INITIAL_LENGTH as usize);
}

#[test]
fn snake_head_position() {
    let snake = Snake::new(10, 10);
    assert_eq!(*snake.head(), Position::new(10, 10));
}

#[test]
fn snake_initial_direction() {
    let snake = Snake::new(10, 10);
    assert_eq!(snake.direction, Direction::Right);
}

#[test]
fn direction_opposite() {
    assert_eq!(Direction::Up.opposite(), Direction::Down);
    assert_eq!(Direction::Down.opposite(), Direction::Up);
    assert_eq!(Direction::Left.opposite(), Direction::Right);
    assert_eq!(Direction::Right.opposite(), Direction::Left);
}

#[test]
fn direction_not_self_opposite() {
    assert_ne!(Direction::Up.opposite(), Direction::Up);
    assert_ne!(Direction::Left.opposite(), Direction::Left);
}
