use std::time::Duration;

use rust_snake::constants::{BASE_TICK_MS, BONUS_DURATION, BONUS_SPAWN_INTERVAL, MIN_TICK_MS};
use rust_snake::game::{BonusFood, Game, GameState, TickEvents};
use rust_snake::snake::{Direction, Position, Snake};

fn playing_game() -> Game {
    let mut game = Game::new(30, 20);
    game.start();
    game
}

fn interior(game: &Game, p: Position) -> bool {
    p.x >= 1 && p.x < game.width - 1 && p.y >= 1 && p.y < game.height - 1
}

#[test]
fn speed_curve_values() {
    let mut game = playing_game();
    assert_eq!(game.tick_millis(), BASE_TICK_MS);
    assert_eq!(game.level(), 1);
    game.score = 1;
    assert_eq!(game.tick_millis(), 195);
    assert_eq!(game.level(), 2);
    game.score = 10;
    assert_eq!(game.tick_millis(), 150);
    assert_eq!(game.level(), 11);
    game.score = 28;
    assert_eq!(game.tick_millis(), MIN_TICK_MS);
    assert_eq!(game.level(), 29);
    game.score = 1000;
    assert_eq!(game.tick_millis(), MIN_TICK_MS);
    assert_eq!(game.level(), 29);
    assert_eq!(game.tick_duration(), Duration::from_millis(MIN_TICK_MS));
}

#[test]
fn speed_never_slows_down_as_score_grows() {
    let mut game = playing_game();
    let mut previous = game.tick_millis();
    for score in 0..100 {
        game.score = score;
        let now = game.tick_millis();
        assert!(now <= previous);
        assert!(now >= MIN_TICK_MS && now <= BASE_TICK_MS);
        previous = now;
    }
}

#[test]
fn opposite_is_an_involution() {
    for d in [Direction::Up, Direction::Down, Direction::Left, Direction::Right] {
        assert_eq!(d.opposite().opposite(), d);
        assert_ne!(d.opposite(), d);
    }
}

#[test]
fn queue_is_bounded_and_never_reverses() {
    let mut snake = Snake::new(10, 10);
    snake.enqueue_direction(Direction::Right); // same heading: ignored
    snake.enqueue_direction(Direction::Left); // reversal: ignored
    assert!(snake.dir_queue.is_empty());
    snake.enqueue_direction(Direction::Up);
    snake.enqueue_direction(Direction::Down); // reverses the queued Up: ignored
    snake.enqueue_direction(Direction::Left);
    snake.enqueue_direction(Direction::Down); // queue is full
    assert_eq!(snake.dir_queue.len(), 2);
    let before = snake.direction;
    snake.apply_queued_direction();
    assert_eq!(snake.direction, Direction::Up);
    assert_ne!(snake.direction, before.opposite());
    snake.apply_queued_direction();
    assert_eq!(snake.direction, Direction::Left);
    snake.apply_queued_direction();
    assert_eq!(snake.direction, Direction::Left);
}

#[test]
fn change_direction_ignored_outside_play() {
    let mut game = Game::new(30, 20);
    game.change_direction(Direction::Up);
    assert!(game.snake.dir_queue.is_empty());
}

#[test]
fn eaten_food_respawns_on_a_free_interior_cell() {
    let mut game = playing_game();
    for _ in 0..20 {
        let head = *game.snake.head();
        game.food = Position::new(head.x + 1, head.y);
        game.bonus_food = None;
        let events = game.update();
        assert!(events.ate_food);
        assert!(interior(&game, game.food));
        assert!(!game.snake.body.iter().any(|s| *s == game.food));
        // turn around through the rows so the snake stays on the board
        if game.snake.head().x + 2 >= game.width - 1 {
            break;
        }
    }
}

#[test]
fn coherent_board_stays_coherent_while_playing() {
    let mut game = playing_game();
    let turns = [Direction::Up, Direction::Left, Direction::Down, Direction::Right];
    for tick in 0..200 {
        if tick % 3 == 0 {
            game.change_direction(turns[(tick / 3) % 4]);
        }
        game.update();
        if game.state != GameState::Playing {
            break;
        }
        let body: Vec<Position> = game.snake.body.iter().copied().collect();
        for (i, a) in body.iter().enumerate() {
            assert!(interior(&game, *a));
            for b in body.iter().skip(i + 1) {
                assert_ne!(a, b);
            }
        }
        assert!(interior(&game, game.food));
        assert!(!body.contains(&game.food));
        if let Some(b) = game.bonus_food {
            assert!(interior(&game, b.pos));
        }
    }
}

#[test]
fn death_animation_runs_six_frames_then_game_over() {
    let mut game = playing_game();
    game.set_game_over();
    assert_eq!(game.state, GameState::Dying(0));
    for frame in 1..=5u8 {
        let events = game.update();
        assert_eq!(game.state, GameState::Dying(frame));
        assert_eq!(events, TickEvents::default());
    }
    game.update();
    assert_eq!(game.state, GameState::GameOver);
}

#[test]
fn dying_records_high_score_and_drops_bonus() {
    let mut game = playing_game();
    game.score = 7;
    game.high_score = 3;
    game.bonus_food = Some(BonusFood { pos: Position::new(2, 2), ticks_remaining: 5 });
    game.set_game_over();
    assert_eq!(game.high_score, 7);
    assert!(game.bonus_food.is_none());
    let mut other = playing_game();
    other.score = 2;
    other.high_score = 9;
    other.set_game_over();
    assert_eq!(other.high_score, 9);
}

#[test]
fn wall_death_pushes_the_new_head() {
    let mut game = playing_game();
    game.snake = Snake::new(15, 1);
    game.snake.direction = Direction::Up;
    let events = game.update();
    assert!(events.died);
    assert_eq!(*game.snake.head(), Position::new(15, 0));
    assert_eq!(game.snake.body.len(), 4);
}

#[test]
fn win_keeps_food_and_raises_record() {
    let mut game = Game::new(4, 4);
    game.state = GameState::Playing;
    game.snake.body.clear();
    game.snake.body.push_back(Position::new(1, 1));
    game.snake.body.push_back(Position::new(2, 1));
    game.snake.body.push_back(Position::new(2, 2));
    game.food = Position::new(1, 2);
    game.snake.direction = Direction::Down;
    let events = game.update();
    assert!(events.ate_food);
    assert_eq!(game.state, GameState::Win);
    assert_eq!(game.score, 1);
    assert_eq!(game.high_score, 1);
    assert_eq!(game.food, Position::new(1, 2));
}

#[test]
fn bonus_counts_down_without_touching_the_spawn_counter() {
    let mut game = playing_game();
    game.food = Position::new(1, 1);
    game.ticks_since_bonus = 7;
    game.bonus_food = Some(BonusFood { pos: Position::new(3, 3), ticks_remaining: 4 });
    game.update();
    assert_eq!(game.bonus_food, Some(BonusFood { pos: Position::new(3, 3), ticks_remaining: 3 }));
    assert_eq!(game.ticks_since_bonus, 7);
}

#[test]
fn spawn_counter_advances_and_wraps() {
    let mut game = playing_game();
    game.food = Position::new(1, 1);
    game.ticks_since_bonus = 3;
    game.update();
    assert_eq!(game.ticks_since_bonus, 4);
    game.ticks_since_bonus = BONUS_SPAWN_INTERVAL - 1;
    game.update();
    assert_eq!(game.ticks_since_bonus, 0);
    if let Some(b) = game.bonus_food {
        assert_eq!(b.ticks_remaining, BONUS_DURATION);
        assert!(interior(&game, b.pos));
    }
}

#[test]
fn restart_makes_a_fresh_game_and_keeps_the_record() {
    let mut game = playing_game();
    game.score = 12;
    game.set_game_over();
    game.state = GameState::GameOver;
    game.restart(20, 15);
    assert_eq!(game.state, GameState::Playing);
    assert_eq!(game.score, 0);
    assert_eq!(game.high_score, 12);
    assert_eq!(game.width, 20);
    assert_eq!(game.height, 15);
    assert_eq!(*game.snake.head(), Position::new(10, 7));
    assert_eq!(game.snake.direction, Direction::Right);
    assert!(game.bonus_food.is_none());
    assert_eq!(game.ticks_since_bonus, 0);
}

#[test]
fn new_game_layout() {
    let game = Game::with_high_score(30, 20, 44);
    assert_eq!(game.high_score, 44);
    assert_eq!(game.score, 0);
    let body: Vec<Position> = game.snake.body.iter().copied().collect();
    assert_eq!(body, vec![Position::new(15, 10), Position::new(14, 10), Position::new(13, 10)]);
    assert_eq!(Game::new(30, 20).high_score, 0);
}

#[test]
fn tiny_board_without_room_keeps_food_at_origin() {
    let game = Game::new(8, 2);
    assert_eq!(game.food, Position::new(0, 0));
}

#[test]
fn free_cells_listed_in_column_order() {
    let mut game = Game::new(5, 5);
    game.snake.body.clear();
    game.snake.body.push_back(Position::new(2, 2));
    let cells = game.free_cells(Some(Position::new(1, 3)));
    assert_eq!(
        cells,
        vec![
            Position::new(1, 1),
            Position::new(1, 2),
            Position::new(2, 1),
            Position::new(2, 3),
            Position::new(3, 1),
            Position::new(3, 2),
            Position::new(3, 3),
        ]
    );
}

#[test]
fn resize_removes_bonus_outside_new_bounds() {
    let mut game = playing_game();
    game.snake = Snake::new(10, 7);
    game.food = Position::new(2, 2);
    game.bonus_food = Some(BonusFood { pos: Position::new(25, 15), ticks_remaining: 9 });
    game.resize(20, 15);
    assert!(game.bonus_food.is_none());
    assert_eq!(game.food, Position::new(2, 2));
}

#[test]
fn resize_while_paused_keeps_pause() {
    let mut game = playing_game();
    game.toggle_pause();
    game.resize(40, 30);
    assert_eq!(game.state, GameState::Paused);
    assert_eq!(game.width, 40);
}

#[test]
fn default_events_are_quiet() {
    let events = TickEvents::default();
    assert!(!events.ate_food && !events.ate_bonus && !events.died);
}

#[test]
fn speed_curve_holds_for_any_score() {
    let mut game = playing_game();
    game.score = usize::MAX;
    assert_eq!(game.tick_millis(), MIN_TICK_MS);
    assert_eq!(game.level(), 29);
    game.score = 27;
    assert_eq!(game.tick_millis(), 65);
}

#[test]
fn place_bonus_follows_the_draws() {
    let mut game = Game::new(6, 5);
    game.snake.body.clear();
    game.snake.body.push_back(Position::new(2, 2));
    game.food = Position::new(1, 1);
    let free = game.free_cells(Some(game.food));
    assert_eq!(free.len(), 10);
    assert_eq!(game.place_bonus(false, &free, 3), None);
    assert_eq!(
        game.place_bonus(true, &free, 3),
        Some(BonusFood { pos: free[3], ticks_remaining: BONUS_DURATION })
    );
    assert_eq!(
        game.place_bonus(true, &free, 13),
        Some(BonusFood { pos: free[3], ticks_remaining: BONUS_DURATION })
    );
    assert_eq!(game.place_bonus(true, &Vec::new(), 0), None);
}

#[test]
fn dying_advances_even_at_the_largest_score() {
    let mut game = playing_game();
    game.score = usize::MAX;
    game.set_game_over();
    game.update();
    assert_eq!(game.state, GameState::Dying(1));
}
