use rust_snake::constants::{BONUS_POINTS, BONUS_SPAWN_INTERVAL, MIN_TICK_MS};
use rust_snake::game::{BonusFood, Game, GameState};
use rust_snake::snake::{Direction, Position, Snake};

fn test_game() -> Game {
    let mut game = Game::new(30, 20);
    game.state = GameState::Playing;
    game
}

#[test]
fn new_game_starts_in_menu() {
    let game = Game::new(30, 20);
    assert_eq!(game.state, GameState::Menu);
}

#[test]
fn food_spawns_inside_board() {
    let game = Game::new(30, 20);
    assert!(game.food.x > 0 && game.food.x < 29);
    assert!(game.food.y > 0 && game.food.y < 19);
}

#[test]
fn food_not_on_snake() {
    let game = Game::new(30, 20);
    assert!(!game.snake.body.iter().any(|s| *s == game.food));
}

#[test]
fn direction_reversal_blocked() {
    let mut game = test_game();
    game.change_direction(Direction::Left);
    // Queue rejects the 180-degree reversal entirely
    assert!(game.snake.dir_queue.is_empty());
}

#[test]
fn direction_change_allowed() {
    let mut game = test_game();
    game.change_direction(Direction::Up);
    assert_eq!(game.snake.dir_queue.front(), Some(&Direction::Up));
}

#[test]
fn rapid_direction_changes_queued() {
    let mut game = test_game();
    // Snake faces Right; queue Up then Left (valid L-turn sequence)
    game.change_direction(Direction::Up);
    game.change_direction(Direction::Left);
    assert_eq!(game.snake.dir_queue.len(), 2);
}

#[test]
fn wall_collision_triggers_dying() {
    let mut game = test_game();
    game.snake = Snake::new(15, 1);
    game.snake.direction = Direction::Up;
    game.update();
    assert!(matches!(game.state, GameState::Dying(_)));
}

#[test]
fn eating_food_increases_score() {
    let mut game = test_game();
    let head = *game.snake.head();
    game.food = Position::new(head.x + 1, head.y);
    game.snake.direction = Direction::Right;
    game.update();
    assert_eq!(game.score, 1);
}

#[test]
fn eating_food_grows_snake() {
    let mut game = test_game();
    let head = *game.snake.head();
    game.food = Position::new(head.x + 1, head.y);
    game.snake.direction = Direction::Right;
    let old_len = game.snake.body.len();
    game.update();
    assert_eq!(game.snake.body.len(), old_len + 1);
}

#[test]
fn tick_duration_decreases_with_score() {
    let mut game = test_game();
    let base = game.tick_duration();
    game.score = 10;
    assert!(game.tick_duration() < base);
}

#[test]
fn tick_duration_has_minimum() {
    let mut game = test_game();
    game.score = 1000;
    assert!(game.tick_duration().as_millis() >= MIN_TICK_MS as u128);
}

#[test]
fn high_score_preserved_on_restart() {
    let mut game = test_game();
    game.score = 5;
    game.set_game_over();
    game.state = GameState::GameOver;
    game.restart(30, 20);
    assert_eq!(game.high_score, 5);
    assert_eq!(game.score, 0);
}

#[test]
fn pause_toggle() {
    let mut game = test_game();
    game.toggle_pause();
    assert_eq!(game.state, GameState::Paused);
    game.toggle_pause();
    assert_eq!(game.state, GameState::Playing);
}

#[test]
fn cannot_pause_during_game_over() {
    let mut game = test_game();
    game.state = GameState::GameOver;
    game.toggle_pause();
    assert_eq!(game.state, GameState::GameOver);
}

#[test]
fn self_collision_triggers_dying() {
    let mut game = test_game();
    // Build a U-shape: head at (5,5) facing right, body loops back via (6,5)
    game.snake.body.clear();
    game.snake.body.push_back(Position::new(5, 5));
    game.snake.body.push_back(Position::new(4, 5));
    game.snake.body.push_back(Position::new(4, 6));
    game.snake.body.push_back(Position::new(5, 6));
    game.snake.body.push_back(Position::new(6, 6));
    game.snake.body.push_back(Position::new(6, 5));
    game.snake.direction = Direction::Right;
    game.update();
    assert!(matches!(game.state, GameState::Dying(_)));
}

// ── Bonus food tests ───────────────────────────────────────────────

#[test]
fn bonus_food_spawns_after_interval() {
    let mut game = test_game();
    // Fast-forward ticks_since_bonus to just before the threshold
    game.ticks_since_bonus = BONUS_SPAWN_INTERVAL - 1;
    // Run many updates to give the 40% random chance a fair shot
    // We place food far away so the snake doesn't eat it
    game.food = Position::new(1, 1);
    game.snake = Snake::new(15, 10);
    let mut bonus_appeared = false;
    for _ in 0..100 {
        game.ticks_since_bonus = BONUS_SPAWN_INTERVAL - 1;
        game.bonus_food = None;
        game.update();
        if game.bonus_food.is_some() {
            bonus_appeared = true;
            break;
        }
    }
    assert!(
        bonus_appeared,
        "Bonus food should eventually spawn after interval"
    );
}

#[test]
fn bonus_food_decays_over_ticks() {
    let mut game = test_game();
    game.food = Position::new(1, 1);
    game.snake = Snake::new(15, 10);
    game.bonus_food = Some(BonusFood {
        pos: Position::new(3, 3),
        ticks_remaining: 2,
    });
    game.update(); // ticks_remaining: 2 → 1
    assert!(game.bonus_food.is_some());
    game.update(); // ticks_remaining: 1 → 0
    assert!(game.bonus_food.is_some());
    game.update(); // ticks_remaining == 0, removed
    assert!(
        game.bonus_food.is_none(),
        "Bonus food should disappear after its duration"
    );
}

#[test]
fn bonus_food_does_not_overlap_snake_or_food() {
    let mut game = test_game();
    game.ticks_since_bonus = BONUS_SPAWN_INTERVAL - 1;
    game.food = Position::new(1, 1);
    game.snake = Snake::new(15, 10);
    // Run several updates until bonus spawns
    for _ in 0..200 {
        game.ticks_since_bonus = BONUS_SPAWN_INTERVAL - 1;
        game.bonus_food = None;
        game.update();
        if let Some(ref bonus) = game.bonus_food {
            assert_ne!(bonus.pos, game.food, "Bonus should not overlap food");
            assert!(
                !game.snake.body.iter().any(|seg| *seg == bonus.pos),
                "Bonus should not overlap snake"
            );
            return;
        }
    }
    panic!("Bonus food never spawned in 200 attempts");
}

#[test]
fn eating_bonus_food_awards_bonus_points() {
    let mut game = test_game();
    let head = *game.snake.head();
    let bonus_pos = Position::new(head.x + 1, head.y);
    game.food = Position::new(1, 1); // far away
    game.bonus_food = Some(BonusFood {
        pos: bonus_pos,
        ticks_remaining: 10,
    });
    game.snake.direction = Direction::Right;
    game.update();
    assert_eq!(
        game.score, BONUS_POINTS,
        "Eating bonus food should award BONUS_POINTS"
    );
    assert!(game.bonus_food.is_none(), "Bonus food should be consumed");
}

// ── Win condition test ──────────────────────────────────────────────

#[test]
fn win_when_board_is_full() {
    // Use a tiny 4×4 board: inner area is 2×2 = 4 cells
    let mut game = Game::new(4, 4);
    game.state = GameState::Playing;

    // Fill the snake to occupy 3 of the 4 inner cells
    game.snake.body.clear();
    game.snake.body.push_back(Position::new(1, 1)); // head
    game.snake.body.push_back(Position::new(2, 1));
    game.snake.body.push_back(Position::new(2, 2));

    // Place food on the last free cell
    game.food = Position::new(1, 2);
    game.snake.direction = Direction::Down;

    game.update();
    assert_eq!(
        game.state,
        GameState::Win,
        "Filling the board should trigger Win"
    );
}

// ── Restart rejection tests ────────────────────────────────────────

#[test]
fn restart_rejected_during_playing() {
    let mut game = test_game();
    game.restart(30, 20);
    assert_eq!(
        game.state,
        GameState::Playing,
        "Restart should be ignored during Playing"
    );
}

#[test]
fn restart_rejected_during_paused() {
    let mut game = test_game();
    game.state = GameState::Paused;
    game.restart(30, 20);
    assert_eq!(
        game.state,
        GameState::Paused,
        "Restart should be ignored during Paused"
    );
}

#[test]
fn restart_rejected_during_menu() {
    let mut game = Game::new(30, 20);
    game.restart(30, 20);
    assert_eq!(
        game.state,
        GameState::Menu,
        "Restart should be ignored during Menu"
    );
}

#[test]
fn restart_accepted_during_game_over() {
    let mut game = test_game();
    game.state = GameState::GameOver;
    game.restart(30, 20);
    assert_eq!(
        game.state,
        GameState::Playing,
        "Restart should work during GameOver"
    );
    assert_eq!(game.score, 0);
}

#[test]
fn restart_accepted_during_win() {
    let mut game = test_game();
    game.state = GameState::Win;
    game.restart(30, 20);
    assert_eq!(
        game.state,
        GameState::Playing,
        "Restart should work during Win"
    );
    assert_eq!(game.score, 0);
}

// ── Start transition tests ─────────────────────────────────────────

#[test]
fn start_transitions_menu_to_playing() {
    let mut game = Game::new(30, 20);
    assert_eq!(game.state, GameState::Menu);
    game.start();
    assert_eq!(game.state, GameState::Playing);
}

#[test]
fn start_ignored_during_playing() {
    let mut game = test_game();
    game.start();
    assert_eq!(game.state, GameState::Playing);
}

#[test]
fn start_ignored_during_paused() {
    let mut game = test_game();
    game.state = GameState::Paused;
    game.start();
    assert_eq!(game.state, GameState::Paused);
}

#[test]
fn start_ignored_during_game_over() {
    let mut game = test_game();
    game.state = GameState::GameOver;
    game.start();
    assert_eq!(game.state, GameState::GameOver);
}

#[test]
fn start_ignored_during_win() {
    let mut game = test_game();
    game.state = GameState::Win;
    game.start();
    assert_eq!(game.state, GameState::Win);
}

// ── Movement and no-op tests ────────────────────────────────────────

#[test]
fn snake_moves_forward_on_normal_tick() {
    let mut game = test_game();
    let head = *game.snake.head();
    // Place food far away so it won't be eaten
    game.food = Position::new(1, 1);
    game.snake.direction = Direction::Right;
    let old_len = game.snake.body.len();
    game.update();
    assert_eq!(*game.snake.head(), Position::new(head.x + 1, head.y));
    assert_eq!(
        game.snake.body.len(),
        old_len,
        "Snake should not grow without eating"
    );
}

#[test]
fn update_noop_during_menu() {
    let mut game = Game::new(30, 20);
    let head = *game.snake.head();
    game.update();
    assert_eq!(game.state, GameState::Menu);
    assert_eq!(
        *game.snake.head(),
        head,
        "Snake should not move during Menu"
    );
}

#[test]
fn update_noop_during_paused() {
    let mut game = test_game();
    let head = *game.snake.head();
    game.state = GameState::Paused;
    game.update();
    assert_eq!(game.state, GameState::Paused);
    assert_eq!(
        *game.snake.head(),
        head,
        "Snake should not move during Paused"
    );
}

// ── Tick event tests ──────────────────────────────────────────────

#[test]
fn update_returns_ate_food_on_food_consumption() {
    let mut game = test_game();
    let head = *game.snake.head();
    game.food = Position::new(head.x + 1, head.y);
    game.snake.direction = Direction::Right;
    let events = game.update();
    assert!(events.ate_food);
    assert!(!events.ate_bonus);
    assert!(!events.died);
}

#[test]
fn update_returns_no_events_on_normal_tick() {
    let mut game = test_game();
    game.food = Position::new(1, 1);
    game.snake.direction = Direction::Right;
    let events = game.update();
    assert!(!events.ate_food);
    assert!(!events.ate_bonus);
    assert!(!events.died);
}

#[test]
fn update_returns_died_on_collision() {
    let mut game = test_game();
    game.snake = Snake::new(15, 1);
    game.snake.direction = Direction::Up;
    let events = game.update();
    assert!(events.died);
    assert!(!events.ate_food);
}

// ── Resize tests ─────────────────────────────────────────────────

#[test]
fn resize_larger_keeps_snake() {
    let mut game = test_game();
    let head = *game.snake.head();
    game.resize(40, 30);
    assert_eq!(game.width, 40);
    assert_eq!(game.height, 30);
    assert_eq!(*game.snake.head(), head);
    assert_eq!(game.state, GameState::Playing);
}

#[test]
fn resize_smaller_snake_fits() {
    let mut game = test_game();
    // Snake starts at center of 30x20, so it fits in 20x15
    game.snake = Snake::new(10, 7);
    game.resize(20, 15);
    assert_eq!(game.width, 20);
    assert_eq!(game.height, 15);
    assert_eq!(game.state, GameState::Playing);
}

#[test]
fn resize_smaller_snake_out_of_bounds_triggers_dying() {
    let mut game = test_game();
    // Place snake near the right edge
    game.snake = Snake::new(25, 10);
    // Shrink board so snake is outside
    game.resize(20, 15);
    assert!(matches!(game.state, GameState::Dying(_)));
}

#[test]
fn resize_respawns_food_if_out_of_bounds() {
    let mut game = test_game();
    game.snake = Snake::new(10, 7);
    game.food = Position::new(28, 18); // near far corner
    game.resize(20, 15);
    // Food should now be inside the new board
    assert!(game.food.x > 0 && game.food.x < 19);
    assert!(game.food.y > 0 && game.food.y < 14);
}

#[test]
fn resize_noop_during_game_over() {
    let mut game = test_game();
    game.state = GameState::GameOver;
    game.resize(40, 30);
    assert_eq!(game.width, 30); // unchanged from the starting width
    assert_eq!(game.state, GameState::GameOver);
}
