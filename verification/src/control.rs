//! The decisions of the game loop: board size from the terminal size, which
//! command a key stands for, how long a frame lasts, and what a terminal
//! resize does to the game.

use vstd::prelude::*;

use crate::constants::{
    CELL_WIDTH, DEFAULT_TICK_MS, DYING_TICK_MS, MAX_BOARD_H, MAX_BOARD_W, MIN_BOARD_H, MIN_BOARD_W,
};
use crate::game::{tick_ms_for, Game, GameState, TickEvents};
use crate::snake::Direction;

verus! {

/// `value` limited to the range `lo..=hi`.
pub open spec fn clamped(value: int, lo: int, hi: int) -> int {
    if value < lo {
        lo
    } else if value > hi {
        hi
    } else {
        value
    }
}

/// A clamped value lies in the range, and is the value itself when that
/// already does.
pub proof fn lemma_clamped(value: int, lo: int, hi: int)
    requires
        lo <= hi,
    ensures
        lo <= clamped(value, lo, hi) <= hi,
        lo <= value <= hi ==> clamped(value, lo, hi) == value,
        value < lo ==> clamped(value, lo, hi) == lo,
        value > hi ==> clamped(value, lo, hi) == hi,
{
}

fn clamp_u16(value: u16, lo: u16, hi: u16) -> (r: u16)
    requires
        lo <= hi,
    ensures
        r == clamped(value as int, lo as int, hi as int),
{
    if value < lo {
        lo
    } else if value > hi {
        hi
    } else {
        value
    }
}

/// Limits a requested board size to the supported range.
pub fn clamp_board(width: u16, height: u16) -> (size: (u16, u16))
    ensures
        size.0 == clamped(width as int, MIN_BOARD_W as int, MAX_BOARD_W as int),
        size.1 == clamped(height as int, MIN_BOARD_H as int, MAX_BOARD_H as int),
        MIN_BOARD_W <= size.0 <= MAX_BOARD_W,
        MIN_BOARD_H <= size.1 <= MAX_BOARD_H,
{
    (clamp_u16(width, MIN_BOARD_W, MAX_BOARD_W), clamp_u16(height, MIN_BOARD_H, MAX_BOARD_H))
}

/// Computes board dimensions from the terminal size: one cell per
/// `CELL_WIDTH` columns and one row kept for the status bar, each limited to
/// the board size range.
pub fn board_size(term_cols: u16, term_rows: u16) -> (size: (u16, u16))
    ensures
        size.0 == clamped(term_cols as int / CELL_WIDTH as int, MIN_BOARD_W as int, MAX_BOARD_W as int),
        size.1 == clamped(
            if term_rows >= 1 { term_rows - 1 } else { 0 },
            MIN_BOARD_H as int,
            MAX_BOARD_H as int,
        ),
        MIN_BOARD_W <= size.0 <= MAX_BOARD_W,
        MIN_BOARD_H <= size.1 <= MAX_BOARD_H,
{
    clamp_board(term_cols / CELL_WIDTH, term_rows.saturating_sub(1))
}

/// A key press, as far as the game tells keys apart.
#[derive(Debug, Clone, Copy, PartialEq, Eq, Structural)]
pub enum Key {
    Char(char),
    Esc,
    Enter,
    Up,
    Down,
    Left,
    Right,
    Other,
}

/// What the game loop does in answer to a key.
#[derive(Debug, Clone, Copy, PartialEq, Eq, Structural)]
pub enum Command {
    Quit,
    Start,
    TogglePause,
    Restart,
    Turn(Direction),
    Ignore,
}

/// The key bindings: Q or Esc (and Ctrl-C) quit, Enter starts, P pauses,
/// R restarts, and the arrows or WASD steer.
pub open spec fn key_command(key: Key, ctrl: bool) -> Command {
    match key {
        Key::Esc => Command::Quit,
        Key::Enter => Command::Start,
        Key::Up => Command::Turn(Direction::Up),
        Key::Down => Command::Turn(Direction::Down),
        Key::Left => Command::Turn(Direction::Left),
        Key::Right => Command::Turn(Direction::Right),
        Key::Other => Command::Ignore,
        Key::Char(c) => {
            if c == 'q' || (c == 'c' && ctrl) {
                Command::Quit
            } else if c == 'p' {
                Command::TogglePause
            } else if c == 'r' {
                Command::Restart
            } else if c == 'w' {
                Command::Turn(Direction::Up)
            } else if c == 's' {
                Command::Turn(Direction::Down)
            } else if c == 'a' {
                Command::Turn(Direction::Left)
            } else if c == 'd' {
                Command::Turn(Direction::Right)
            } else {
                Command::Ignore
            }
        },
    }
}

/// Each arrow key and its WASD twin steer in the direction they name,
/// whatever the modifiers; Q and Esc quit, Ctrl-C quits, Enter starts, P
/// pauses and R restarts, and a plain C does nothing.
pub proof fn lemma_key_bindings(ctrl: bool)
    ensures
        key_command(Key::Up, ctrl) == Command::Turn(Direction::Up),
        key_command(Key::Char('w'), ctrl) == Command::Turn(Direction::Up),
        key_command(Key::Down, ctrl) == Command::Turn(Direction::Down),
        key_command(Key::Char('s'), ctrl) == Command::Turn(Direction::Down),
        key_command(Key::Left, ctrl) == Command::Turn(Direction::Left),
        key_command(Key::Char('a'), ctrl) == Command::Turn(Direction::Left),
        key_command(Key::Right, ctrl) == Command::Turn(Direction::Right),
        key_command(Key::Char('d'), ctrl) == Command::Turn(Direction::Right),
        key_command(Key::Esc, ctrl) == Command::Quit,
        key_command(Key::Char('q'), ctrl) == Command::Quit,
        key_command(Key::Char('c'), true) == Command::Quit,
        key_command(Key::Char('c'), false) == Command::Ignore,
        key_command(Key::Enter, ctrl) == Command::Start,
        key_command(Key::Char('p'), ctrl) == Command::TogglePause,
        key_command(Key::Char('r'), ctrl) == Command::Restart,
        key_command(Key::Other, ctrl) == Command::Ignore,
{
}

/// The command a key press stands for; `ctrl` tells whether Control was held.
pub fn command_for_key(key: Key, ctrl: bool) -> (cmd: Command)
    ensures
        cmd == key_command(key, ctrl),
        key == Key::Up || key == Key::Char('w') ==> cmd == Command::Turn(Direction::Up),
        key == Key::Down || key == Key::Char('s') ==> cmd == Command::Turn(Direction::Down),
        key == Key::Left || key == Key::Char('a') ==> cmd == Command::Turn(Direction::Left),
        key == Key::Right || key == Key::Char('d') ==> cmd == Command::Turn(Direction::Right),
        key == Key::Esc || key == Key::Char('q') ==> cmd == Command::Quit,
        key == Key::Enter ==> cmd == Command::Start,
        key == Key::Char('p') ==> cmd == Command::TogglePause,
        key == Key::Char('r') ==> cmd == Command::Restart,
{
    match key {
        Key::Char('q') | Key::Esc => Command::Quit,
        Key::Char('c') if ctrl => Command::Quit,
        Key::Enter => Command::Start,
        Key::Char('p') => Command::TogglePause,
        Key::Char('r') => Command::Restart,
        Key::Up | Key::Char('w') => Command::Turn(Direction::Up),
        Key::Down | Key::Char('s') => Command::Turn(Direction::Down),
        Key::Left | Key::Char('a') => Command::Turn(Direction::Left),
        Key::Right | Key::Char('d') => Command::Turn(Direction::Right),
        _ => Command::Ignore,
    }
}

/// How long the current frame lasts, in milliseconds: the speed curve while
/// playing, the flash interval while dying, the idle interval otherwise.
pub fn tick_interval_ms(game: &Game) -> (ms: u64)
    ensures
        ms == match game.state {
            GameState::Playing => tick_ms_for(game.score as int) as u64,
            GameState::Dying(_) => DYING_TICK_MS,
            _ => DEFAULT_TICK_MS,
        },
{
    match game.state {
        GameState::Playing => game.tick_millis(),
        GameState::Dying(_) => DYING_TICK_MS,
        _ => DEFAULT_TICK_MS,
    }
}

/// Reacts to a terminal resize: a running game pauses, the title screen is
/// rebuilt for the new size (keeping the high score), and everything else
/// keeps its board.
pub fn handle_terminal_resize(game: &mut Game, width: u16, height: u16)
    requires
        old(game).wf(),
        old(game).state is Menu ==> width >= 4 && height >= 2,
    ensures
        final(game).wf(),
        old(game).state is Playing ==> {
            &&& *final(game) == old(game).pause_toggled()
            &&& final(game).state == GameState::Paused
        },
        old(game).state is Menu ==> {
            &&& final(game).is_fresh(width, height, old(game).high_score)
            &&& final(game).state == GameState::Menu
        },
        !(old(game).state is Playing) && !(old(game).state is Menu) ==> *final(game) == *old(game),
{
    match game.state {
        GameState::Playing => game.toggle_pause(),
        GameState::Menu => {
            let high = game.high_score;
            *game = Game::with_high_score(width, height, high);
        },
        _ => {},
    }
}

/// The terminal bell sounds when the snake eats (food or bonus) and when it
/// dies.
pub fn rings_bell(events: TickEvents) -> (ring: bool)
    ensures
        ring == (events.ate_food || events.ate_bonus || events.died),
{
    events.ate_food || events.ate_bonus || events.died
}

} // verus!
