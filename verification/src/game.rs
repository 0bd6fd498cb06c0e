//! Core game logic: state machine, collision, scoring, and food management.

use std::collections::VecDeque;
use std::time::Duration;

use rand::RngExt;
use vstd::prelude::*;

use crate::constants::{
    BASE_TICK_MS, BONUS_DURATION, BONUS_POINTS, BONUS_SPAWN_INTERVAL, MIN_TICK_MS, SPEED_STEP_MS,
};
use crate::board::{
    fits_within, has_free_cell, lists_free_cells, in_interior, inner_cells, is_free_cell, lemma_filled_board,
    lemma_full_board, cell_before, step,
};
use crate::snake::{initial_body, Direction, Position, Snake, INITIAL_LENGTH};

verus! {

// ── State ───────────────────────────────────────────────────────────────────

/// The current phase of the game.
#[derive(Debug, PartialEq, Eq, Structural, Clone, Copy)]
pub enum GameState {
    /// Title screen shown before the first game.
    Menu,
    /// Active gameplay — snake moves and collisions are checked.
    Playing,
    /// Gameplay frozen; resume with the pause key.
    Paused,
    /// Death flash animation; the `u8` is the current frame (0..=5).
    Dying(u8),
    /// Terminal state after the death animation completes.
    GameOver,
    /// Terminal state when the snake fills the entire board.
    Win,
}

/// Bonus food that appears temporarily for extra points.
#[derive(Debug, Clone, Copy, PartialEq, Eq, Structural)]
pub struct BonusFood {
    /// Board position of the bonus item.
    pub pos: Position,
    /// Ticks until the bonus despawns. Removed when this reaches 0.
    pub ticks_remaining: u16,
}

/// Events produced by a single game tick.
#[derive(Debug, Clone, Copy, PartialEq, Eq, Structural)]
pub struct TickEvents {
    /// The snake ate regular food this tick.
    pub ate_food: bool,
    /// The snake ate bonus food this tick.
    pub ate_bonus: bool,
    /// The snake collided and began the death sequence this tick.
    pub died: bool,
}

impl Default for TickEvents {
    fn default() -> (e: Self)
        ensures
            e == no_events(),
    {
        TickEvents { ate_food: false, ate_bonus: false, died: false }
    }
}

/// A tick in which nothing was eaten and nobody died.
pub open spec fn no_events() -> TickEvents {
    TickEvents { ate_food: false, ate_bonus: false, died: false }
}

/// All game state: snake, food, board, score, and phase.
pub struct Game {
    pub snake: Snake,
    /// Position of the regular food pellet (always present on the board).
    pub food: Position,
    /// Optional bonus item; [`None`] when no bonus is active.
    pub bonus_food: Option<BonusFood>,
    /// Board width in logical cells (including border walls).
    pub width: u16,
    /// Board height in logical cells (including border walls).
    pub height: u16,
    pub state: GameState,
    pub score: usize,
    /// Carried across restarts; the caller persists it when it grows.
    pub high_score: usize,
    /// Ticks elapsed since the last bonus-food spawn attempt.
    pub ticks_since_bonus: u16,
}

// ── Randomness ──────────────────────────────────────────────────────────────

/// Draws an index from `0..bound` with `rand::rng().random_range`.
///
/// The draw depends on chance; the contract claims only what holds of every
/// outcome: the index lies in the range. The range is non-empty, which is the
/// one input on which the call panics.
#[verifier::external_body]
fn random_below(bound: usize) -> (r: usize)
    requires
        bound > 0,
    ensures
        r < bound,
{
    rand::rng().random_range(0..bound)
}

/// Returns `true` with probability `numerator / denominator`, by
/// `rand::rng().random_ratio`.
///
/// The outcome depends on chance; the contract claims what its documentation
/// promises of every outcome: `true` when the two are equal, `false` when the
/// numerator is 0. The call panics when the denominator is 0 or smaller than
/// the numerator, which `requires` leaves out.
#[verifier::external_body]
fn random_ratio(numerator: u32, denominator: u32) -> (r: bool)
    requires
        0 < denominator,
        numerator <= denominator,
    ensures
        numerator == denominator ==> r,
        numerator == 0 ==> !r,
{
    rand::rng().random_ratio(numerator, denominator)
}

/// Chance, as a ratio, that a due bonus-food spawn attempt places a bonus.
const BONUS_CHANCE_NUM: u32 = 2;
const BONUS_CHANCE_DEN: u32 = 5;

/// Random placements tried on an uncrowded board before listing the free
/// cells instead.
const SPAWN_ATTEMPTS: u32 = 64;

/// The number of the last frame of the death animation.
pub const LAST_DEATH_FRAME: u8 = 5;

/// The state that follows death animation frame `frame`: the next frame,
/// or the end of the game after the last one.
pub open spec fn after_death_frame(frame: u8) -> GameState {
    if frame >= LAST_DEATH_FRAME {
        GameState::GameOver
    } else {
        GameState::Dying((frame + 1) as u8)
    }
}

/// The state reached from `state` after `ticks` animation steps.
pub open spec fn death_steps(state: GameState, ticks: nat) -> GameState
    decreases ticks,
{
    if ticks == 0 {
        state
    } else {
        match death_steps(state, (ticks - 1) as nat) {
            GameState::Dying(frame) => after_death_frame(frame),
            other => other,
        }
    }
}

/// The death animation shows frames 0 to 5, one per tick: from `Dying(0)`
/// the game is still dying after 1 to 5 ticks and is over after the 6th.
pub proof fn lemma_death_animation_length()
    ensures
        forall|k: nat| 1 <= k <= 5 ==> #[trigger] death_steps(GameState::Dying(0), k) == GameState::Dying(k as u8),
        death_steps(GameState::Dying(0), 6) == GameState::GameOver,
{
    reveal_with_fuel(death_steps, 7);
    assert forall|k: nat| 1 <= k <= 5 implies #[trigger] death_steps(GameState::Dying(0), k)
        == GameState::Dying(k as u8) by {
        reveal_with_fuel(death_steps, 7);
    }
}

/// The high score once `score` has been counted against it.
pub open spec fn record(score: usize, high_score: usize) -> usize {
    if score > high_score {
        score
    } else {
        high_score
    }
}

/// What one tick does to the bonus item and to the spawn counter, on the
/// board the tick ends with (`food`, `body`). A present bonus counts down and
/// disappears once its count is 0; otherwise the counter advances, and when
/// it reaches the spawn interval it restarts at 0 and a bonus of full
/// duration may appear on a free interior cell that is not the food.
pub open spec fn bonus_ticked(
    bonus: Option<BonusFood>,
    since: u16,
    food: Position,
    body: Seq<Position>,
    width: int,
    height: int,
    new_bonus: Option<BonusFood>,
    new_since: u16,
) -> bool {
    match bonus {
        Some(b) => {
            &&& new_since == since
            &&& new_bonus == if b.ticks_remaining == 0 {
                None
            } else {
                Some(BonusFood { pos: b.pos, ticks_remaining: (b.ticks_remaining - 1) as u16 })
            }
        },
        None => {
            if since + 1 < BONUS_SPAWN_INTERVAL {
                new_since == since + 1 && new_bonus is None
            } else {
                &&& new_since == 0
                &&& new_bonus matches Some(nb) ==> {
                    &&& nb.ticks_remaining == BONUS_DURATION
                    &&& is_free_cell(nb.pos, width, height, body)
                    &&& nb.pos != food
                }
            }
        },
    }
}

/// Tick interval in milliseconds at a given score: `BASE_TICK_MS` less
/// `SPEED_STEP_MS` per point, but never below `MIN_TICK_MS`.
pub open spec fn tick_ms_for(score: int) -> int {
    if score * SPEED_STEP_MS < BASE_TICK_MS - MIN_TICK_MS {
        BASE_TICK_MS - score * SPEED_STEP_MS
    } else {
        MIN_TICK_MS as int
    }
}

/// The speed level (1-based) at a given score: one level per
/// `SPEED_STEP_MS` taken off the tick interval.
pub open spec fn level_for(score: int) -> int {
    (BASE_TICK_MS - tick_ms_for(score)) / (SPEED_STEP_MS as int) + 1
}

/// The game only speeds up as the score grows, and its tick interval stays
/// between `MIN_TICK_MS` and `BASE_TICK_MS`.
pub proof fn lemma_speed_curve(lower: int, higher: int)
    requires
        0 <= lower <= higher,
    ensures
        tick_ms_for(higher) <= tick_ms_for(lower),
        MIN_TICK_MS <= tick_ms_for(lower) <= BASE_TICK_MS,
{
}

/// The speed curve step by step: a game starts at 200 ms per tick, each of
/// the first 28 points takes 5 ms off, and from then on the tick stays at
/// 60 ms; the level starts at 1 and rises by one with each of those points.
pub proof fn lemma_speed_steps(score: int)
    requires
        score >= 0,
    ensures
        tick_ms_for(0) == 200,
        score < 28 ==> tick_ms_for(score + 1) == tick_ms_for(score) - 5,
        score >= 28 ==> tick_ms_for(score) == 60,
        level_for(0) == 1,
        score < 28 ==> level_for(score + 1) == level_for(score) + 1,
        score >= 28 ==> level_for(score) == 29,
{
}

/// The high score after counting a score is the larger of the two.
pub proof fn lemma_record_is_larger(score: usize, high_score: usize)
    ensures
        record(score, high_score) >= score,
        record(score, high_score) >= high_score,
        record(score, high_score) == score || record(score, high_score) == high_score,
{
}

/// The `Duration` that `Duration::from_millis` makes of `millis`.
pub uninterp spec fn duration_from_millis(millis: u64) -> Duration;

/// Makes a `Duration` of `millis` milliseconds with
/// `std::time::Duration::from_millis`; the contract names its result
/// `duration_from_millis(millis)` and says nothing more of it.
#[verifier::external_body]
fn millis_duration(millis: u64) -> (d: Duration)
    ensures
        d == duration_from_millis(millis),
{
    Duration::from_millis(millis)
}

/// Whether a segment of `body` lies on `p`.
fn body_contains(body: &VecDeque<Position>, p: Position) -> (r: bool)
    ensures
        r == body@.contains(p),
{
    let n = body.len();
    let mut i: usize = 0;
    while i < n
        invariant
            n == body@.len(),
            i <= n,
            forall|j: int| 0 <= j < i ==> body@[j] != p,
        decreases n - i,
    {
        if body[i] == p {
            return true;
        }
        i = i + 1;
    }
    false
}

// ── Core logic ──────────────────────────────────────────────────────────────

impl Game {
    /// The body segments, head first.
    pub open spec fn body(&self) -> Seq<Position> {
        self.snake.body@
    }

    /// The snake is on the board and the game can go on: menu, play or pause.
    pub open spec fn is_live(&self) -> bool {
        self.state is Menu || self.state is Playing || self.state is Paused
    }

    /// What every operation needs and keeps: a board with room for its
    /// walls, a snake with a head that lies on the board while the game is
    /// live, and a bonus spawn counter below its interval.
    pub open spec fn wf(&self) -> bool {
        &&& self.width >= 2
        &&& self.height >= 2
        &&& self.body().len() >= 1
        &&& self.ticks_since_bonus < BONUS_SPAWN_INTERVAL
        &&& self.is_live() ==> self.body()[0].x < self.width && self.body()[0].y < self.height
    }

    /// The board is coherent: every segment is an interior cell and no two
    /// segments share one, the food lies on a free interior cell, the bonus
    /// (if any) lies inside the walls, and the steering queue is sound.
    pub open spec fn consistent(&self) -> bool {
        &&& self.wf()
        &&& self.snake.steering_wf()
        &&& self.body().no_duplicates()
        &&& forall|i: int|
            0 <= i < self.body().len() ==> in_interior(
                #[trigger] self.body()[i],
                self.width as int,
                self.height as int,
            )
        &&& is_free_cell(self.food, self.width as int, self.height as int, self.body())
        &&& self.bonus_food matches Some(b) ==> in_interior(b.pos, self.width as int, self.height as int)
    }

    /// The state of a game just set up on a `width` × `height` board with the
    /// given record: a snake of three segments with its head at the centre,
    /// facing right, nothing queued, no bonus, no score, and the food on a
    /// free interior cell, or at the origin when no cell is free.
    pub open spec fn is_fresh(&self, width: u16, height: u16, high_score: usize) -> bool {
        &&& self.body() == initial_body(width / 2, height / 2)
        &&& self.snake.direction == Direction::Right
        &&& self.snake.dir_queue@.len() == 0
        &&& self.bonus_food is None
        &&& self.width == width
        &&& self.height == height
        &&& self.score == 0
        &&& self.high_score == high_score
        &&& self.ticks_since_bonus == 0
        &&& if INITIAL_LENGTH < inner_cells(width as int, height as int) {
            is_free_cell(self.food, width as int, height as int, self.body())
        } else {
            self.food == Position { x: 0, y: 0 }
        }
    }

    /// The heading used by the next move: the first queued direction, or the
    /// current one.
    pub open spec fn heading_after_queue(&self) -> Direction {
        if self.snake.dir_queue@.len() > 0 {
            self.snake.dir_queue@[0]
        } else {
            self.snake.direction
        }
    }

    /// The queue once the next move has taken its heading from it.
    pub open spec fn queue_after_turn(&self) -> Seq<Direction> {
        if self.snake.dir_queue@.len() > 0 {
            self.snake.dir_queue@.drop_first()
        } else {
            self.snake.dir_queue@
        }
    }

    /// Where the head goes on the next move.
    pub open spec fn next_head(&self) -> Position {
        step(self.body()[0], self.heading_after_queue())
    }

    /// The body with the next head pushed on its front.
    pub open spec fn grown_body(&self) -> Seq<Position> {
        seq![self.next_head()] + self.body()
    }

    /// The next move runs into a wall or into the snake itself.
    pub open spec fn move_is_fatal(&self) -> bool {
        !in_interior(self.next_head(), self.width as int, self.height as int) || self.body().contains(
            self.next_head(),
        )
    }

    /// The bonus item lies on `p`.
    pub open spec fn bonus_at(&self, p: Position) -> bool {
        self.bonus_food matches Some(b) && b.pos == p
    }

    /// Creates a new game with the given board dimensions, in the menu, with
    /// no high score yet.
    pub fn new(width: u16, height: u16) -> (game: Self)
        requires
            width >= 4,
            height >= 2,
        ensures
            game.is_fresh(width, height, 0),
            game.state == GameState::Menu,
            game.wf(),
            width >= 6 && height >= 3 ==> game.consistent(),
    {
        Self::with_high_score(width, height, 0)
    }

    /// Creates a new game, in the menu, carrying over a high score that was
    /// kept from earlier sessions.
    pub fn with_high_score(width: u16, height: u16, high_score: usize) -> (game: Self)
        requires
            width >= 4,
            height >= 2,
        ensures
            game.is_fresh(width, height, high_score),
            game.state == GameState::Menu,
            game.wf(),
            width >= 6 && height >= 3 ==> game.consistent(),
    {
        let mut game = Self {
            snake: Snake::new(width / 2, height / 2),
            food: Position::new(0, 0),
            bonus_food: None,
            width,
            height,
            state: GameState::Menu,
            score: 0,
            high_score,
            ticks_since_bonus: 0,
        };
        game.spawn_food();
        proof {
            let w = width as int;
            let h = height as int;
            if w >= 6 && h >= 3 {
                assert(inner_cells(w, h) >= 4) by (nonlinear_arith)
                    requires
                        w >= 6,
                        h >= 3,
                ;
                let b = game.body();
                assert(b[0] == Position { x: (width / 2) as u16, y: (height / 2) as u16 });
                assert(b[1] == Position { x: (width / 2 - 1) as u16, y: (height / 2) as u16 });
                assert(b[2] == Position { x: (width / 2 - 2) as u16, y: (height / 2) as u16 });
                assert(b.no_duplicates());
            }
        }
        game
    }

    /// Tick interval in milliseconds at the current score.
    pub fn tick_millis(&self) -> (ms: u64)
        ensures
            ms == tick_ms_for(self.score as int),
            MIN_TICK_MS <= ms <= BASE_TICK_MS,
    {
        // The reduction reaches its cap at this many points; comparing the
        // score first keeps the product in range for every score.
        let capped_at = ((BASE_TICK_MS - MIN_TICK_MS) / SPEED_STEP_MS) as usize;
        if self.score < capped_at {
            BASE_TICK_MS - (self.score as u64) * SPEED_STEP_MS
        } else {
            MIN_TICK_MS
        }
    }

    /// Tick duration decreases as score rises, making the game harder.
    pub fn tick_duration(&self) -> (d: Duration)
        ensures
            d == duration_from_millis(tick_ms_for(self.score as int) as u64),
    {
        millis_duration(self.tick_millis())
    }

    /// Current speed level (1-based).
    pub fn level(&self) -> (level: u64)
        ensures
            level == level_for(self.score as int),
            1 <= level <= (BASE_TICK_MS - MIN_TICK_MS) / (SPEED_STEP_MS as int) + 1,
    {
        let tick_ms = self.tick_millis();
        ((BASE_TICK_MS - tick_ms) / SPEED_STEP_MS) + 1
    }

    /// Transitions from Menu to Playing.
    pub fn start(&mut self)
        ensures
            *final(self) == if old(self).state is Menu {
                Game { state: GameState::Playing, ..*old(self) }
            } else {
                *old(self)
            },
            old(self).wf() ==> final(self).wf(),
            old(self).consistent() ==> final(self).consistent(),
    {
        if self.state == GameState::Menu {
            self.state = GameState::Playing;
        }
    }

    /// Collects all free interior cells (not occupied by the snake or
    /// `exclude`), in column-major order.
    pub fn free_cells(&self, exclude: Option<Position>) -> (cells: Vec<Position>)
        requires
            self.width >= 1,
            self.width >= 3 ==> self.height >= 1,
        ensures
            lists_free_cells(cells@, self.width as int, self.height as int, self.body(), exclude),
    {
        let ghost w = self.width as int;
        let ghost h = self.height as int;
        let mut cells: Vec<Position> = Vec::new();
        let mut x: u16 = 1;
        while x < self.width - 1
            invariant
                w == self.width,
                h == self.height,
                self.width >= 1,
                self.width >= 3 ==> self.height >= 1,
                1 <= x <= self.width,
                forall|p: Position|
                    #![trigger cells@.contains(p)]
                    cells@.contains(p) <==> (is_free_cell(p, w, h, self.body()) && exclude != Some(p)
                        && p.x < x),
                forall|i: int, j: int|
                    0 <= i < j < cells@.len() ==> cell_before(#[trigger] cells@[i], #[trigger] cells@[j]),
                forall|i: int| 0 <= i < cells@.len() ==> (#[trigger] cells@[i]).x < x,
            decreases self.width - x,
        {
            let mut y: u16 = 1;
            while y < self.height - 1
                invariant
                    w == self.width,
                    h == self.height,
                    self.height >= 1,
                    1 <= x < self.width - 1,
                    1 <= y <= self.height,
                    forall|p: Position|
                        #![trigger cells@.contains(p)]
                        cells@.contains(p) <==> (is_free_cell(p, w, h, self.body()) && exclude
                            != Some(p) && (p.x < x || (p.x == x && p.y < y))),
                    forall|i: int, j: int|
                        0 <= i < j < cells@.len() ==> cell_before(
                            #[trigger] cells@[i],
                            #[trigger] cells@[j],
                        ),
                    forall|i: int|
                        0 <= i < cells@.len() ==> cell_before(
                            #[trigger] cells@[i],
                            Position { x: x, y: y },
                        ),
                decreases self.height - y,
            {
                let p = Position::new(x, y);
                let excluded = match exclude {
                    Some(e) => e == p,
                    None => false,
                };
                if !excluded && !body_contains(&self.snake.body, p) {
                    let ghost before = cells@;
                    cells.push(p);
                    assert forall|q: Position| #[trigger] cells@.contains(q) <==> (before.contains(q)
                        || q == p) by {
                        if q == p {
                            assert(cells@[before.len() as int] == p);
                        }
                        if before.contains(q) {
                            let k = choose|k: int| 0 <= k < before.len() && before[k] == q;
                            assert(cells@[k] == q);
                        }
                    }
                }
                y = y + 1;
            }
            assert forall|p: Position| #[trigger] cells@.contains(p) implies p.x < x + 1 by {
                let k = choose|k: int| 0 <= k < cells@.len() && cells@[k] == p;
                assert(cell_before(cells@[k], Position { x: x, y: y }));
            }
            assert forall|i: int| 0 <= i < cells@.len() implies (#[trigger] cells@[i]).x < x + 1 by {
                assert(cell_before(cells@[i], Position { x: x, y: y }));
            }
            x = x + 1;
        }
        cells
    }

    /// Picks a free interior cell other than `exclude` at random, or `None`
    /// when there is none.
    fn pick_free_cell(&self, exclude: Option<Position>) -> (r: Option<Position>)
        requires
            self.width >= 2,
            self.height >= 2,
        ensures
            r matches Some(p) ==> is_free_cell(p, self.width as int, self.height as int, self.body())
                && exclude != Some(p),
            r is None ==> forall|p: Position|
                #![trigger is_free_cell(p, self.width as int, self.height as int, self.body())]
                is_free_cell(p, self.width as int, self.height as int, self.body()) ==> exclude
                    == Some(p),
    {
        let free = self.free_cells(exclude);
        if free.len() == 0 {
            assert forall|p: Position|
                #![trigger is_free_cell(p, self.width as int, self.height as int, self.body())]
                is_free_cell(p, self.width as int, self.height as int, self.body()) implies exclude
                == Some(p) by {
                if exclude != Some(p) {
                    assert(free@.contains(p));
                }
            }
            return None;
        }
        let i = random_below(free.len());
        let p = free[i];
        assert(free@.contains(p));
        Some(p)
    }

    /// Places food at a random position not occupied by the snake.
    /// Returns `false` if there are no free cells (the player wins).
    fn spawn_food(&mut self) -> (placed: bool)
        requires
            old(self).width >= 2,
            old(self).height >= 2,
        ensures
            placed == (old(self).body().len() < inner_cells(
                old(self).width as int,
                old(self).height as int,
            )),
            placed ==> is_free_cell(
                final(self).food,
                old(self).width as int,
                old(self).height as int,
                old(self).body(),
            ),
            (*final(self) == Game { food: final(self).food, ..*old(self) }),
            !placed ==> final(self).food == old(self).food,
    {
        let ghost w = self.width as int;
        let ghost h = self.height as int;
        let cols = (self.width - 2) as usize;
        let rows = (self.height - 2) as usize;
        assert(cols * rows <= 0xffff * 0xffff) by (nonlinear_arith)
            requires
                cols <= 0xffff,
                rows <= 0xffff,
        ;
        let inner_cells: usize = cols * rows;
        let occupied = self.snake.body.len();
        if occupied >= inner_cells {
            return false;
        }
        proof {
            if !has_free_cell(w, h, self.body()) {
                lemma_full_board(self.body(), w, h);
            }
        }
        if occupied >= inner_cells - occupied {
            // Board is crowded — collect free cells to avoid long random search
            let pick = self.pick_free_cell(None);
            match pick {
                Some(p) => {
                    self.food = p;
                },
                None => {
                    proof {
                        // a free cell exists, so the search cannot have come back empty
                        let q = choose|q: Position| #[trigger] is_free_cell(q, w, h, self.body());
                    }
                    return false;
                },
            }
        } else {
            assert(cols > 0 && rows > 0) by (nonlinear_arith)
                requires
                    cols * rows > 0,
            ;
            let mut attempts: u32 = 0;
            let mut found = false;
            while attempts < SPAWN_ATTEMPTS && !found
                invariant
                    w == self.width,
                    h == self.height,
                    cols == self.width - 2,
                    rows == self.height - 2,
                    cols > 0,
                    rows > 0,
                    attempts <= SPAWN_ATTEMPTS,
                    found ==> is_free_cell(self.food, w, h, self.body()),
                    (*self == Game { food: self.food, ..*old(self) }),
                decreases SPAWN_ATTEMPTS - attempts,
            {
                let pos = Position::new(
                    (1 + random_below(cols)) as u16,
                    (1 + random_below(rows)) as u16,
                );
                if !body_contains(&self.snake.body, pos) {
                    self.food = pos;
                    found = true;
                }
                attempts = attempts + 1;
            }
            if !found {
                let pick = self.pick_free_cell(None);
                match pick {
                    Some(p) => {
                        self.food = p;
                    },
                    None => {
                        proof {
                            // a free cell exists, so the search cannot have come back empty
                            let q = choose|q: Position| #[trigger] is_free_cell(q, w, h, self.body());
                        }
                        return false;
                    },
                }
            }
        }
        true
    }

    /// Occasionally spawns or ticks down bonus food.
    fn tick_bonus_food(&mut self)
        requires
            old(self).width >= 2,
            old(self).height >= 2,
            old(self).ticks_since_bonus < BONUS_SPAWN_INTERVAL,
        ensures
            bonus_ticked(
                old(self).bonus_food,
                old(self).ticks_since_bonus,
                old(self).food,
                old(self).body(),
                old(self).width as int,
                old(self).height as int,
                final(self).bonus_food,
                final(self).ticks_since_bonus,
            ),
            (*final(self) == Game {
                bonus_food: final(self).bonus_food,
                ticks_since_bonus: final(self).ticks_since_bonus,
                ..*old(self)
            }),
    {
        // Tick down existing bonus
        match self.bonus_food {
            Some(bonus) => {
                if bonus.ticks_remaining == 0 {
                    self.bonus_food = None;
                } else {
                    self.bonus_food = Some(
                        BonusFood { pos: bonus.pos, ticks_remaining: bonus.ticks_remaining - 1 },
                    );
                }
                return;
            },
            None => {},
        }

        // Try to spawn new bonus
        self.ticks_since_bonus = self.ticks_since_bonus + 1;
        if self.ticks_since_bonus < BONUS_SPAWN_INTERVAL {
            return;
        }
        self.ticks_since_bonus = 0;

        let coin = random_ratio(BONUS_CHANCE_NUM, BONUS_CHANCE_DEN);
        let free = if coin {
            self.free_cells(Some(self.food))
        } else {
            Vec::new()
        };
        let pick = if free.len() > 0 {
            random_below(free.len())
        } else {
            0
        };
        self.bonus_food = self.place_bonus(coin, &free, pick);
        proof {
            if let Some(b) = self.bonus_food {
                let p = choose|p: Position|
                    #[trigger] is_free_cell(p, self.width as int, self.height as int, self.body())
                        && p != self.food;
                assert(free@.contains(p));
                assert(free@.contains(b.pos));
            }
        }
    }

    /// The bonus that a due spawn attempt places, given what it drew: the
    /// `coin` that decides whether a bonus appears, the `free` cells other
    /// than the food, and the index `pick` drawn among them. The bonus
    /// appears, with its full duration, on the drawn cell exactly when the
    /// coin came up and some interior cell is neither covered by the snake
    /// nor the food.
    pub fn place_bonus(&self, coin: bool, free: &Vec<Position>, pick: usize) -> (bonus: Option<
        BonusFood,
    >)
        requires
            coin ==> lists_free_cells(
                free@,
                self.width as int,
                self.height as int,
                self.body(),
                Some(self.food),
            ),
        ensures
            bonus is Some <==> coin && exists|p: Position|
                #[trigger] is_free_cell(p, self.width as int, self.height as int, self.body()) && p
                    != self.food,
            bonus matches Some(b) ==> {
                &&& b.ticks_remaining == BONUS_DURATION
                &&& b.pos == free@[pick as int % free@.len() as int]
            },
    {
        if !coin || free.len() == 0 {
            proof {
                if coin {
                    assert forall|p: Position|
                        #[trigger] is_free_cell(
                            p,
                            self.width as int,
                            self.height as int,
                            self.body(),
                        ) implies p == self.food by {
                        if p != self.food {
                            assert(free@.contains(p));
                        }
                    }
                }
            }
            return None;
        }
        let pos = free[pick % free.len()];
        assert(free@.contains(pos));
        Some(BonusFood { pos, ticks_remaining: BONUS_DURATION })
    }

    /// Begins the death sequence and raises the high score if beaten.
    pub fn set_game_over(&mut self)
        ensures
            (*final(self) == Game {
                state: GameState::Dying(0),
                bonus_food: None,
                high_score: record(old(self).score, old(self).high_score),
                ..*old(self)
            }),
    {
        self.state = GameState::Dying(0);
        self.bonus_food = None;
        if self.score > self.high_score {
            self.high_score = self.score;
        }
    }

    /// Enqueues a direction change (the queue handles 180-degree rejection).
    pub fn change_direction(&mut self, dir: Direction)
        ensures
            !(old(self).state is Playing) ==> *final(self) == *old(self),
            old(self).state is Playing ==> {
                &&& (*final(self) == Game { snake: final(self).snake, ..*old(self) })
                &&& final(self).snake.body == old(self).snake.body
                &&& final(self).snake.direction == old(self).snake.direction
                &&& final(self).snake.dir_queue@ == if crate::snake::turn_allowed(
                    old(self).snake.effective_direction(),
                    dir,
                ) && old(self).snake.dir_queue@.len() < crate::snake::MAX_DIR_QUEUE {
                    old(self).snake.dir_queue@.push(dir)
                } else {
                    old(self).snake.dir_queue@
                }
            },
            old(self).wf() ==> final(self).wf(),
            old(self).consistent() ==> final(self).consistent(),
    {
        if self.state == GameState::Playing {
            self.snake.enqueue_direction(dir);
        }
    }

    /// The game with play and pause swapped; other states are left as they are.
    pub open spec fn pause_toggled(self) -> Game {
        match self.state {
            GameState::Playing => Game { state: GameState::Paused, ..self },
            GameState::Paused => Game { state: GameState::Playing, ..self },
            _ => self,
        }
    }

    /// Toggles between Playing and Paused.
    pub fn toggle_pause(&mut self)
        ensures
            *final(self) == old(self).pause_toggled(),
            (*final(self) == Game { state: final(self).state, ..*old(self) }),
            old(self).state is Playing ==> final(self).state == GameState::Paused,
            old(self).state is Paused ==> final(self).state == GameState::Playing,
            !(old(self).state is Playing || old(self).state is Paused) ==> *final(self) == *old(self),
            old(self).wf() ==> final(self).wf(),
            old(self).consistent() ==> final(self).consistent(),
    {
        match self.state {
            GameState::Playing => self.state = GameState::Paused,
            GameState::Paused => self.state = GameState::Playing,
            _ => {},
        }
    }

    /// Resizes the board during `Playing` or `Paused` states.
    ///
    /// If all game objects (snake, food, bonus) fit within the new dimensions,
    /// the board is resized in place. If any snake segment would be out of
    /// bounds, the death sequence is triggered instead.
    pub fn resize(&mut self, new_width: u16, new_height: u16)
        requires
            old(self).wf(),
            old(self).state is Playing || old(self).state is Paused ==> new_width >= 1 && new_height
                >= 1,
        ensures
            final(self).wf(),
            final(self).high_score >= old(self).high_score,
            !(old(self).state is Playing || old(self).state is Paused) ==> *final(self) == *old(self),
            (old(self).state is Playing || old(self).state is Paused) && !fits_within(
                old(self).body(),
                new_width as int,
                new_height as int,
            ) ==> (*final(self) == Game {
                state: GameState::Dying(0),
                bonus_food: None,
                high_score: record(old(self).score, old(self).high_score),
                ..*old(self)
            }),
            (old(self).state is Playing || old(self).state is Paused) && fits_within(
                old(self).body(),
                new_width as int,
                new_height as int,
            ) ==> {
                &&& (*final(self) == Game {
                    width: new_width,
                    height: new_height,
                    food: final(self).food,
                    bonus_food: final(self).bonus_food,
                    ..*old(self)
                })
                &&& in_interior(old(self).food, new_width as int, new_height as int) ==> final(self).food == old(self).food
                &&& !in_interior(old(self).food, new_width as int, new_height as int) ==> if old(self).body().len() < inner_cells(new_width as int, new_height as int) {
                    is_free_cell(final(self).food, new_width as int, new_height as int, old(self).body())
                } else {
                    final(self).food == old(self).food
                }
                &&& final(self).bonus_food == if old(self).bonus_food matches Some(b) && !in_interior(
                    b.pos,
                    new_width as int,
                    new_height as int,
                ) {
                    None
                } else {
                    old(self).bonus_food
                }
            },
            old(self).consistent() && (final(self).state is Playing || final(self).state is Paused)
                && (in_interior(old(self).food, new_width as int, new_height as int) || old(self).body().len() < inner_cells(new_width as int, new_height as int))
                ==> final(self).consistent(),
    {
        if self.state != GameState::Playing && self.state != GameState::Paused {
            return;
        }
        let n = self.snake.body.len();
        let mut fits = true;
        let mut i: usize = 0;
        while i < n
            invariant
                n == self.body().len(),
                i <= n,
                new_width >= 1,
                new_height >= 1,
                fits == fits_within(self.body().take(i as int), new_width as int, new_height as int),
            decreases n - i,
        {
            let seg = self.snake.body[i];
            let inside = seg.x > 0 && seg.x < new_width - 1 && seg.y > 0 && seg.y < new_height - 1;
            proof {
                let t = self.body().take(i as int);
                let w = new_width as int;
                let h = new_height as int;
                assert(self.body().take(i + 1) == t.push(seg));
                if fits_within(t.push(seg), w, h) {
                    assert(in_interior(t.push(seg)[i as int], w, h));
                    assert forall|j: int| 0 <= j < t.len() implies in_interior(#[trigger] t[j], w, h) by {
                        assert(t.push(seg)[j] == t[j]);
                    }
                }
                if fits_within(t, w, h) && in_interior(seg, w, h) {
                    assert forall|j: int| 0 <= j < t.push(seg).len() implies in_interior(
                        #[trigger] t.push(seg)[j],
                        w,
                        h,
                    ) by {
                        if j < t.len() {
                            assert(t.push(seg)[j] == t[j]);
                        }
                    }
                }
            }
            fits = fits && inside;
            i = i + 1;
        }
        assert(self.body().take(n as int) == self.body());

        if !fits {
            self.set_game_over();
            return;
        }

        self.width = new_width;
        self.height = new_height;

        // Respawn food if it landed outside the new bounds
        if self.food.x == 0 || self.food.x >= new_width - 1 || self.food.y == 0 || self.food.y
            >= new_height - 1 {
            self.spawn_food();
        }

        // Remove bonus food if it's outside the new bounds
        match self.bonus_food {
            Some(bonus) => {
                if bonus.pos.x == 0 || bonus.pos.x >= new_width - 1 || bonus.pos.y == 0
                    || bonus.pos.y >= new_height - 1 {
                    self.bonus_food = None;
                }
            },
            None => {},
        }
    }

    /// Resets the game, preserving the high score.
    pub fn restart(&mut self, width: u16, height: u16)
        requires
            old(self).wf(),
            old(self).state is GameOver || old(self).state is Win ==> width >= 4 && height >= 2,
        ensures
            final(self).wf(),
            final(self).high_score == old(self).high_score,
            !(old(self).state is GameOver || old(self).state is Win) ==> *final(self) == *old(self),
            old(self).state is GameOver || old(self).state is Win ==> {
                &&& final(self).is_fresh(width, height, old(self).high_score)
                &&& final(self).state == GameState::Playing
            },
            (old(self).state is GameOver || old(self).state is Win) && width >= 6 && height >= 3
                ==> final(self).consistent(),
    {
        if self.state != GameState::GameOver && self.state != GameState::Win {
            return;
        }
        let high = self.high_score;
        *self = Self::new(width, height);
        self.state = GameState::Playing;
        self.high_score = high;
    }

    /// Advances the game by one tick: move, eat, collide.
    /// Returns events describing what happened this tick.
    pub fn update(&mut self) -> (events: TickEvents)
        requires
            old(self).wf(),
            old(self).state is Playing ==> old(self).score <= usize::MAX - BONUS_POINTS,
        ensures
            final(self).wf(),
            final(self).high_score >= old(self).high_score,
            // Outside play and the death animation nothing happens.
            !(old(self).state is Playing) && !(old(self).state is Dying) ==> *final(self)
                == *old(self) && events == no_events(),
            // The death animation advances one frame, then ends the game.
            old(self).state matches GameState::Dying(frame) ==> {
                &&& (*final(self) == Game {
                    state: after_death_frame(frame),
                    ..*old(self)
                })
                &&& events == no_events()
            },
            // In play the snake takes its next queued heading and moves.
            // The head moves one cell along the heading it takes (off row or
            // column 0 it wraps, which is always a wall).
            old(self).state is Playing ==> {
                let head = old(self).body()[0];
                let new_head = final(self).body()[0];
                &&& old(self).heading_after_queue() == Direction::Up && head.y > 0 ==> new_head.x
                    == head.x && new_head.y == head.y - 1
                &&& old(self).heading_after_queue() == Direction::Down ==> new_head.x == head.x
                    && new_head.y == head.y + 1
                &&& old(self).heading_after_queue() == Direction::Left && head.x > 0 ==> new_head.y
                    == head.y && new_head.x == head.x - 1
                &&& old(self).heading_after_queue() == Direction::Right ==> new_head.y == head.y
                    && new_head.x == head.x + 1
            },
            old(self).state is Playing ==> {
                &&& final(self).snake.direction == old(self).heading_after_queue()
                &&& final(self).snake.dir_queue@ == old(self).queue_after_turn()
                &&& final(self).width == old(self).width
                &&& final(self).height == old(self).height
            },
            // Hitting a wall or itself starts the death sequence.
            old(self).state is Playing && old(self).move_is_fatal() ==> {
                &&& final(self).body() == old(self).grown_body()
                &&& final(self).state == GameState::Dying(0)
                &&& final(self).bonus_food is None
                &&& final(self).high_score == record(old(self).score, old(self).high_score)
                &&& final(self).score == old(self).score
                &&& final(self).food == old(self).food
                &&& final(self).ticks_since_bonus == old(self).ticks_since_bonus
                &&& events == (TickEvents { ate_food: false, ate_bonus: false, died: true })
            },
            // Eating food grows the snake and scores a point; a full board wins.
            old(self).state is Playing && !old(self).move_is_fatal() && old(self).next_head()
                == old(self).food ==> {
                &&& final(self).body() == old(self).grown_body()
                &&& final(self).score == old(self).score + 1
                &&& events == (TickEvents { ate_food: true, ate_bonus: false, died: false })
                &&& if old(self).grown_body().len() >= inner_cells(
                    old(self).width as int,
                    old(self).height as int,
                ) {
                    &&& final(self).state == GameState::Win
                    &&& final(self).high_score == record(
                        (old(self).score + 1) as usize,
                        old(self).high_score,
                    )
                    &&& final(self).food == old(self).food
                    &&& final(self).bonus_food == old(self).bonus_food
                    &&& final(self).ticks_since_bonus == old(self).ticks_since_bonus
                } else {
                    &&& final(self).state == GameState::Playing
                    &&& final(self).high_score == old(self).high_score
                    &&& is_free_cell(
                        final(self).food,
                        old(self).width as int,
                        old(self).height as int,
                        old(self).grown_body(),
                    )
                    &&& bonus_ticked(
                        old(self).bonus_food,
                        old(self).ticks_since_bonus,
                        final(self).food,
                        old(self).grown_body(),
                        old(self).width as int,
                        old(self).height as int,
                        final(self).bonus_food,
                        final(self).ticks_since_bonus,
                    )
                }
            },
            // Eating the bonus grows the snake and scores BONUS_POINTS.
            old(self).state is Playing && !old(self).move_is_fatal() && old(self).next_head()
                != old(self).food && old(self).bonus_at(old(self).next_head()) ==> {
                &&& final(self).body() == old(self).grown_body()
                &&& final(self).score == old(self).score + BONUS_POINTS
                &&& events == (TickEvents { ate_food: false, ate_bonus: true, died: false })
                &&& final(self).state == GameState::Playing
                &&& final(self).high_score == old(self).high_score
                &&& final(self).food == old(self).food
                &&& bonus_ticked(
                    None,
                    old(self).ticks_since_bonus,
                    old(self).food,
                    old(self).grown_body(),
                    old(self).width as int,
                    old(self).height as int,
                    final(self).bonus_food,
                    final(self).ticks_since_bonus,
                )
            },
            // Otherwise the snake moves: the head advances and the tail follows.
            old(self).state is Playing && !old(self).move_is_fatal() && old(self).next_head()
                != old(self).food && !old(self).bonus_at(old(self).next_head()) ==> {
                &&& final(self).body() == old(self).grown_body().drop_last()
                &&& final(self).score == old(self).score
                &&& events == no_events()
                &&& final(self).state == GameState::Playing
                &&& final(self).high_score == old(self).high_score
                &&& final(self).food == old(self).food
                &&& bonus_ticked(
                    old(self).bonus_food,
                    old(self).ticks_since_bonus,
                    old(self).food,
                    old(self).grown_body().drop_last(),
                    old(self).width as int,
                    old(self).height as int,
                    final(self).bonus_food,
                    final(self).ticks_since_bonus,
                )
            },
            // A game is won only once the snake covers every interior cell.
            old(self).consistent() && old(self).state is Playing && final(self).state is Win ==> !has_free_cell(
                old(self).width as int,
                old(self).height as int,
                final(self).body(),
            ),
            // A coherent board stays coherent while the game goes on.
            old(self).consistent() && final(self).state is Playing ==> final(self).consistent(),
    {
        let mut events = TickEvents::default();

        match self.state {
            GameState::Playing => {},
            GameState::Dying(frame) => {
                if frame >= LAST_DEATH_FRAME {
                    self.state = GameState::GameOver;
                } else {
                    self.state = GameState::Dying(frame + 1);
                }
                return events;
            },
            _ => return events,
        }

        self.snake.apply_queued_direction();
        let ghost turned = self.snake;

        let head = *self.snake.head();
        let new_head = match self.snake.direction {
            Direction::Up => Position::new(head.x, head.y.wrapping_sub(1)),
            Direction::Down => Position::new(head.x, head.y + 1),
            Direction::Left => Position::new(head.x.wrapping_sub(1), head.y),
            Direction::Right => Position::new(head.x + 1, head.y),
        };
        assert(new_head == old(self).next_head());

        // Wall collision (checked before inserting head)
        if new_head.x == 0 || new_head.x >= self.width - 1 || new_head.y == 0 || new_head.y
            >= self.height - 1 {
            self.snake.body.push_front(new_head);
            self.set_game_over();
            events.died = true;
            return events;
        }
        // Self collision (checked before inserting head, so no skip needed)

        if body_contains(&self.snake.body, new_head) {
            self.snake.body.push_front(new_head);
            self.set_game_over();
            events.died = true;
            return events;
        }
        self.snake.body.push_front(new_head);
        assert(self.body() == old(self).grown_body());

        // Food consumption
        if new_head == self.food {
            self.score = self.score + 1;
            events.ate_food = true;
            if !self.spawn_food() {
                if self.score > self.high_score {
                    self.high_score = self.score;
                }
                self.state = GameState::Win;
                proof {
                    if old(self).consistent() {
                        lemma_grown_body_coherent(
                            old(self).body(),
                            new_head,
                            self.width as int,
                            self.height as int,
                        );
                        lemma_filled_board(self.body(), self.width as int, self.height as int);
                    }
                }
                return events;
            }
        } else if match self.bonus_food {
            Some(b) => b.pos == new_head,
            None => false,
        } {
            self.score = self.score + BONUS_POINTS;
            events.ate_bonus = true;
            self.bonus_food = None;
        } else {
            self.snake.body.pop_back();
        }

        self.tick_bonus_food();
        proof {
            if old(self).consistent() {
                lemma_grown_body_coherent(
                    old(self).body(),
                    new_head,
                    self.width as int,
                    self.height as int,
                );
                let g = old(self).grown_body();
                if self.body() != g {
                    assert(self.body() == g.drop_last());
                    assert(!g.drop_last().contains(self.food)) by {
                        if g.drop_last().contains(self.food) {
                            let k = choose|k: int|
                                0 <= k < g.drop_last().len() && g.drop_last()[k] == self.food;
                            assert(g[k] == self.food);
                        }
                    }
                } else if self.food == old(self).food {
                    assert(!g.contains(self.food)) by {
                        if g.contains(self.food) {
                            let k = choose|k: int| 0 <= k < g.len() && g[k] == self.food;
                            if k > 0 {
                                assert(old(self).body()[k - 1] == self.food);
                            }
                        }
                    }
                }
                assert(self.snake.headings() == turned.headings());
            }
        }
        events
    }
}

/// Pausing touches nothing but the state: play becomes pause, pause becomes
/// play, and any other game is left exactly as it is.
pub proof fn lemma_pause_toggle_changes_only_state(game: Game)
    ensures
        (game.pause_toggled() == Game { state: game.pause_toggled().state, ..game }),
        game.state is Playing ==> game.pause_toggled().state == GameState::Paused,
        game.state is Paused ==> game.pause_toggled().state == GameState::Playing,
        !(game.state is Playing || game.state is Paused) ==> game.pause_toggled() == game,
{
}

/// Pausing twice gives back the game as it was.
pub proof fn lemma_pause_toggle_twice(game: Game)
    ensures
        game.pause_toggled().pause_toggled() == game,
{
}

/// Pushing a fresh interior cell onto a coherent body keeps it coherent, with
/// or without the tail removed.
proof fn lemma_grown_body_coherent(body: Seq<Position>, head: Position, width: int, height: int)
    requires
        body.len() >= 1,
        body.no_duplicates(),
        !body.contains(head),
        in_interior(head, width, height),
        forall|i: int| 0 <= i < body.len() ==> in_interior(#[trigger] body[i], width, height),
    ensures
        (seq![head] + body).no_duplicates(),
        (seq![head] + body).drop_last().no_duplicates(),
        forall|i: int|
            0 <= i < (seq![head] + body).len() ==> in_interior(
                #[trigger] (seq![head] + body)[i],
                width,
                height,
            ),
        forall|i: int|
            0 <= i < (seq![head] + body).drop_last().len() ==> in_interior(
                #[trigger] (seq![head] + body).drop_last()[i],
                width,
                height,
            ),
{
    let g = seq![head] + body;
    assert forall|i: int, j: int| 0 <= i < g.len() && 0 <= j < g.len() && i != j implies g[i]
        != g[j] by {
        if i == 0 && j > 0 {
            assert(g[j] == body[j - 1]);
        } else if j == 0 && i > 0 {
            assert(g[i] == body[i - 1]);
        } else if i > 0 && j > 0 {
            assert(g[i] == body[i - 1]);
            assert(g[j] == body[j - 1]);
        }
    }
    assert forall|i: int| 0 <= i < g.len() implies in_interior(#[trigger] g[i], width, height) by {
        if i > 0 {
            assert(g[i] == body[i - 1]);
        }
    }
    let d = g.drop_last();
    assert forall|i: int, j: int| 0 <= i < d.len() && 0 <= j < d.len() && i != j implies d[i]
        != d[j] by {
        assert(d[i] == g[i]);
        assert(d[j] == g[j]);
    }
    assert forall|i: int| 0 <= i < d.len() implies in_interior(#[trigger] d[i], width, height) by {
        assert(d[i] == g[i]);
    }
}

} // verus!
