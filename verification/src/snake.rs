//! Snake data types and movement logic.

use std::collections::VecDeque;
use vstd::prelude::*;

verus! {

/// The four cardinal directions the snake can move.
#[derive(Debug, PartialEq, Eq, Structural, Clone, Copy)]
pub enum Direction {
    Up,
    Down,
    Left,
    Right,
}

impl Direction {
    /// The direction pointing the other way.
    pub open spec fn reversed(self) -> Direction {
        match self {
            Direction::Up => Direction::Down,
            Direction::Down => Direction::Up,
            Direction::Left => Direction::Right,
            Direction::Right => Direction::Left,
        }
    }

    /// Returns the opposite direction.
    pub fn opposite(self) -> (r: Self)
        ensures
            r == self.reversed(),
    {
        match self {
            Self::Up => Self::Down,
            Self::Down => Self::Up,
            Self::Left => Self::Right,
            Self::Right => Self::Left,
        }
    }
}

/// Reversing a direction twice gives it back, and no direction is its own
/// opposite.
pub proof fn lemma_opposite_involution(d: Direction)
    ensures
        d.reversed().reversed() == d,
        d.reversed() != d,
{
}

/// Up and down are opposite, and so are left and right.
pub proof fn lemma_opposite_pairs()
    ensures
        Direction::Up.reversed() == Direction::Down,
        Direction::Down.reversed() == Direction::Up,
        Direction::Left.reversed() == Direction::Right,
        Direction::Right.reversed() == Direction::Left,
{
}

/// A 2D coordinate on the game board.
#[derive(Debug, Clone, Copy, PartialEq, Eq, Hash, Structural)]
pub struct Position {
    pub x: u16,
    pub y: u16,
}

impl Position {
    pub fn new(x: u16, y: u16) -> (p: Self)
        ensures
            p.x == x,
            p.y == y,
    {
        Self { x, y }
    }
}

/// The snake: a deque of body segments, a movement direction, and a small
/// input queue so rapid keypresses between ticks aren't lost.
///
/// Uses `VecDeque` for O(1) push_front (new head) and pop_back (tail removal).
pub struct Snake {
    /// Ordered segments: index 0 is the head, last element is the tail.
    pub body: VecDeque<Position>,
    /// Current movement direction applied on the next tick.
    pub direction: Direction,
    /// Buffered direction changes from keypresses between ticks.
    pub dir_queue: VecDeque<Direction>,
}

/// Number of body segments the snake starts with.
pub const INITIAL_LENGTH: u16 = 3;
/// Maximum buffered direction changes to prevent input flooding.
pub const MAX_DIR_QUEUE: usize = 2;

/// A turn from `from` to `to` is accepted when it neither repeats the heading
/// nor reverses it.
pub open spec fn turn_allowed(from: Direction, to: Direction) -> bool {
    to != from && to != from.reversed()
}

/// The body of a freshly created snake whose head is at `(x, y)`: three
/// segments in a row, extending to the left of the head.
pub open spec fn initial_body(x: u16, y: u16) -> Seq<Position> {
    seq![
        Position { x: x, y: y },
        Position { x: (x - 1) as u16, y: y },
        Position { x: (x - 2) as u16, y: y },
    ]
}

/// A new snake is three segments long with its head at `(x, y)`, and each
/// segment lies one cell to the left of the one before it, on the same row.
pub proof fn lemma_initial_body(x: u16, y: u16)
    requires
        x >= 2,
    ensures
        initial_body(x, y).len() == 3,
        initial_body(x, y)[0] == (Position { x: x, y: y }),
        forall|i: int|
            0 <= i < 2 ==> #[trigger] initial_body(x, y)[i + 1].y == y && initial_body(x, y)[i
                + 1].x == initial_body(x, y)[i].x - 1,
{
    assert(initial_body(x, y)[1].x == x - 1);
    assert(initial_body(x, y)[2].x == x - 2);
}

impl Snake {
    /// The current heading followed by the queued ones, in the order in
    /// which they take effect.
    pub open spec fn headings(&self) -> Seq<Direction> {
        seq![self.direction] + self.dir_queue@
    }

    /// The steering state is sound: the queue is within its bound and each
    /// heading is a proper turn from the one before it.
    pub open spec fn steering_wf(&self) -> bool {
        &&& self.dir_queue@.len() <= MAX_DIR_QUEUE
        &&& forall|i: int|
            0 <= i < self.dir_queue@.len() ==> turn_allowed(
                #[trigger] self.headings()[i],
                self.headings()[i + 1],
            )
    }

    /// The heading the snake will have once the whole queue has been
    /// applied: the last queued direction, or the current one.
    pub open spec fn effective_direction(&self) -> Direction {
        if self.dir_queue@.len() > 0 {
            self.dir_queue@.last()
        } else {
            self.direction
        }
    }

    /// Creates a snake of length 3, centered at `(x, y)`, facing right.
    pub fn new(x: u16, y: u16) -> (s: Self)
        requires
            x >= INITIAL_LENGTH - 1,
        ensures
            s.body@ == initial_body(x, y),
            s.direction == Direction::Right,
            s.dir_queue@ == Seq::<Direction>::empty(),
            s.steering_wf(),
    {
        let mut body: VecDeque<Position> = VecDeque::new();
        let mut i: u16 = 0;
        while i < INITIAL_LENGTH
            invariant
                i <= INITIAL_LENGTH,
                x >= INITIAL_LENGTH - 1,
                body@.len() == i,
                forall|j: int| 0 <= j < i ==> #[trigger] body@[j] == initial_body(x, y)[j],
            decreases INITIAL_LENGTH - i,
        {
            body.push_back(Position::new(x - i, y));
            i = i + 1;
        }
        assert(body@ =~= initial_body(x, y));
        let dir_queue: VecDeque<Direction> = VecDeque::new();
        Self { body, direction: Direction::Right, dir_queue }
    }

    /// Returns a reference to the head position.
    pub fn head(&self) -> (h: &Position)
        requires
            self.body@.len() > 0,
        ensures
            *h == self.body@[0],
    {
        &self.body[0]
    }

    /// Enqueues a direction change, ignoring 180-degree reversals relative to
    /// the last queued (or current) direction.
    pub fn enqueue_direction(&mut self, dir: Direction)
        ensures
            final(self).body == old(self).body,
            final(self).direction == old(self).direction,
            final(self).dir_queue@ == if turn_allowed(old(self).effective_direction(), dir)
                && old(self).dir_queue@.len() < MAX_DIR_QUEUE {
                old(self).dir_queue@.push(dir)
            } else {
                old(self).dir_queue@
            },
            old(self).steering_wf() ==> final(self).steering_wf(),
    {
        let len = self.dir_queue.len();
        let effective = if len > 0 {
            self.dir_queue[len - 1]
        } else {
            self.direction
        };
        if effective.opposite() != dir && effective != dir && len < MAX_DIR_QUEUE {
            self.dir_queue.push_back(dir);
            proof {
                let old_h = old(self).headings();
                let new_h = self.headings();
                assert(new_h =~= old_h.push(dir));
                assert(old_h.last() == effective);
                if old(self).steering_wf() {
                    assert forall|i: int| 0 <= i < self.dir_queue@.len() implies turn_allowed(
                        #[trigger] new_h[i],
                        new_h[i + 1],
                    ) by {
                        if i < old(self).dir_queue@.len() {
                            assert(new_h[i] == old_h[i]);
                            assert(new_h[i + 1] == old_h[i + 1]);
                        } else {
                            assert(new_h[i] == old_h[old_h.len() - 1]);
                            assert(new_h[i + 1] == dir);
                        }
                    }
                }
            }
        }
    }

    /// Pops the next queued direction (if any) and applies it.
    pub fn apply_queued_direction(&mut self)
        ensures
            final(self).body == old(self).body,
            old(self).dir_queue@.len() > 0 ==> {
                &&& final(self).direction == old(self).dir_queue@[0]
                &&& final(self).dir_queue@ == old(self).dir_queue@.drop_first()
            },
            old(self).dir_queue@.len() == 0 ==> {
                &&& final(self).direction == old(self).direction
                &&& final(self).dir_queue@ == old(self).dir_queue@
            },
            old(self).steering_wf() ==> final(self).steering_wf(),
            old(self).steering_wf() ==> final(self).direction != old(self).direction.reversed(),
    {
        if let Some(dir) = self.dir_queue.pop_front() {
            self.direction = dir;
            proof {
                let old_h = old(self).headings();
                let new_h = self.headings();
                assert(new_h =~= old_h.drop_first());
                if old(self).steering_wf() {
                    assert(turn_allowed(old_h[0], old_h[1]));
                    assert forall|i: int| 0 <= i < self.dir_queue@.len() implies turn_allowed(
                        #[trigger] new_h[i],
                        new_h[i + 1],
                    ) by {
                        assert(turn_allowed(old_h[i + 1], old_h[i + 2]));
                    }
                }
            }
        }
    }
}

} // verus!
