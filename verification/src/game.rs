use vstd::prelude::*;

use crate::grid::Direction;
use crate::grid::Position;

verus! {

/// The canonical two-segment snake spawned at startup and after a reset:
/// head at (3, 3), tail at (3, 2), heading up.
pub open spec fn spec_canonical_segments() -> Seq<Position> {
    seq![Position { x: 3, y: 3 }, Position { x: 3, y: 2 }]
}

/// The body after one step: the head moves one cell in heading `d`, and every
/// trailing segment takes the position its predecessor held before the move.
pub open spec fn spec_advanced(s: Seq<Position>, d: Direction) -> Seq<Position> {
    Seq::new(
        s.len(),
        |i: int|
            if i == 0 {
                d.spec_step(s[0])
            } else {
                s[i - 1]
            },
    )
}

/// A wall collision: the post-move head lies outside the arena.
pub open spec fn spec_wall_collision(head: Position) -> bool {
    !head.spec_in_bounds()
}

/// A self collision: the post-move head coincides with some post-move trailing
/// segment.
pub open spec fn spec_self_collision(s: Seq<Position>) -> bool {
    exists|i: int| 1 <= i < s.len() && #[trigger] s[i] == s[0]
}

/// The one-shot signals produced by one game tick, each consumed within that
/// tick by exactly one listener.
#[derive(Clone, Copy, Debug, PartialEq, Eq, Structural)]
pub struct TickEvents {
    /// The head reached the food this tick; a segment was appended.
    pub growth: bool,
    /// The snake hit a wall or itself this tick; the board was reset.
    pub game_over: bool,
}

/// The whole game state threaded through each tick's transition.
pub struct GameState {
    /// The body, ordered head first; index 0 is the head.
    pub segments: Vec<Position>,
    /// The heading the head will move in on the next advance; the latest
    /// accepted input before the tick wins.
    pub pending_direction: Direction,
    /// The most recently applied heading, used to reject a 180-degree reversal
    /// requested before the next tick.
    pub last_direction: Direction,
    /// The pre-move position of the final segment, recorded by the last
    /// advance; a newly grown segment is placed exactly there.
    pub last_tail_position: Option<Position>,
    /// The cell holding the single food item, if one exists.
    pub food: Option<Position>,
}

impl GameState {
    /// Well-formedness: at least two segments, all inside the arena, and any
    /// food inside the arena.
    pub open spec fn wf(self) -> bool {
        &&& self.segments@.len() >= 2
        &&& forall|i: int|
            0 <= i < self.segments@.len() ==> self.segments@[i].spec_in_bounds()
        &&& (self.food matches Some(f) ==> f.spec_in_bounds())
    }

    /// A fresh board: the canonical snake, heading up, no food, no recorded
    /// tail position.
    pub fn new() -> (s: GameState)
        ensures
            s.segments@ == spec_canonical_segments(),
            s.pending_direction == Direction::Up,
            s.last_direction == Direction::Up,
            s.last_tail_position is None,
            s.food is None,
            s.wf(),
    {
        let mut segments: Vec<Position> = Vec::new();
        segments.push(Position { x: 3, y: 3 });
        segments.push(Position { x: 3, y: 2 });
        proof {
            assert(segments@ =~= spec_canonical_segments());
        }
        GameState {
            segments,
            pending_direction: Direction::Up,
            last_direction: Direction::Up,
            last_tail_position: None,
            food: None,
        }
    }

    /// Stores `d` as the heading for the next advance, unless `d` would
    /// reverse the most recently applied heading, in which case the request is
    /// rejected and the pending heading is left unchanged.
    pub fn set_pending_direction(&mut self, d: Direction)
        ensures
            final(self).pending_direction == (if d == old(self).last_direction.spec_opposite() {
                old(self).pending_direction
            } else {
                d
            }),
            final(self).segments@ == old(self).segments@,
            final(self).last_direction == old(self).last_direction,
            final(self).last_tail_position == old(self).last_tail_position,
            final(self).food == old(self).food,
    {
        if d == self.last_direction.opposite() {
        } else {
            self.pending_direction = d;
        }
    }

    /// Adds a new tail segment at `position` (normally the cell the tail
    /// vacated on the last move).
    pub fn append_segment_at(&mut self, position: Position)
        ensures
            final(self).segments@ == old(self).segments@.push(position),
            final(self).pending_direction == old(self).pending_direction,
            final(self).last_direction == old(self).last_direction,
            final(self).last_tail_position == old(self).last_tail_position,
            final(self).food == old(self).food,
    {
        self.segments.push(position);
    }

    /// Moves the snake one cell: the pending heading is applied to the head,
    /// every trailing segment shifts into its predecessor's pre-move position
    /// (all positions computed from one pre-move snapshot), the applied heading
    /// and the vacated tail cell are recorded, and the returned flag reports
    /// whether the move collided with a wall or with the snake's own body.
    /// Both checks use the same tick's post-move positions, and at most one
    /// signal is produced however many trailing segments coincide with the
    /// head.
    #[verifier::loop_isolation(false)]
    pub fn advance(&mut self) -> (game_over: bool)
        requires
            old(self).wf(),
        ensures
            final(self).segments@.len() == old(self).segments@.len(),
            final(self).segments@ == spec_advanced(old(self).segments@, old(self).pending_direction),
            final(self).segments@[0] == old(self).pending_direction.spec_step(old(self).segments@[0]),
            forall|i: int|
                1 <= i < old(self).segments@.len() ==> final(self).segments@[i] == old(self).segments@[i - 1],
            final(self).pending_direction == old(self).pending_direction,
            final(self).last_direction == old(self).pending_direction,
            final(self).last_tail_position == Some(old(self).segments@.last()),
            final(self).food == old(self).food,
            game_over == (spec_wall_collision(final(self).segments@[0]) || spec_self_collision(
                final(self).segments@,
            )),
    {
        let n = self.segments.len();
        let new_head = self.pending_direction.step(self.segments[0]);
        let tail = self.segments[n - 1];

        let mut new_segments: Vec<Position> = Vec::new();
        new_segments.push(new_head);
        let mut self_hit = false;
        let mut i: usize = 1;
        while i < n
            invariant
                1 <= i <= n,
                new_segments@.len() == i,
                new_segments@[0] == new_head,
                forall|j: int| 1 <= j < i ==> new_segments@[j] == self.segments@[j - 1],
                self_hit == (exists|j: int| 1 <= j < i && #[trigger] new_segments@[j] == new_head),
            decreases n - i,
        {
            let p = self.segments[i - 1];
            let ghost pre = new_segments@;
            let ghost pre_hit = self_hit;
            new_segments.push(p);
            if p == new_head {
                self_hit = true;
            }
            proof {
                if pre_hit {
                    let j = choose|j: int| 1 <= j < i && #[trigger] pre[j] == new_head;
                    assert(new_segments@[j] == new_head);
                }
                if p == new_head {
                    assert(new_segments@[i as int] == new_head);
                }
                if !pre_hit && p != new_head {
                    assert forall|j: int| 1 <= j < i + 1 implies #[trigger] new_segments@[j]
                        != new_head by {
                        if j < i {
                            assert(new_segments@[j] == pre[j]);
                        }
                    }
                }
            }
            i += 1;
        }
        proof {
            assert(new_segments@ =~= spec_advanced(self.segments@, self.pending_direction));
        }

        let wall = !new_head.in_bounds();
        self.segments = new_segments;
        self.last_direction = self.pending_direction;
        self.last_tail_position = Some(tail);
        wall || self_hit
    }

    /// The eating check run after movement: if the head sits on the food, the
    /// food is removed and a growth signal is returned.
    pub fn eating_check(&mut self) -> (ate: bool)
        requires
            old(self).segments@.len() >= 1,
        ensures
            ate == (old(self).food == Some(old(self).segments@[0])),
            final(self).food == (if ate {
                Option::<Position>::None
            } else {
                old(self).food
            }),
            final(self).segments@ == old(self).segments@,
            final(self).pending_direction == old(self).pending_direction,
            final(self).last_direction == old(self).last_direction,
            final(self).last_tail_position == old(self).last_tail_position,
    {
        let head = self.segments[0];
        let ate = match self.food {
            Some(f) => f == head,
            None => false,
        };
        if ate {
            self.food = None;
        }
        ate
    }

    /// The growth step run on a growth signal: appends one segment at the cell
    /// the tail occupied immediately before the triggering move.
    pub fn grow(&mut self)
        requires
            old(self).last_tail_position is Some,
        ensures
            final(self).segments@ == old(self).segments@.push(old(self).last_tail_position->Some_0),
            final(self).pending_direction == old(self).pending_direction,
            final(self).last_direction == old(self).last_direction,
            final(self).last_tail_position == old(self).last_tail_position,
            final(self).food == old(self).food,
    {
        match self.last_tail_position {
            Some(p) => self.append_segment_at(p),
            None => {},
        }
    }

    /// The reset run on a game-over signal: discards every segment and any
    /// food, and respawns the canonical snake heading up. The whole board is
    /// replaced within the tick that detected the collision; no partial state
    /// is observable.
    pub fn reset(&mut self)
        ensures
            final(self).segments@ == spec_canonical_segments(),
            final(self).pending_direction == Direction::Up,
            final(self).food is None,
            final(self).last_direction == old(self).last_direction,
            final(self).last_tail_position == old(self).last_tail_position,
            final(self).wf(),
    {
        let mut segments: Vec<Position> = Vec::new();
        segments.push(Position { x: 3, y: 3 });
        segments.push(Position { x: 3, y: 2 });
        proof {
            assert(segments@ =~= spec_canonical_segments());
        }
        self.segments = segments;
        self.pending_direction = Direction::Up;
        self.food = None;
    }

    /// One game tick, run after input handling: movement first, then — using
    /// the same post-move snapshot — the collision and eating checks, then
    /// growth, or on a collision an atomic reset. Exactly one of the returned
    /// signals can be set, and each is consumed here within the tick: a
    /// collision resets the board before the food could be eaten, so the food
    /// is never double-processed.
    pub fn game_tick(&mut self) -> (events: TickEvents)
        requires
            old(self).wf(),
        ensures
            final(self).wf(),
            ({
                let moved = spec_advanced(old(self).segments@, old(self).pending_direction);
                let collided = spec_wall_collision(moved[0]) || spec_self_collision(moved);
                let ate = old(self).food == Some(moved[0]);
                &&& events.game_over == collided
                &&& events.growth == (!collided && ate)
                &&& !(events.growth && events.game_over)
                &&& final(self).last_direction == old(self).pending_direction
                &&& final(self).last_tail_position == Some(old(self).segments@.last())
                &&& (collided ==> final(self).segments@ == spec_canonical_segments())
                &&& (collided ==> final(self).food is None)
                &&& (collided ==> final(self).pending_direction == Direction::Up)
                &&& (!collided ==> final(self).pending_direction == old(self).pending_direction)
                &&& (!collided && ate ==> final(self).segments@ == moved.push(old(self).segments@.last()))
                &&& (!collided && ate ==> final(self).segments@.len() == old(self).segments@.len() + 1)
                &&& (!collided && ate ==> final(self).food is None)
                &&& (!collided && !ate ==> final(self).segments@ == moved)
                &&& (!collided && !ate ==> final(self).food == old(self).food)
            }),
    {
        let game_over = self.advance();
        if game_over {
            self.reset();
            TickEvents { growth: false, game_over: true }
        } else {
            let ate = self.eating_check();
            if ate {
                self.grow();
            }
            TickEvents { growth: ate, game_over: false }
        }
    }
}

} // verus!
