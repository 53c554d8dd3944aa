use vstd::prelude::*;

use crate::game::GameState;
use crate::grid::Position;
use crate::grid::ARENA_HEIGHT;
use crate::grid::ARENA_WIDTH;
use crate::rng::random_below;

verus! {

/// A cell is occupied when some snake segment or the food sits on it.
pub open spec fn spec_occupied(s: GameState, p: Position) -> bool {
    s.segments@.contains(p) || s.food == Some(p)
}

/// A cell is free for food placement when it lies inside the arena and
/// nothing occupies it.
pub open spec fn spec_free(s: GameState, p: Position) -> bool {
    p.spec_in_bounds() && !spec_occupied(s, p)
}

/// Whether `v` holds the position `p`.
#[verifier::loop_isolation(false)]
fn contains_position(v: &Vec<Position>, p: Position) -> (r: bool)
    ensures
        r == v@.contains(p),
{
    let mut i: usize = 0;
    while i < v.len()
        invariant
            0 <= i <= v@.len(),
            forall|j: int| 0 <= j < i ==> v@[j] != p,
        decreases v@.len() - i,
    {
        if v[i] == p {
            return true;
        }
        i += 1;
    }
    false
}

impl GameState {
    /// Whether some snake segment or the food occupies `p`.
    pub fn occupied(&self, p: Position) -> (r: bool)
        ensures
            r == spec_occupied(*self, p),
    {
        if contains_position(&self.segments, p) {
            return true;
        }
        match self.food {
            Some(f) => f == p,
            None => false,
        }
    }

    /// All cells of the arena minus all occupied cells, in row-major order:
    /// exactly the cells where food may be placed this tick.
    #[verifier::loop_isolation(false)]
    pub fn free_cells(&self) -> (r: Vec<Position>)
        ensures
            forall|p: Position| r@.contains(p) <==> #[trigger] spec_free(*self, p),
            forall|i: int| 0 <= i < r@.len() ==> spec_free(*self, r@[i]),
            forall|i: int, j: int|
                0 <= i < j < r@.len() ==> (r@[i].x < r@[j].x || (r@[i].x == r@[j].x && r@[i].y
                    < r@[j].y)),
            forall|i: int, j: int| 0 <= i < j < r@.len() ==> r@[i] != r@[j],
    {
        let mut free: Vec<Position> = Vec::new();
        let mut x: i32 = 0;
        while x < ARENA_WIDTH
            invariant
                0 <= x <= ARENA_WIDTH,
                forall|i: int|
                    0 <= i < free@.len() ==> #[trigger] spec_free(*self, free@[i]) && free@[i].x
                        < x,
                forall|p: Position|
                    #[trigger] spec_free(*self, p) && p.x < x ==> free@.contains(p),
                forall|i: int, j: int|
                    0 <= i < j < free@.len() ==> (free@[i].x < free@[j].x || (free@[i].x
                        == free@[j].x && free@[i].y < free@[j].y)),
            decreases ARENA_WIDTH - x,
        {
            let mut y: i32 = 0;
            while y < ARENA_HEIGHT
                invariant
                    0 <= x < ARENA_WIDTH,
                    0 <= y <= ARENA_HEIGHT,
                    forall|i: int|
                        0 <= i < free@.len() ==> #[trigger] spec_free(*self, free@[i]) && (
                        free@[i].x < x || (free@[i].x == x && free@[i].y < y)),
                    forall|p: Position|
                        #[trigger] spec_free(*self, p) && (p.x < x || (p.x == x && p.y < y))
                            ==> free@.contains(p),
                    forall|i: int, j: int|
                        0 <= i < j < free@.len() ==> (free@[i].x < free@[j].x || (free@[i].x
                            == free@[j].x && free@[i].y < free@[j].y)),
                decreases ARENA_HEIGHT - y,
            {
                let p = Position { x, y };
                let ghost pre = free@;
                if !self.occupied(p) {
                    free.push(p);
                }
                proof {
                    assert forall|q: Position|
                        #[trigger] spec_free(*self, q) && (q.x < x || (q.x == x && q.y < y
                            + 1)) implies free@.contains(q) by {
                        if q.x < x || (q.x == x && q.y < y) {
                            let j = choose|j: int| 0 <= j < pre.len() && pre[j] == q;
                            assert(free@[j] == q);
                        } else {
                            assert(q == p);
                            assert(free@[free@.len() - 1] == p);
                        }
                    }
                    assert forall|i: int|
                        0 <= i < free@.len() implies #[trigger] spec_free(*self, free@[i]) && (
                    free@[i].x < x || (free@[i].x == x && free@[i].y < y + 1)) by {
                        if i < pre.len() {
                            assert(free@[i] == pre[i]);
                            assert(spec_free(*self, pre[i]));
                        } else {
                            assert(free@[i] == p);
                        }
                    }
                    assert forall|i: int, j: int| 0 <= i < j < free@.len() implies (free@[i].x
                        < free@[j].x || (free@[i].x == free@[j].x && free@[i].y < free@[j].y)) by {
                        assert(free@[i] == pre[i]);
                        assert(spec_free(*self, pre[i]));
                        if j < pre.len() {
                            assert(free@[j] == pre[j]);
                        } else {
                            assert(free@[j] == p);
                        }
                    }
                }
                y += 1;
            }
            x += 1;
        }
        proof {
            assert forall|p: Position| free@.contains(p) implies spec_free(*self, p) by {
                let j = choose|j: int| 0 <= j < free@.len() && free@[j] == p;
            }
            assert forall|p: Position| spec_free(*self, p) implies free@.contains(p) by {
                assert(p.x < ARENA_WIDTH);
            }
        }
        free
    }

    /// One food-placement tick. If a food item already exists the tick is a
    /// no-op. Otherwise, if any free cell exists, one free cell is chosen at
    /// random and the food is placed there — never on a snake segment; if the
    /// whole arena is occupied, no food is placed. The `Option` food field
    /// keeps at most one food item in existence at any time.
    pub fn food_tick(&mut self)
        requires
            old(self).wf(),
        ensures
            final(self).wf(),
            final(self).segments@ == old(self).segments@,
            final(self).pending_direction == old(self).pending_direction,
            final(self).last_direction == old(self).last_direction,
            final(self).last_tail_position == old(self).last_tail_position,
            old(self).food is Some ==> final(self).food == old(self).food,
            old(self).food is None && (exists|p: Position| #[trigger] spec_free(*old(self), p))
                ==> (final(self).food matches Some(f) && spec_free(*old(self), f)),
            old(self).food is None && !(exists|p: Position| #[trigger] spec_free(*old(self), p))
                ==> final(self).food is None,
    {
        match self.food {
            Some(_) => {},
            None => {
                let free = self.free_cells();
                if free.len() > 0 {
                    let idx = random_below(free.len());
                    let p = free[idx];
                    proof {
                        assert(free@.contains(free@[idx as int]));
                    }
                    self.food = Some(p);
                } else {
                    proof {
                        assert forall|p: Position| !spec_free(*old(self), p) by {
                            if spec_free(*old(self), p) {
                                assert(free@.contains(p));
                            }
                        }
                    }
                }
            },
        }
    }
}

} // verus!
