//! A game clock over a wall clock, with pause, resume and seek.
//!
//! Wall times are milliseconds from a monotonic source, handed in by the
//! caller; game times are milliseconds. Both stay within `TIME_BOUND` of
//! zero, the range in which a double-precision millisecond timestamp is exact.

use vstd::prelude::*;

verus! {

/// Bound on wall and game times (2^53 milliseconds).
pub const TIME_BOUND: i64 = 9007199254740992;

pub open spec fn in_bound(x: int) -> bool {
    -TIME_BOUND <= x <= TIME_BOUND
}

/// `x`, held within `TIME_BOUND` of zero.
pub open spec fn clamp_time(x: int) -> i64 {
    if x > TIME_BOUND {
        TIME_BOUND
    } else if x < -TIME_BOUND {
        (-TIME_BOUND) as i64
    } else {
        x as i64
    }
}

fn clamp_exec(x: i64) -> (r: i64)
    ensures
        r == clamp_time(x as int),
{
    if x > TIME_BOUND {
        TIME_BOUND
    } else if x < -TIME_BOUND {
        -TIME_BOUND
    } else {
        x
    }
}

/// Maps wall time to game time: game time 0 is at wall time `start_wall`;
/// while paused, the game time stands still at `pause_wall`.
#[derive(Debug, Clone, Copy, PartialEq, Eq, Structural)]
pub struct TimeManager {
    pub start_wall: i64,
    pub pause_wall: Option<i64>,
}

impl TimeManager {
    pub open spec fn wf(self) -> bool {
        &&& in_bound(self.start_wall as int)
        &&& match self.pause_wall {
            Some(p) => in_bound(p as int),
            None => true,
        }
    }

    /// The wall time the game time is read at.
    pub open spec fn reference(self, wall: i64) -> i64 {
        match self.pause_wall {
            Some(p) => p,
            None => wall,
        }
    }

    pub open spec fn spec_now(self, wall: i64) -> int {
        self.reference(wall) - self.start_wall
    }

    /// A running clock at game time 0 now.
    pub fn new(wall: i64) -> (r: TimeManager)
        requires
            in_bound(wall as int),
        ensures
            r.wf(),
            r.start_wall == wall,
            r.pause_wall is None,
    {
        TimeManager { start_wall: wall, pause_wall: None }
    }

    /// The game time at wall time `wall`.
    pub fn now(&self, wall: i64) -> (r: i64)
        requires
            self.wf(),
            in_bound(wall as int),
        ensures
            r == self.spec_now(wall),
    {
        let w = match self.pause_wall {
            Some(p) => p,
            None => wall,
        };
        w - self.start_wall
    }

    pub fn paused(&self) -> (r: bool)
        ensures
            r == self.pause_wall is Some,
    {
        self.pause_wall.is_some()
    }

    /// Stops the game time at its value at `wall`; no change if paused.
    pub fn pause(&mut self, wall: i64)
        requires
            old(self).wf(),
            in_bound(wall as int),
        ensures
            final(self).wf(),
            final(self).start_wall == old(self).start_wall,
            final(self).pause_wall == Some(old(self).reference(wall)),
    {
        if self.pause_wall.is_none() {
            self.pause_wall = Some(wall);
        }
    }

    /// Lets the game time run again from where it stood: the start moves
    /// forward by the length of the pause. No change if running.
    pub fn resume(&mut self, wall: i64)
        requires
            old(self).wf(),
            in_bound(wall as int),
        ensures
            final(self).wf(),
            final(self).pause_wall is None,
            final(self).start_wall == match old(self).pause_wall {
                Some(p) => clamp_time(old(self).start_wall + (wall - p)),
                None => old(self).start_wall,
            },
    {
        if let Some(p) = self.pause_wall {
            self.start_wall = clamp_exec(self.start_wall + (wall - p));
            self.pause_wall = None;
        }
    }

    /// Sets the game time to `pos`, keeping the pause state.
    pub fn seek_to(&mut self, pos: i64, wall: i64)
        requires
            old(self).wf(),
            in_bound(wall as int),
            in_bound(pos as int),
        ensures
            final(self).wf(),
            final(self).pause_wall == old(self).pause_wall,
            final(self).start_wall == clamp_time(old(self).reference(wall) - pos),
    {
        let w = match self.pause_wall {
            Some(p) => p,
            None => wall,
        };
        self.start_wall = clamp_exec(w - pos);
    }

    /// A running clock at game time 0 at `wall`.
    pub fn reset(&mut self, wall: i64)
        requires
            in_bound(wall as int),
        ensures
            final(self).wf(),
            final(self).start_wall == wall,
            final(self).pause_wall is None,
    {
        self.start_wall = wall;
        self.pause_wall = None;
    }
}

} // verus!
