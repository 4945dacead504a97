//! The swipe rule of one gesture hold: raw-XY travel is summed over the
//! hold, and the hold commits to a direction once it has lasted the swipe
//! hold and the dominant axis has travelled the swipe distance, at most once
//! per hold. A hold released without a commit is a click.
use crate::binding::GestureDirection;
use crate::tuning::GestureTuning;
use vstd::prelude::*;

verus! {

/// Travel beyond this magnitude on an axis is not counted further.
pub const SWIPE_TRAVEL_LIMIT: i64 = 1_000_000;

/// `v` pulled into `-SWIPE_TRAVEL_LIMIT..=SWIPE_TRAVEL_LIMIT`.
pub open spec fn clamp_travel(v: int) -> int {
    if v > SWIPE_TRAVEL_LIMIT {
        SWIPE_TRAVEL_LIMIT as int
    } else if v < -SWIPE_TRAVEL_LIMIT {
        -SWIPE_TRAVEL_LIMIT
    } else {
        v
    }
}

/// `|v|`.
pub open spec fn abs(v: int) -> int {
    if v < 0 {
        -v
    } else {
        v
    }
}

/// The direction summed travel `(x, y)` commits to under `distance`: the
/// strictly dominant axis, once it has travelled at least `distance`.
pub open spec fn swipe_direction(x: int, y: int, distance: int) -> Option<GestureDirection> {
    if abs(x) >= distance && abs(x) > abs(y) {
        if x > 0 {
            Some(GestureDirection::Right)
        } else {
            Some(GestureDirection::Left)
        }
    } else if abs(y) >= distance && abs(y) > abs(x) {
        if y > 0 {
            Some(GestureDirection::Down)
        } else {
            Some(GestureDirection::Up)
        }
    } else {
        None
    }
}

/// The travel and timing of one gesture hold.
#[derive(Debug, Clone, Copy, PartialEq, Eq, Structural)]
pub struct SwipeAccumulator {
    /// The thresholds of the current hold.
    pub tuning: GestureTuning,
    /// A hold is in progress.
    pub holding: bool,
    /// The hold has committed its direction.
    pub committed: bool,
    /// Summed horizontal travel.
    pub sum_x: i64,
    /// Summed vertical travel.
    pub sum_y: i64,
    /// When the hold began, in milliseconds.
    pub started_ms: u64,
}

impl SwipeAccumulator {
    /// Travel stays within the counting limit.
    pub open spec fn wf(self) -> bool {
        &&& -SWIPE_TRAVEL_LIMIT <= self.sum_x <= SWIPE_TRAVEL_LIMIT
        &&& -SWIPE_TRAVEL_LIMIT <= self.sum_y <= SWIPE_TRAVEL_LIMIT
    }

    /// A fresh hold begun at `now_ms` under `tuning`.
    pub open spec fn begun(tuning: GestureTuning, now_ms: u64) -> Self {
        SwipeAccumulator { tuning, holding: true, committed: false, sum_x: 0, sum_y: 0, started_ms: now_ms }
    }

    /// No hold in progress.
    pub fn idle(tuning: GestureTuning) -> (r: Self)
        ensures
            r == (SwipeAccumulator { tuning, holding: false, committed: false, sum_x: 0, sum_y: 0, started_ms: 0 }),
    {
        SwipeAccumulator { tuning, holding: false, committed: false, sum_x: 0, sum_y: 0, started_ms: 0 }
    }

    /// Start a hold at `now_ms` with `tuning`.
    pub fn begin(tuning: GestureTuning, now_ms: u64) -> (r: Self)
        ensures
            r == Self::begun(tuning, now_ms),
    {
        SwipeAccumulator { tuning, holding: true, committed: false, sum_x: 0, sum_y: 0, started_ms: now_ms }
    }

    /// End the hold; whether it was a click (a hold that never committed).
    pub fn end(&mut self) -> (r: bool)
        ensures
            r == (old(self).holding && !old(self).committed),
            *final(self) == (SwipeAccumulator { holding: false, ..*old(self) }),
    {
        let click = self.holding && !self.committed;
        self.holding = false;
        click
    }

    /// Whether the hold has lasted its swipe hold at `now_ms`.
    pub open spec fn hold_elapsed(self, now_ms: u64) -> bool {
        now_ms >= self.started_ms && now_ms - self.started_ms >= self.tuning.swipe_hold.value()
    }

    /// What adding `(dx, dy)` of travel at `now_ms` makes of `before`: the
    /// state `after` and the direction `r` the hold commits to, if any.
    pub open spec fn accumulate_step(
        before: SwipeAccumulator,
        after: SwipeAccumulator,
        dx: int,
        dy: int,
        now_ms: u64,
        r: Option<GestureDirection>,
    ) -> bool {
        &&& before.wf() ==> after.wf()
        &&& (!before.holding || before.committed ==> r is None && after == before)
        &&& before.holding && !before.committed ==> {
            let x = clamp_travel(before.sum_x + dx);
            let y = clamp_travel(before.sum_y + dy);
            let dir = if before.hold_elapsed(now_ms) {
                swipe_direction(x, y, before.tuning.swipe_distance.value() as int)
            } else {
                None
            };
            &&& after.sum_x == x
            &&& after.sum_y == y
            &&& r == dir
            &&& after.committed == dir is Some
            &&& after.holding
            &&& after.tuning == before.tuning
            &&& after.started_ms == before.started_ms
        }
    }

    /// Add `(dx, dy)` of travel at `now_ms`; the direction the hold commits
    /// to, if it commits now. Travel outside a hold, or after the commit,
    /// is dropped.
    pub fn accumulate(&mut self, dx: i32, dy: i32, now_ms: u64) -> (r: Option<GestureDirection>)
        ensures
            Self::accumulate_step(*old(self), *final(self), dx as int, dy as int, now_ms, r),
    {
        if !self.holding || self.committed {
            return None;
        }
        let mut x = match self.sum_x.checked_add(dx as i64) {
            Some(v) => v,
            None => if dx > 0 {
                SWIPE_TRAVEL_LIMIT
            } else {
                -SWIPE_TRAVEL_LIMIT
            },
        };
        if x > SWIPE_TRAVEL_LIMIT {
            x = SWIPE_TRAVEL_LIMIT;
        } else if x < -SWIPE_TRAVEL_LIMIT {
            x = -SWIPE_TRAVEL_LIMIT;
        }
        let mut y = match self.sum_y.checked_add(dy as i64) {
            Some(v) => v,
            None => if dy > 0 {
                SWIPE_TRAVEL_LIMIT
            } else {
                -SWIPE_TRAVEL_LIMIT
            },
        };
        if y > SWIPE_TRAVEL_LIMIT {
            y = SWIPE_TRAVEL_LIMIT;
        } else if y < -SWIPE_TRAVEL_LIMIT {
            y = -SWIPE_TRAVEL_LIMIT;
        }
        self.sum_x = x;
        self.sum_y = y;
        let hold = self.tuning.swipe_hold.into_inner() as u64;
        if now_ms < self.started_ms || now_ms - self.started_ms < hold {
            return None;
        }
        let distance = self.tuning.swipe_distance.units() as i64;
        let ax = if x < 0 { -x } else { x };
        let ay = if y < 0 { -y } else { y };
        let dir = if ax >= distance && ax > ay {
            if x > 0 {
                Some(GestureDirection::Right)
            } else {
                Some(GestureDirection::Left)
            }
        } else if ay >= distance && ay > ax {
            if y > 0 {
                Some(GestureDirection::Down)
            } else {
                Some(GestureDirection::Up)
            }
        } else {
            None
        };
        if dir.is_some() {
            self.committed = true;
        }
        dir
    }
}

/// No hold commits a swipe before its swipe hold has passed: whatever the
/// travel, a sample that arrives less than the swipe hold after the hold
/// began commits nothing and leaves the hold uncommitted.
pub proof fn no_swipe_before_the_hold(
    tuning: GestureTuning,
    start_ms: u64,
    waited_ms: u64,
    dx: int,
    dy: int,
    after: SwipeAccumulator,
    r: Option<GestureDirection>,
)
    requires
        waited_ms < tuning.swipe_hold.value(),
        start_ms + waited_ms <= u64::MAX,
        SwipeAccumulator::accumulate_step(
            SwipeAccumulator::begun(tuning, start_ms),
            after,
            dx,
            dy,
            (start_ms + waited_ms) as u64,
            r,
        ),
    ensures
        r is None,
        !after.committed,
{
}

/// Whether a hold may commit depends only on how long it has lasted, not on
/// the clock's reading: two holds begun at different times, fed the same
/// travel after the same wait, answer alike.
pub proof fn swipe_gate_depends_on_elapsed_time(
    tuning: GestureTuning,
    start_a: u64,
    start_b: u64,
    waited_ms: u64,
    dx: int,
    dy: int,
    after_a: SwipeAccumulator,
    r_a: Option<GestureDirection>,
    after_b: SwipeAccumulator,
    r_b: Option<GestureDirection>,
)
    requires
        start_a + waited_ms <= u64::MAX,
        start_b + waited_ms <= u64::MAX,
        SwipeAccumulator::accumulate_step(
            SwipeAccumulator::begun(tuning, start_a),
            after_a,
            dx,
            dy,
            (start_a + waited_ms) as u64,
            r_a,
        ),
        SwipeAccumulator::accumulate_step(
            SwipeAccumulator::begun(tuning, start_b),
            after_b,
            dx,
            dy,
            (start_b + waited_ms) as u64,
            r_b,
        ),
    ensures
        r_a == r_b,
        after_a.committed == after_b.committed,
        after_a.sum_x == after_b.sum_x,
        after_a.sum_y == after_b.sum_y,
{
}

/// A committed swipe follows the travel: it is never a click, it comes only
/// once the swipe hold has passed, and its direction is the axis whose
/// travel is strictly larger than the other's and at least the swipe
/// distance, in the sign of that travel (right and down positive).
pub proof fn a_swipe_follows_the_dominant_travel(
    before: SwipeAccumulator,
    after: SwipeAccumulator,
    dx: int,
    dy: int,
    now_ms: u64,
    r: Option<GestureDirection>,
)
    requires
        SwipeAccumulator::accumulate_step(before, after, dx, dy, now_ms, r),
        r is Some,
    ensures
        before.holding && !before.committed,
        now_ms >= before.started_ms,
        now_ms - before.started_ms >= before.tuning.swipe_hold.value(),
        after.committed,
        r != Some(GestureDirection::Click),
        r == Some(GestureDirection::Right) ==> after.sum_x >= before.tuning.swipe_distance.value()
            && after.sum_x > after.sum_y && after.sum_x > -after.sum_y,
        r == Some(GestureDirection::Left) ==> -after.sum_x >= before.tuning.swipe_distance.value()
            && -after.sum_x > after.sum_y && -after.sum_x > -after.sum_y,
        r == Some(GestureDirection::Down) ==> after.sum_y >= before.tuning.swipe_distance.value()
            && after.sum_y > after.sum_x && after.sum_y > -after.sum_x,
        r == Some(GestureDirection::Up) ==> -after.sum_y >= before.tuning.swipe_distance.value()
            && -after.sum_y > after.sum_x && -after.sum_y > -after.sum_x,
{
}

/// Once the swipe hold has passed, travel that clearly leads on one axis by
/// at least the swipe distance commits the hold.
pub proof fn dominant_travel_commits_after_the_hold(
    before: SwipeAccumulator,
    after: SwipeAccumulator,
    dx: int,
    dy: int,
    now_ms: u64,
    r: Option<GestureDirection>,
)
    requires
        SwipeAccumulator::accumulate_step(before, after, dx, dy, now_ms, r),
        before.holding,
        !before.committed,
        now_ms >= before.started_ms,
        now_ms - before.started_ms >= before.tuning.swipe_hold.value(),
        ({
            let x = after.sum_x as int;
            let y = after.sum_y as int;
            let d = before.tuning.swipe_distance.value() as int;
            ||| x >= d && x > y && x > -y
            ||| -x >= d && -x > y && -x > -y
            ||| y >= d && y > x && y > -x
            ||| -y >= d && -y > x && -y > -x
        }),
    ensures
        r is Some,
        after.committed,
{
}

} // verus!
