//! Per-device timing and travel thresholds for gestures and long presses.
//!
//! Each value is a validated newtype whose default is the single owner of the
//! out-of-the-box behaviour; [`GestureTuning`] groups the three so the agent
//! can carry one per device.
use std::time::Duration;
use vstd::prelude::*;

verus! {

pub const SWIPE_DISTANCE_MIN: u16 = 20;
pub const SWIPE_DISTANCE_MAX: u16 = 200;
pub const SWIPE_DISTANCE_DEFAULT: u16 = 50;

pub const SWIPE_HOLD_MIN_MS: u16 = 0;
pub const SWIPE_HOLD_MAX_MS: u16 = 500;
pub const SWIPE_HOLD_DEFAULT_MS: u16 = 160;

pub const LONG_PRESS_MIN_MS: u16 = 200;
pub const LONG_PRESS_MAX_MS: u16 = 1500;
pub const LONG_PRESS_DEFAULT_MS: u16 = 500;

/// The duration of `ms` milliseconds, as `Duration::from_millis` builds it.
pub uninterp spec fn duration_of_millis(ms: u64) -> Duration;

/// `Duration::from_millis`: the same count of milliseconds always gives the
/// same duration. What the duration holds inside is not stated.
#[verifier::external_body]
fn duration_from_millis(ms: u64) -> (d: Duration)
    ensures
        d == duration_of_millis(ms),
{
    Duration::from_millis(ms)
}

/// `value` pulled into `min..=max`.
pub open spec fn clamp_spec(value: int, min: int, max: int) -> int {
    if value < min {
        min
    } else if value > max {
        max
    } else {
        value
    }
}

/// Clamp an already rounded slider position into `min..=max`.
pub fn clamp_u16(value: i64, min: u16, max: u16) -> (r: u16)
    requires
        min <= max,
    ensures
        r == clamp_spec(value as int, min as int, max as int),
        min <= r <= max,
{
    if value < min as i64 {
        min
    } else if value > max as i64 {
        max
    } else {
        value as u16
    }
}

/// Why a value was refused by one of the validated newtypes.
#[derive(Debug, Clone, Copy, PartialEq, Eq, Structural)]
pub enum RangeError {
    /// The value is below the type's minimum.
    GreaterOrEqualViolated,
    /// The value is above the type's maximum.
    LessOrEqualViolated,
}

/// The verdict on `value` for the range `min..=max`.
pub open spec fn range_check(value: int, min: int, max: int) -> Result<(), RangeError> {
    if value < min {
        Err(RangeError::GreaterOrEqualViolated)
    } else if value > max {
        Err(RangeError::LessOrEqualViolated)
    } else {
        Ok(())
    }
}

/// Minimum dominant-axis travel (raw-XY units) before a held gesture commits
/// to a direction. Larger values need a longer, more deliberate swipe.
#[derive(Debug, Clone, Copy, PartialEq, Eq, Structural, PartialOrd, Ord, Hash)]
pub struct SwipeDistance(u16);

impl SwipeDistance {
    #[verifier::type_invariant]
    spec fn in_range(self) -> bool {
        SWIPE_DISTANCE_MIN <= self.0 <= SWIPE_DISTANCE_MAX
    }

    /// The travel as a plain number.
    pub closed spec fn value(self) -> u16 {
        self.0
    }

    /// Two values are equal exactly when their numbers are.
    pub proof fn lemma_value_injective(a: Self, b: Self)
        ensures
            a.value() == b.value() <==> a == b,
    {
    }

    /// Accept `value` when it lies in `20..=200`.
    pub fn try_new(value: u16) -> (r: Result<Self, RangeError>)
        ensures
            r is Ok <==> range_check(value as int, SWIPE_DISTANCE_MIN as int, SWIPE_DISTANCE_MAX as int) is Ok,
            r matches Ok(d) ==> d.value() == value,
            r matches Err(e) ==> range_check(value as int, SWIPE_DISTANCE_MIN as int, SWIPE_DISTANCE_MAX as int) == Err::<(), RangeError>(e),
    {
        if value < SWIPE_DISTANCE_MIN {
            Err(RangeError::GreaterOrEqualViolated)
        } else if value > SWIPE_DISTANCE_MAX {
            Err(RangeError::LessOrEqualViolated)
        } else {
            Ok(SwipeDistance(value))
        }
    }

    /// Shortest selectable swipe.
    pub fn min_value() -> (r: Self)
        ensures
            r.value() == SWIPE_DISTANCE_MIN,
    {
        SwipeDistance(SWIPE_DISTANCE_MIN)
    }

    /// Longest selectable swipe.
    pub fn max_value() -> (r: Self)
        ensures
            r.value() == SWIPE_DISTANCE_MAX,
    {
        SwipeDistance(SWIPE_DISTANCE_MAX)
    }

    /// Out-of-the-box travel.
    pub fn default_value() -> (r: Self)
        ensures
            r.value() == SWIPE_DISTANCE_DEFAULT,
    {
        SwipeDistance(SWIPE_DISTANCE_DEFAULT)
    }

    /// The value nearest to an already rounded slider position.
    pub fn from_clamped(value: i64) -> (r: Self)
        ensures
            r.value() == clamp_spec(value as int, SWIPE_DISTANCE_MIN as int, SWIPE_DISTANCE_MAX as int),
    {
        SwipeDistance(clamp_u16(value, SWIPE_DISTANCE_MIN, SWIPE_DISTANCE_MAX))
    }

    /// The stored travel.
    pub fn into_inner(self) -> (r: u16)
        ensures
            r == self.value(),
            SWIPE_DISTANCE_MIN <= r <= SWIPE_DISTANCE_MAX,
    {
        proof {
            use_type_invariant(&self);
        }
        self.0
    }

    /// The travel as a raw-XY magnitude.
    pub fn units(self) -> (r: i32)
        ensures
            r == self.value(),
    {
        self.0 as i32
    }
}

impl Default for SwipeDistance {
    fn default() -> (r: Self)
        ensures
            r.value() == SWIPE_DISTANCE_DEFAULT,
    {
        SwipeDistance(SWIPE_DISTANCE_DEFAULT)
    }
}

/// How long (ms) a gesture button must be held before its travel can commit
/// to a swipe, so a quick click whose cursor drifted stays a click.
#[derive(Debug, Clone, Copy, PartialEq, Eq, Structural, PartialOrd, Ord, Hash)]
pub struct SwipeHold(u16);

impl SwipeHold {
    #[verifier::type_invariant]
    spec fn in_range(self) -> bool {
        SWIPE_HOLD_MIN_MS <= self.0 <= SWIPE_HOLD_MAX_MS
    }

    /// The hold in milliseconds.
    pub closed spec fn value(self) -> u16 {
        self.0
    }

    /// Two values are equal exactly when their numbers are.
    pub proof fn lemma_value_injective(a: Self, b: Self)
        ensures
            a.value() == b.value() <==> a == b,
    {
    }

    /// Accept `value` when it lies in `0..=500`.
    pub fn try_new(value: u16) -> (r: Result<Self, RangeError>)
        ensures
            r is Ok <==> range_check(value as int, SWIPE_HOLD_MIN_MS as int, SWIPE_HOLD_MAX_MS as int) is Ok,
            r matches Ok(d) ==> d.value() == value,
            r matches Err(e) ==> range_check(value as int, SWIPE_HOLD_MIN_MS as int, SWIPE_HOLD_MAX_MS as int) == Err::<(), RangeError>(e),
    {
        if value < SWIPE_HOLD_MIN_MS {
            Err(RangeError::GreaterOrEqualViolated)
        } else if value > SWIPE_HOLD_MAX_MS {
            Err(RangeError::LessOrEqualViolated)
        } else {
            Ok(SwipeHold(value))
        }
    }

    /// Shortest selectable hold (no delay).
    pub fn min_value() -> (r: Self)
        ensures
            r.value() == SWIPE_HOLD_MIN_MS,
    {
        SwipeHold(SWIPE_HOLD_MIN_MS)
    }

    /// Longest selectable hold.
    pub fn max_value() -> (r: Self)
        ensures
            r.value() == SWIPE_HOLD_MAX_MS,
    {
        SwipeHold(SWIPE_HOLD_MAX_MS)
    }

    /// Out-of-the-box hold.
    pub fn default_value() -> (r: Self)
        ensures
            r.value() == SWIPE_HOLD_DEFAULT_MS,
    {
        SwipeHold(SWIPE_HOLD_DEFAULT_MS)
    }

    /// The value nearest to an already rounded slider position.
    pub fn from_clamped(value: i64) -> (r: Self)
        ensures
            r.value() == clamp_spec(value as int, SWIPE_HOLD_MIN_MS as int, SWIPE_HOLD_MAX_MS as int),
    {
        SwipeHold(clamp_u16(value, SWIPE_HOLD_MIN_MS, SWIPE_HOLD_MAX_MS))
    }

    /// The stored hold in milliseconds.
    pub fn into_inner(self) -> (r: u16)
        ensures
            r == self.value(),
            SWIPE_HOLD_MIN_MS <= r <= SWIPE_HOLD_MAX_MS,
    {
        proof {
            use_type_invariant(&self);
        }
        self.0
    }

    /// The hold as a [`Duration`].
    pub fn duration(self) -> (d: Duration)
        ensures
            d == duration_of_millis(self.value() as u64),
    {
        duration_from_millis(self.0 as u64)
    }
}

impl Default for SwipeHold {
    fn default() -> (r: Self)
        ensures
            r.value() == SWIPE_HOLD_DEFAULT_MS,
    {
        SwipeHold(SWIPE_HOLD_DEFAULT_MS)
    }
}

/// How long (ms) a button must stay down before its long-press action fires.
#[derive(Debug, Clone, Copy, PartialEq, Eq, Structural, PartialOrd, Ord, Hash)]
pub struct LongPressDelay(u16);

impl LongPressDelay {
    #[verifier::type_invariant]
    spec fn in_range(self) -> bool {
        LONG_PRESS_MIN_MS <= self.0 <= LONG_PRESS_MAX_MS
    }

    /// The delay in milliseconds.
    pub closed spec fn value(self) -> u16 {
        self.0
    }

    /// Two values are equal exactly when their numbers are.
    pub proof fn lemma_value_injective(a: Self, b: Self)
        ensures
            a.value() == b.value() <==> a == b,
    {
    }

    /// Accept `value` when it lies in `200..=1500`.
    pub fn try_new(value: u16) -> (r: Result<Self, RangeError>)
        ensures
            r is Ok <==> range_check(value as int, LONG_PRESS_MIN_MS as int, LONG_PRESS_MAX_MS as int) is Ok,
            r matches Ok(d) ==> d.value() == value,
            r matches Err(e) ==> range_check(value as int, LONG_PRESS_MIN_MS as int, LONG_PRESS_MAX_MS as int) == Err::<(), RangeError>(e),
    {
        if value < LONG_PRESS_MIN_MS {
            Err(RangeError::GreaterOrEqualViolated)
        } else if value > LONG_PRESS_MAX_MS {
            Err(RangeError::LessOrEqualViolated)
        } else {
            Ok(LongPressDelay(value))
        }
    }

    /// Shortest selectable long press.
    pub fn min_value() -> (r: Self)
        ensures
            r.value() == LONG_PRESS_MIN_MS,
    {
        LongPressDelay(LONG_PRESS_MIN_MS)
    }

    /// Longest selectable long press.
    pub fn max_value() -> (r: Self)
        ensures
            r.value() == LONG_PRESS_MAX_MS,
    {
        LongPressDelay(LONG_PRESS_MAX_MS)
    }

    /// Out-of-the-box long press.
    pub fn default_value() -> (r: Self)
        ensures
            r.value() == LONG_PRESS_DEFAULT_MS,
    {
        LongPressDelay(LONG_PRESS_DEFAULT_MS)
    }

    /// The value nearest to an already rounded slider position.
    pub fn from_clamped(value: i64) -> (r: Self)
        ensures
            r.value() == clamp_spec(value as int, LONG_PRESS_MIN_MS as int, LONG_PRESS_MAX_MS as int),
    {
        LongPressDelay(clamp_u16(value, LONG_PRESS_MIN_MS, LONG_PRESS_MAX_MS))
    }

    /// The stored delay in milliseconds.
    pub fn into_inner(self) -> (r: u16)
        ensures
            r == self.value(),
            LONG_PRESS_MIN_MS <= r <= LONG_PRESS_MAX_MS,
    {
        proof {
            use_type_invariant(&self);
        }
        self.0
    }

    /// The delay as a [`Duration`].
    pub fn duration(self) -> (d: Duration)
        ensures
            d == duration_of_millis(self.value() as u64),
    {
        duration_from_millis(self.0 as u64)
    }
}

impl Default for LongPressDelay {
    fn default() -> (r: Self)
        ensures
            r.value() == LONG_PRESS_DEFAULT_MS,
    {
        LongPressDelay(LONG_PRESS_DEFAULT_MS)
    }
}

/// One device's gesture and long-press thresholds.
#[derive(Debug, Clone, Copy, PartialEq, Eq, Structural)]
pub struct GestureTuning {
    /// Travel before a held gesture commits a direction.
    pub swipe_distance: SwipeDistance,
    /// Hold before travel can commit a swipe.
    pub swipe_hold: SwipeHold,
    /// Hold before a long-press action fires.
    pub long_press: LongPressDelay,
}

impl GestureTuning {
    /// Whether every threshold sits at its out-of-the-box value.
    pub open spec fn is_default(self) -> bool {
        &&& self.swipe_distance.value() == SWIPE_DISTANCE_DEFAULT
        &&& self.swipe_hold.value() == SWIPE_HOLD_DEFAULT_MS
        &&& self.long_press.value() == LONG_PRESS_DEFAULT_MS
    }
}

impl Default for GestureTuning {
    fn default() -> (r: Self)
        ensures
            r.is_default(),
    {
        GestureTuning {
            swipe_distance: SwipeDistance::default_value(),
            swipe_hold: SwipeHold::default_value(),
            long_press: LongPressDelay::default_value(),
        }
    }
}

} // verus!
