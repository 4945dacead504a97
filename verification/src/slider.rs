//! The write-on-release slider the settings panels share: its bounds, and the
//! thumb that shows the live value while dragged and follows the committed
//! value otherwise, but never mid-drag.
use vstd::prelude::*;
use crate::config::{
    SmoothScrollAcceleration, SmoothScrollGlide, SmoothScrollPause, SmoothScrollTouch, VerticalScrollSensitivity,
};
use crate::device::{Dpi, SmartShiftThreshold, ThumbwheelSensitivity};
use crate::tuning::{LongPressDelay, SwipeDistance, SwipeHold};
use vstd::std_specs::cmp::PartialEqSpec;

verus! {

/// A value a slider thumb can rest on, measured in whole slider units.
pub trait SliderUnit: Copy {
    /// The value in slider units.
    spec fn units(&self) -> int;

    /// The value in slider units.
    fn to_units(&self) -> (r: i64)
        ensures
            r == self.units(),
    ;
}

impl SliderUnit for u8 {
    open spec fn units(&self) -> int {
        *self as int
    }

    fn to_units(&self) -> (r: i64) {
        *self as i64
    }
}

impl SliderUnit for u16 {
    open spec fn units(&self) -> int {
        *self as int
    }

    fn to_units(&self) -> (r: i64) {
        *self as i64
    }
}

impl SliderUnit for i32 {
    open spec fn units(&self) -> int {
        *self as int
    }

    fn to_units(&self) -> (r: i64) {
        *self as i64
    }
}

impl SliderUnit for SwipeDistance {
    open spec fn units(&self) -> int {
        self.value() as int
    }

    fn to_units(&self) -> (r: i64) {
        self.into_inner() as i64
    }
}

impl SliderUnit for SwipeHold {
    open spec fn units(&self) -> int {
        self.value() as int
    }

    fn to_units(&self) -> (r: i64) {
        self.into_inner() as i64
    }
}

impl SliderUnit for LongPressDelay {
    open spec fn units(&self) -> int {
        self.value() as int
    }

    fn to_units(&self) -> (r: i64) {
        self.into_inner() as i64
    }
}

impl SliderUnit for SmartShiftThreshold {
    open spec fn units(&self) -> int {
        self.value() as int
    }

    fn to_units(&self) -> (r: i64) {
        self.into_inner() as i64
    }
}

impl SliderUnit for Dpi {
    open spec fn units(&self) -> int {
        self.0 as int
    }

    fn to_units(&self) -> (r: i64) {
        self.0 as i64
    }
}

impl SliderUnit for ThumbwheelSensitivity {
    open spec fn units(&self) -> int {
        self.0 as int
    }

    fn to_units(&self) -> (r: i64) {
        self.0 as i64
    }
}

impl SliderUnit for VerticalScrollSensitivity {
    open spec fn units(&self) -> int {
        self.0 as int
    }

    fn to_units(&self) -> (r: i64) {
        self.0 as i64
    }
}

impl SliderUnit for SmoothScrollAcceleration {
    open spec fn units(&self) -> int {
        self.0 as int
    }

    fn to_units(&self) -> (r: i64) {
        self.0 as i64
    }
}

impl SliderUnit for SmoothScrollGlide {
    open spec fn units(&self) -> int {
        self.0 as int
    }

    fn to_units(&self) -> (r: i64) {
        self.0 as i64
    }
}

impl SliderUnit for SmoothScrollTouch {
    open spec fn units(&self) -> int {
        self.0 as int
    }

    fn to_units(&self) -> (r: i64) {
        self.0 as i64
    }
}

impl SliderUnit for SmoothScrollPause {
    open spec fn units(&self) -> int {
        self.0 as int
    }

    fn to_units(&self) -> (r: i64) {
        self.0 as i64
    }
}

/// The bounds of one slider, always ordered.
#[derive(Debug)]
pub struct SliderRange<T: SliderUnit> {
    min: T,
    max: T,
}

impl<T: SliderUnit> SliderRange<T> {
    /// The bounds are ordered by their slider units.
    #[verifier::type_invariant]
    spec fn ordered(self) -> bool {
        self.min.units() <= self.max.units()
    }

    /// The lower bound.
    pub closed spec fn lower(self) -> T {
        self.min
    }

    /// The upper bound.
    pub closed spec fn upper(self) -> T {
        self.max
    }

    /// The range between `a` and `b`, in whichever order: a device that
    /// reports its bounds the wrong way round still gets a slider.
    pub fn new(a: T, b: T) -> (r: Self)
        ensures
            a.units() <= b.units() ==> r.lower() == a && r.upper() == b,
            b.units() < a.units() ==> r.lower() == b && r.upper() == a,
    {
        if a.to_units() <= b.to_units() {
            SliderRange { min: a, max: b }
        } else {
            SliderRange { min: b, max: a }
        }
    }

    /// The lower bound.
    pub fn min(&self) -> (r: T)
        ensures
            r == self.lower(),
            r.units() <= self.upper().units(),
    {
        proof {
            use_type_invariant(self);
        }
        self.min
    }

    /// The upper bound.
    pub fn max(&self) -> (r: T)
        ensures
            r == self.upper(),
            self.lower().units() <= r.units(),
    {
        proof {
            use_type_invariant(self);
        }
        self.max
    }

    /// `value`, pulled inside the range.
    pub fn clamp(&self, value: T) -> (r: T)
        ensures
            value.units() < self.lower().units() ==> r == self.lower(),
            self.upper().units() < value.units() ==> r == self.upper(),
            self.lower().units() <= value.units() <= self.upper().units() ==> r == value,
            self.lower().units() <= r.units() <= self.upper().units(),
    {
        proof {
            use_type_invariant(self);
        }
        let raw = value.to_units();
        if raw < self.min.to_units() {
            self.min
        } else if raw > self.max.to_units() {
            self.max
        } else {
            value
        }
    }
}

/// Where the thumb rests and whether it is being dragged.
#[derive(Debug, Clone, Copy, PartialEq)]
pub struct Thumb<T> {
    /// The value the thumb was last put on: by a release, or by a re-seat.
    pub seated: T,
    /// The value under the thumb while a drag is in progress.
    pub dragged: Option<T>,
}

/// The value to move a thumb to so that it shows `committed`: none while it
/// is dragged or already rests there.
pub open spec fn reseat_target<T: PartialEqSpec>(thumb: Thumb<T>, committed: T) -> Option<T> {
    if thumb.dragged is None && !thumb.seated.eq_spec(&committed) {
        Some(committed)
    } else {
        None
    }
}

impl<T: Copy + PartialEq> Thumb<T> {
    /// A thumb at rest on `value`.
    pub fn seated_on(value: T) -> (r: Self)
        ensures
            r.seated == value,
            r.dragged is None,
    {
        Thumb { seated: value, dragged: None }
    }

    /// The thumb dragged over `value`; where it rests is unchanged.
    pub fn drag(self, value: T) -> (r: Self)
        ensures
            r.seated == self.seated,
            r.dragged == Some(value),
    {
        Thumb { seated: self.seated, dragged: Some(value) }
    }

    /// The value to move the thumb to so that it shows `committed`, or `None`
    /// when it already does or a drag is in progress.
    pub fn reseat(self, committed: T) -> (r: Option<T>)
        ensures
            self.dragged is Some ==> r is None,
            T::obeys_eq_spec() ==> r == reseat_target(self, committed),
    {
        if self.dragged.is_none() && self.seated != committed {
            Some(committed)
        } else {
            None
        }
    }

    /// For a slider whose stops are coarser than its step: the value to move
    /// the thumb to, given `snapped`, the stop its current position resolves
    /// to. It moves only when that stop differs from `committed`, so a thumb
    /// dropped between two stops stays where it was left, and never mid-drag.
    pub fn reseat_snapped(self, snapped: T, committed: T) -> (r: Option<T>)
        ensures
            self.dragged is Some ==> r is None,
            T::obeys_eq_spec() ==> r == (if self.dragged is None && !snapped.eq_spec(&committed) {
                Some(committed)
            } else {
                None
            }),
    {
        if self.dragged.is_none() && snapped != committed {
            Some(committed)
        } else {
            None
        }
    }

    /// What the thumb shows: the value being dragged, else `committed`.
    pub fn shown(self, committed: T) -> (r: T)
        ensures
            r == match self.dragged {
                Some(v) => v,
                None => committed,
            },
    {
        match self.dragged {
            Some(v) => v,
            None => committed,
        }
    }
}

} // verus!
