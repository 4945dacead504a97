use std::time::Duration;

use openlogi::tuning::{
    clamp_u16, GestureTuning, LongPressDelay, RangeError, SwipeDistance, SwipeHold,
};

#[test]
fn defaults_keep_the_previous_constants() {
    let tuning = GestureTuning::default();
    assert_eq!(tuning.swipe_distance.units(), 50);
    assert_eq!(tuning.swipe_hold.duration(), Duration::from_millis(160));
    assert_eq!(tuning.long_press.duration(), Duration::from_millis(500));
}

#[test]
fn out_of_range_values_are_rejected() {
    SwipeDistance::try_new(19).unwrap_err();
    SwipeHold::try_new(501).unwrap_err();
    LongPressDelay::try_new(199).unwrap_err();
}

#[test]
fn each_bound_rejects_with_its_own_error() {
    assert_eq!(SwipeDistance::try_new(19), Err(RangeError::GreaterOrEqualViolated));
    assert_eq!(SwipeDistance::try_new(201), Err(RangeError::LessOrEqualViolated));
    assert_eq!(SwipeHold::try_new(501), Err(RangeError::LessOrEqualViolated));
    assert_eq!(LongPressDelay::try_new(199), Err(RangeError::GreaterOrEqualViolated));
    assert_eq!(LongPressDelay::try_new(1501), Err(RangeError::LessOrEqualViolated));
}

#[test]
fn in_range_values_are_kept() {
    assert_eq!(SwipeDistance::try_new(20).map(SwipeDistance::into_inner), Ok(20));
    assert_eq!(SwipeDistance::try_new(200).map(SwipeDistance::into_inner), Ok(200));
    assert_eq!(SwipeHold::try_new(0).map(SwipeHold::into_inner), Ok(0));
    assert_eq!(LongPressDelay::try_new(1500).map(LongPressDelay::into_inner), Ok(1500));
}

#[test]
fn clamped_values_stay_in_range() {
    assert_eq!(SwipeDistance::from_clamped(5), SwipeDistance::min_value());
    assert_eq!(SwipeDistance::from_clamped(1_000_000), SwipeDistance::max_value());
    assert_eq!(SwipeHold::from_clamped(-3), SwipeHold::min_value());
    assert_eq!(SwipeHold::from_clamped(250).duration(), Duration::from_millis(250));
    assert_eq!(LongPressDelay::from_clamped(9999), LongPressDelay::max_value());
    assert_eq!(LongPressDelay::from_clamped(0), LongPressDelay::min_value());
    assert_eq!(clamp_u16(-7, 3, 9), 3);
    assert_eq!(clamp_u16(70, 3, 9), 9);
    assert_eq!(clamp_u16(5, 3, 9), 5);
}

#[test]
fn bounds_and_defaults_are_the_documented_numbers() {
    assert_eq!(SwipeDistance::min_value().into_inner(), 20);
    assert_eq!(SwipeDistance::max_value().into_inner(), 200);
    assert_eq!(SwipeHold::max_value().into_inner(), 500);
    assert_eq!(LongPressDelay::min_value().into_inner(), 200);
    assert_eq!(LongPressDelay::default_value().into_inner(), 500);
    assert!(GestureTuning::default() == GestureTuning {
        swipe_distance: SwipeDistance::default_value(),
        swipe_hold: SwipeHold::default_value(),
        long_press: LongPressDelay::default_value(),
    });
    assert_eq!(SwipeDistance::default(), SwipeDistance::default_value());
}

#[test]
fn durations_are_the_millisecond_values() {
    assert_eq!(SwipeHold::try_new(0).unwrap().duration(), Duration::ZERO);
    assert_eq!(LongPressDelay::try_new(1500).unwrap().duration(), Duration::from_millis(1500));
}
