use openlogi::binding::GestureDirection;
use openlogi::swipe::SwipeAccumulator;
use openlogi::tuning::{GestureTuning, SwipeDistance, SwipeHold};

fn tuning() -> GestureTuning {
    GestureTuning {
        swipe_distance: SwipeDistance::try_new(40).unwrap(),
        swipe_hold: SwipeHold::try_new(100).unwrap(),
        ..GestureTuning::default()
    }
}

#[test]
fn travel_before_the_hold_elapses_counts_but_does_not_commit() {
    let mut swipe = SwipeAccumulator::begin(tuning(), 1000);
    assert_eq!(swipe.accumulate(30, 0, 1050), None);
    assert_eq!(swipe.accumulate(20, 5, 1100), Some(GestureDirection::Right));
    assert!(swipe.committed);
    assert_eq!(swipe.accumulate(-500, 0, 1200), None);
}

#[test]
fn the_dominant_axis_decides_and_ties_do_not_commit() {
    let mut up = SwipeAccumulator::begin(tuning(), 0);
    assert_eq!(up.accumulate(10, -60, 200), Some(GestureDirection::Up));
    let mut left = SwipeAccumulator::begin(tuning(), 0);
    assert_eq!(left.accumulate(-45, 0, 200), Some(GestureDirection::Left));
    let mut down = SwipeAccumulator::begin(tuning(), 0);
    assert_eq!(down.accumulate(0, 41, 200), Some(GestureDirection::Down));
    let mut tie = SwipeAccumulator::begin(tuning(), 0);
    assert_eq!(tie.accumulate(50, 50, 200), None);
    let mut short = SwipeAccumulator::begin(tuning(), 0);
    assert_eq!(short.accumulate(39, 0, 200), None);
}

#[test]
fn ending_a_hold_reports_a_click_only_without_a_commit() {
    let mut click = SwipeAccumulator::begin(tuning(), 0);
    assert!(click.end());
    assert!(!click.holding);
    let mut swiped = SwipeAccumulator::begin(tuning(), 0);
    swiped.accumulate(100, 0, 500);
    assert!(!swiped.end());
    let mut idle = SwipeAccumulator::idle(tuning());
    assert!(!idle.end());
    assert_eq!(idle.accumulate(100, 0, 500), None);
}

#[test]
fn travel_is_clamped_even_from_an_extreme_state() {
    let mut swipe = SwipeAccumulator::begin(tuning(), 0);
    swipe.sum_x = i64::MAX;
    swipe.sum_y = i64::MIN;
    assert_eq!(swipe.accumulate(i32::MAX, i32::MIN, 0), None);
    assert_eq!(swipe.sum_x, 1_000_000);
    assert_eq!(swipe.sum_y, -1_000_000);
}
