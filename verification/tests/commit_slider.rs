use openlogi::slider::{SliderRange, Thumb};
use openlogi::tuning::SwipeDistance;

#[test]
fn the_thumb_follows_the_committed_value_except_while_dragged() {
    let resting = Thumb::seated_on(40);
    let dragging = resting.drag(55);

    // (thumb, committed) -> (re-seat to, shown)
    for (thumb, committed, reseat, shown) in [
        (resting, 40, None, 40),
        (resting, 70, Some(70), 70),
        (dragging, 40, None, 55),
        (dragging, 70, None, 55),
    ] {
        assert_eq!(thumb.reseat(committed), reseat, "{thumb:?} / {committed}");
        assert_eq!(thumb.shown(committed), shown, "{thumb:?} / {committed}");
    }
}

/// A UVC control can report its bounds the wrong way round; a value is
/// clamped between them, not to the first one.
#[test]
fn a_clamp_uses_the_ordered_bounds() {
    let reversed = SliderRange::new(-2_i32, -11);

    assert_eq!(reversed.clamp(-20), -11);
    assert_eq!(reversed.clamp(-5), -5);
    assert_eq!(reversed.clamp(3), -2);
}

#[test]
fn a_range_orders_its_bounds_whatever_order_they_come_in() {
    for (a, b, min, max) in [
        (0, 100, 0, 100),
        (100, 0, 0, 100),
        (200, 6400, 200, 6400),
        (-11, -2, -11, -2),
        (-2, -11, -11, -2),
        (-5, 10, -5, 10),
        (7, 7, 7, 7),
    ] {
        let range = SliderRange::new(a, b);
        assert_eq!((range.min(), range.max()), (min, max), "{a}..{b}");
    }
}

#[test]
fn a_release_seats_the_thumb_and_ends_the_drag() {
    let released = Thumb::seated_on(50_u8);
    assert_eq!(released.seated, 50);
    assert_eq!(released.dragged, None);
    assert_eq!(released.shown(40), 40, "the committed value is back");
    assert_eq!(released.reseat(40), Some(40));
}

#[test]
fn domain_values_clamp_by_their_units() {
    let range = SliderRange::new(SwipeDistance::max_value(), SwipeDistance::min_value());
    assert_eq!(range.min(), SwipeDistance::min_value());
    let sixty = SwipeDistance::try_new(60).unwrap();
    assert_eq!(range.clamp(sixty), sixty);
    let narrow = SliderRange::new(SwipeDistance::try_new(30).unwrap(), SwipeDistance::try_new(40).unwrap());
    assert_eq!(narrow.clamp(sixty).into_inner(), 40);
    assert_eq!(narrow.clamp(SwipeDistance::min_value()).into_inner(), 30);
}

#[test]
fn a_thumb_between_two_stops_only_moves_when_the_committed_stop_changes() {
    let nearest_ten = |value: u8| (value + 5) / 10 * 10;
    // The thumb rests on 44, between the stops 40 and 50.
    let resting = Thumb::seated_on(44_u8);
    assert_eq!(resting.reseat_snapped(nearest_ten(44), 40), None, "44 already resolves to 40");
    assert_eq!(resting.reseat_snapped(nearest_ten(44), 70), Some(70));
    // A committed value that changes under a drag waits for the release.
    let dragging = Thumb::seated_on(70_u8).drag(55);
    assert_eq!(dragging.reseat_snapped(nearest_ten(55), 40), None, "the dragged thumb stays where it is");
    let released = Thumb::seated_on(55_u8);
    assert_eq!(released.reseat_snapped(nearest_ten(55), 40), Some(40), "released, it follows the committed stop again");
}
