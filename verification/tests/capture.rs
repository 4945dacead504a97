use openlogi::binding::{ButtonId, GestureDirection};
use openlogi::capture::{
    captured_gesture_button, gesture_source_button, thumbwheel_input, CaptureAccum, CapturedInput,
    GestureCapture, HoldState, RawControlEvent, RotationStatus, ThumbwheelEvent, WheelResolution,
    GESTURE_BUTTON_CID, HAPTIC_PANEL_CID,
};
use openlogi::tuning::GestureTuning;

const GESTURES: [u16; 2] = [GESTURE_BUTTON_CID, HAPTIC_PANEL_CID];
const DPI: [u16; 1] = [0x00fd];
const BUTTONS: [(u16, ButtonId); 1] = [(0x0053, ButtonId::Back)];

fn event(accum: &mut CaptureAccum, event: RawControlEvent, now_ms: u64) -> Vec<CapturedInput> {
    let mut sink = Vec::new();
    accum.on_event(event, &GESTURES, &DPI, &[], &BUTTONS, now_ms, &mut sink);
    sink
}

fn held(cids: &[u16]) -> RawControlEvent {
    RawControlEvent::DivertedButtons(cids.to_vec())
}

#[test]
fn a_swipe_commits_once_mid_hold_and_releases_without_a_click() {
    let mut accum = CaptureAccum::new(GestureTuning::default());
    assert_eq!(event(&mut accum, held(&[GESTURE_BUTTON_CID]), 0), vec![CapturedInput::ButtonDown(ButtonId::GestureButton)]);
    // Too early: the hold has not lasted its swipe hold yet.
    assert_eq!(event(&mut accum, RawControlEvent::RawXy { dx: 60, dy: 0 }, 100), vec![]);
    assert_eq!(
        event(&mut accum, RawControlEvent::RawXy { dx: 1, dy: 0 }, 200),
        vec![CapturedInput::Gesture(ButtonId::GestureButton, GestureDirection::Right)]
    );
    // Committed: further travel emits nothing.
    assert_eq!(event(&mut accum, RawControlEvent::RawXy { dx: 0, dy: -500 }, 250), vec![]);
    assert_eq!(event(&mut accum, held(&[]), 300), vec![CapturedInput::ButtonUp(ButtonId::GestureButton)]);
    assert_eq!(accum.hold, HoldState::Idle);
}

#[test]
fn a_hold_without_travel_is_a_click() {
    let mut accum = CaptureAccum::new(GestureTuning::default());
    event(&mut accum, held(&[GESTURE_BUTTON_CID]), 0);
    assert_eq!(
        event(&mut accum, held(&[]), 400),
        vec![
            CapturedInput::Gesture(ButtonId::GestureButton, GestureDirection::Click),
            CapturedInput::ButtonUp(ButtonId::GestureButton),
        ]
    );
}

#[test]
fn stray_motion_outside_a_hold_is_dropped() {
    let mut accum = CaptureAccum::new(GestureTuning::default());
    assert_eq!(event(&mut accum, RawControlEvent::RawXy { dx: 500, dy: 0 }, 1000), vec![]);
    assert_eq!(accum.hold, HoldState::Idle);
}

#[test]
fn the_haptic_panels_first_sample_is_dropped() {
    let mut accum = CaptureAccum::new(GestureTuning::default());
    event(&mut accum, held(&[HAPTIC_PANEL_CID]), 0);
    // The contact jump.
    assert_eq!(event(&mut accum, RawControlEvent::RawXy { dx: 900, dy: 0 }, 300), vec![]);
    assert_eq!(
        event(&mut accum, RawControlEvent::RawXy { dx: 0, dy: 80 }, 310),
        vec![CapturedInput::Gesture(ButtonId::HapticPanel, GestureDirection::Down)]
    );
}

#[test]
fn overlapping_sources_drop_motion_and_the_first_hold_wins() {
    let mut accum = CaptureAccum::new(GestureTuning::default());
    event(&mut accum, held(&[GESTURE_BUTTON_CID]), 0);
    event(&mut accum, held(&[GESTURE_BUTTON_CID, HAPTIC_PANEL_CID]), 10);
    assert_eq!(event(&mut accum, RawControlEvent::RawXy { dx: 500, dy: 0 }, 400), vec![]);
    match accum.hold {
        HoldState::Holding { cid, overlap, .. } => {
            assert_eq!(cid, GESTURE_BUTTON_CID);
            assert!(overlap);
        }
        HoldState::Idle => panic!("the first hold should still own the motion"),
    }
}

#[test]
fn plain_buttons_and_the_dpi_toggle_report_edges() {
    let mut accum = CaptureAccum::new(GestureTuning::default());
    assert_eq!(
        event(&mut accum, held(&[0x0053, 0x00fd]), 0),
        vec![CapturedInput::ButtonDown(ButtonId::DpiToggle), CapturedInput::ButtonDown(ButtonId::Back)]
    );
    assert_eq!(event(&mut accum, held(&[0x0053, 0x00fd]), 5), vec![]);
    assert_eq!(
        event(&mut accum, held(&[]), 10),
        vec![CapturedInput::ButtonUp(ButtonId::DpiToggle), CapturedInput::ButtonUp(ButtonId::Back)]
    );
}

#[test]
fn a_reset_forgets_held_controls_but_keeps_the_tuning() {
    let mut accum = CaptureAccum::new(GestureTuning::default());
    event(&mut accum, held(&[GESTURE_BUTTON_CID, 0x0053]), 0);
    accum.reset();
    assert_eq!(accum.hold, HoldState::Idle);
    assert!(accum.gestures_down.is_empty());
    assert!(accum.buttons_down.is_empty());
    assert_eq!(accum.tuning, GestureTuning::default());
}

#[test]
fn a_thumb_wheel_report_is_a_roll_or_a_tap() {
    let resolution = WheelResolution { diverted: 18, native: 120 };
    let roll = ThumbwheelEvent { rotation: -3, rotation_status: RotationStatus::Active, single_tap: true };
    assert_eq!(
        thumbwheel_input(roll, resolution),
        Some(CapturedInput::Scroll { increments: -3, resolution })
    );
    let stop = ThumbwheelEvent { rotation: 0, rotation_status: RotationStatus::Stop, single_tap: true };
    assert_eq!(thumbwheel_input(stop, resolution), None);
    let tap = ThumbwheelEvent { rotation: 0, rotation_status: RotationStatus::Inactive, single_tap: true };
    assert_eq!(thumbwheel_input(tap, resolution), Some(CapturedInput::ButtonPulse(ButtonId::Thumbwheel)));
    let idle = ThumbwheelEvent { rotation: 0, rotation_status: RotationStatus::Inactive, single_tap: false };
    assert_eq!(thumbwheel_input(idle, resolution), None);
    assert_eq!(WheelResolution::unknown(), WheelResolution { diverted: 0, native: 0 });
}

#[test]
fn gesture_sources_and_requested_buttons_name_their_buttons() {
    assert_eq!(gesture_source_button(GESTURE_BUTTON_CID), Some(ButtonId::GestureButton));
    assert_eq!(gesture_source_button(HAPTIC_PANEL_CID), Some(ButtonId::HapticPanel));
    assert_eq!(gesture_source_button(0x0053), None);
    assert_eq!(captured_gesture_button(0x0053, &[(0x0053, ButtonId::Back)]), Some(ButtonId::Back));
    assert_eq!(captured_gesture_button(HAPTIC_PANEL_CID, &[]), Some(ButtonId::HapticPanel));
    assert_eq!(captured_gesture_button(0x0056, &[]), None);
}

#[test]
fn a_report_goes_to_the_accumulator_or_the_wheel() {
    let capture = GestureCapture {
        gesture_cids: GESTURES.to_vec(),
        dpi_cids: DPI.to_vec(),
        gesture_button_cids: Vec::new(),
        button_cids: BUTTONS.to_vec(),
        thumb_resolution: WheelResolution { diverted: 18, native: 120 },
    };
    let mut accum = CaptureAccum::new(GestureTuning::default());
    let mut sink = Vec::new();
    capture.report(&mut accum, Some(held(&[0x0053])), None, 0, &mut sink);
    assert_eq!(sink, vec![CapturedInput::ButtonDown(ButtonId::Back)]);
    let tap = ThumbwheelEvent { rotation: 0, rotation_status: RotationStatus::Inactive, single_tap: true };
    capture.report(&mut accum, None, Some(tap), 5, &mut sink);
    assert_eq!(
        sink,
        vec![CapturedInput::ButtonDown(ButtonId::Back), CapturedInput::ButtonPulse(ButtonId::Thumbwheel)]
    );
    capture.report(&mut accum, None, None, 6, &mut sink);
    assert_eq!(sink.len(), 2);
}
