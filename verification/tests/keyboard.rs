use openlogi::binding::{Action, Binding, BindingMap, ButtonId, GestureDirection};
use openlogi::capture::{CapturedInput, WheelResolution};
use openlogi::keyboard::{dispatch_input, route_session_input, KeyboardCall, SessionInput};
use openlogi::tuning::LongPressDelay;

#[test]
fn key_edges_carry_the_binding_and_the_default_long_press() {
    let mut bindings = BindingMap::new();
    bindings.insert(ButtonId::Back, Binding::Single(Action::Copy));
    assert_eq!(
        dispatch_input(CapturedInput::ButtonDown(ButtonId::Back), &bindings),
        KeyboardCall::ButtonDown {
            button: ButtonId::Back,
            binding: Some(Binding::Single(Action::Copy)),
            long_press: LongPressDelay::default_value(),
        }
    );
    assert_eq!(
        dispatch_input(CapturedInput::ButtonPulse(ButtonId::Forward), &bindings),
        KeyboardCall::ButtonPulse {
            button: ButtonId::Forward,
            binding: None,
            long_press: LongPressDelay::default_value(),
        }
    );
    assert_eq!(
        dispatch_input(CapturedInput::ButtonUp(ButtonId::Back), &bindings),
        KeyboardCall::ButtonUp { button: ButtonId::Back }
    );
}

#[test]
fn non_key_inputs_are_ignored() {
    let bindings = BindingMap::new();
    assert_eq!(
        dispatch_input(CapturedInput::Gesture(ButtonId::GestureButton, GestureDirection::Up), &bindings),
        KeyboardCall::Nothing
    );
    assert_eq!(
        dispatch_input(
            CapturedInput::Scroll { increments: 2, resolution: WheelResolution::unknown() },
            &bindings
        ),
        KeyboardCall::Nothing
    );
    assert_eq!(
        dispatch_input(CapturedInput::ThumbwheelDirection { positive_is_forward: true }, &bindings),
        KeyboardCall::Nothing
    );
}

#[test]
fn input_from_a_stale_session_is_never_dispatched() {
    let bindings = BindingMap::new();
    let input = CapturedInput::ButtonUp(ButtonId::Back);
    assert_eq!(route_session_input(Some(2), 1, input, &bindings), SessionInput::Stale);
    assert_eq!(route_session_input(None, 1, input, &bindings), SessionInput::Stale);
    assert_eq!(
        route_session_input(Some(1), 1, input, &bindings),
        SessionInput::Dispatch(KeyboardCall::ButtonUp { button: ButtonId::Back })
    );
}
