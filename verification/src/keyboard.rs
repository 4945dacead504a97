//! What one key edge captured from a bound keyboard asks of the action
//! dispatcher. Keyboard keys have no per-device long-press setting, so they
//! use the default delay.
use crate::binding::{Binding, BindingMap, ButtonId};
use crate::capture::CapturedInput;
use crate::tuning::{LongPressDelay, LONG_PRESS_DEFAULT_MS};
use vstd::prelude::*;

verus! {

/// The dispatcher call a captured keyboard input stands for.
#[derive(Debug, PartialEq, Eq)]
pub enum KeyboardCall {
    /// A key went down: handle its binding, if it has one.
    ButtonDown { button: ButtonId, binding: Option<Binding>, long_press: LongPressDelay },
    /// A key came up.
    ButtonUp { button: ButtonId },
    /// A tap with no observable hold.
    ButtonPulse { button: ButtonId, binding: Option<Binding>, long_press: LongPressDelay },
    /// Inputs a keyboard does not produce are ignored.
    Nothing,
}

/// The binding stored for `button`, if any.
pub open spec fn binding_of(bindings: Map<ButtonId, Binding>, button: ButtonId) -> Option<Binding> {
    if bindings.contains_key(button) {
        Some(bindings[button])
    } else {
        None
    }
}

/// The binding for `button` in `bindings`, copied out.
fn lookup(bindings: &BindingMap, button: ButtonId) -> (r: Option<Binding>)
    ensures
        r == binding_of(bindings.view(), button),
{
    match bindings.get(&button) {
        Some(b) => Some(b.clone()),
        None => None,
    }
}

/// `call` is what `input` asks of the dispatcher under `bindings`: a down
/// edge and a pulse carry the key's binding (if any) and the default
/// long-press delay, an up edge just the key; gestures, scrolls and
/// thumb-wheel facts are not keyboard input.
pub open spec fn dispatched(input: CapturedInput, bindings: Map<ButtonId, Binding>, call: KeyboardCall) -> bool {
    match input {
        CapturedInput::ButtonDown(button) => call matches KeyboardCall::ButtonDown { button: b, binding, long_press }
            && b == button && binding == binding_of(bindings, button)
            && long_press.value() == LONG_PRESS_DEFAULT_MS,
        CapturedInput::ButtonUp(button) => call == KeyboardCall::ButtonUp { button },
        CapturedInput::ButtonPulse(button) => call matches KeyboardCall::ButtonPulse { button: b, binding, long_press }
            && b == button && binding == binding_of(bindings, button)
            && long_press.value() == LONG_PRESS_DEFAULT_MS,
        _ => call == KeyboardCall::Nothing,
    }
}

/// Route one captured keyboard edge through the dispatcher.
pub fn dispatch_input(input: CapturedInput, bindings: &BindingMap) -> (r: KeyboardCall)
    ensures
        dispatched(input, bindings.view(), r),
{
    match input {
        CapturedInput::ButtonDown(button) => KeyboardCall::ButtonDown {
            button,
            binding: lookup(bindings, button),
            long_press: LongPressDelay::default_value(),
        },
        CapturedInput::ButtonUp(button) => KeyboardCall::ButtonUp { button },
        CapturedInput::ButtonPulse(button) => KeyboardCall::ButtonPulse {
            button,
            binding: lookup(bindings, button),
            long_press: LongPressDelay::default_value(),
        },
        _ => KeyboardCall::Nothing,
    }
}


/// What an input from a capture session becomes.
#[derive(Debug, PartialEq, Eq)]
pub enum SessionInput {
    /// The session that captured it is not the running one: its input is
    /// never dispatched, and the caller cancels that stale session's
    /// pending presses.
    Stale,
    /// The running session's input, for the dispatcher.
    Dispatch(KeyboardCall),
}

/// Route an input captured by session `from`, where `running` is the session
/// running now (if any) and `bindings` that session's key map.
pub fn route_session_input(
    running: Option<u64>,
    from: u64,
    input: CapturedInput,
    bindings: &BindingMap,
) -> (r: SessionInput)
    ensures
        running == Some(from) ==> (r matches SessionInput::Dispatch(call) && dispatched(input, bindings.view(), call)),
        running != Some(from) ==> r == SessionInput::Stale,
{
    match running {
        Some(id) => if id == from {
            SessionInput::Dispatch(dispatch_input(input, bindings))
        } else {
            SessionInput::Stale
        },
        None => SessionInput::Stale,
    }
}

} // verus!
