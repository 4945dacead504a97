//! Admission of pointer-selected actions: an action aimed at what was under
//! the pointer runs only if the pointer still rests on that same target, and
//! a keyboard-driven action only if that exact window has focus.
use crate::binding::{action_effect, Action, Effect, NativeAction};
use vstd::prelude::*;

verus! {

/// What the pointer rests on.
#[derive(Debug, Clone, Copy, PartialEq, Eq, Structural)]
pub enum PointerTarget {
    /// An application window.
    Window { process_id: i32, window_id: u64 },
    /// The desktop itself.
    Desktop,
    /// Something that is neither (a menu, the Dock, an overlay), or a hit
    /// test that could not be completed.
    Unavailable,
    /// This platform cannot tell.
    Unsupported,
}

/// Where an action is delivered.
#[derive(Debug, Clone, Copy, PartialEq, Eq, Structural)]
pub enum ActionDispatchTarget {
    /// The focused application, through the keyboard.
    Keyboard,
    /// Safari's process, through its accessibility interface.
    SafariProcess(i32),
    /// Whatever was under the pointer when the action was captured.
    Pointer(PointerTarget),
}

/// Whether an action's output goes to the focused window through the
/// keyboard (so it may only run when the targeted window has focus).
pub open spec fn needs_focus(effect: Effect) -> bool {
    match effect {
        Effect::Shortcut | Effect::Key | Effect::HeldKey | Effect::Text | Effect::Script => true,
        Effect::Native(NativeAction::AppExpose) => true,
        _ => false,
    }
}

/// The captured target is still the current one, and is a real target.
pub open spec fn still_targeted(captured: PointerTarget, current: PointerTarget) -> bool {
    &&& captured == current
    &&& captured != PointerTarget::Unavailable
    &&& captured != PointerTarget::Unsupported
}

/// Whether `effect` needs focus.
fn effect_needs_focus(effect: Effect) -> (r: bool)
    ensures
        r == needs_focus(effect),
{
    match effect {
        Effect::Shortcut | Effect::Key | Effect::HeldKey | Effect::Text | Effect::Script => true,
        Effect::Native(NativeAction::AppExpose) => true,
        _ => false,
    }
}

/// What `pointer_action_allowed` answers: a stale or unknown target is
/// refused; an action that does not go through the keyboard is admitted; one
/// that does is admitted only on a window, and then as `is_focused` answers.
pub open spec fn admission<F: FnOnce() -> bool>(
    action: Action,
    captured: PointerTarget,
    current: PointerTarget,
    is_focused: F,
    r: bool,
) -> bool {
    &&& !still_targeted(captured, current) ==> !r
    &&& still_targeted(captured, current) && !needs_focus(action_effect(action)) ==> r
    &&& still_targeted(captured, current) && needs_focus(action_effect(action)) && !(captured is Window) ==> !r
    &&& still_targeted(captured, current) && needs_focus(action_effect(action)) && captured is Window
        ==> is_focused.ensures((), r)
}

/// Whether `action`, captured on `captured`, may run now that the pointer
/// is on `current`. `is_focused` answers whether the captured window has
/// focus; it is asked only when the answer matters.
pub fn pointer_action_allowed<F: FnOnce() -> bool>(
    action: &Action,
    captured: PointerTarget,
    current: PointerTarget,
    is_focused: F,
) -> (r: bool)
    requires
        is_focused.requires(()),
    ensures
        admission(*action, captured, current, is_focused, r),
{
    if captured != current {
        return false;
    }
    match captured {
        PointerTarget::Unavailable | PointerTarget::Unsupported => {
            return false;
        },
        _ => {},
    }
    if !effect_needs_focus(action.effect()) {
        return true;
    }
    match captured {
        PointerTarget::Window { .. } => is_focused(),
        _ => false,
    }
}


/// An action delivered through the keyboard (a shortcut, typed text, a
/// script, or the application windows view) runs only against the exact
/// window the pointer still rests on, and only once that window answered
/// that it has focus; otherwise it would land in whatever window has focus.
pub proof fn keyboard_actions_need_the_hovered_window_focused<F: FnOnce() -> bool>(
    action: Action,
    captured: PointerTarget,
    current: PointerTarget,
    is_focused: F,
    r: bool,
)
    requires
        admission(action, captured, current, is_focused, r),
        r,
        action is RunScript || action is TypeText || action is CustomShortcut || action is Copy
            || action is Paste || action is Undo || action is BrowserBack || action is BrowserForward
            || action is AppExpose,
    ensures
        captured is Window,
        captured == current,
        is_focused.ensures((), true),
{
}

/// An action that does not go through the keyboard (clicks, scrolling,
/// desktop and media controls) needs no focus: it runs whenever the pointer
/// still rests on the real target it was captured on.
pub proof fn other_actions_need_only_the_target<F: FnOnce() -> bool>(
    action: Action,
    captured: PointerTarget,
    current: PointerTarget,
    is_focused: F,
    r: bool,
)
    requires
        admission(action, captured, current, is_focused, r),
        captured == current,
        !(captured is Unavailable),
        !(captured is Unsupported),
        action is Nothing || action is LeftClick || action is RightClick || action is MiddleClick
            || action is ScrollUp || action is ScrollDown || action is NextDesktop
            || action is PreviousDesktop || action is MissionControl || action is ShowDesktop
            || action is Launchpad || action is VolumeUp || action is VolumeDown || action is Mute
            || action is PlayPause || action is CycleDpi,
    ensures
        r,
{
}

/// Where an admitted pointer action goes: Safari's process when the window
/// belongs to the frontmost Safari, else the keyboard.
pub open spec fn admitted_target(target: PointerTarget, safari: Option<i32>) -> ActionDispatchTarget {
    match target {
        PointerTarget::Window { process_id, .. } => if safari == Some(process_id) {
            ActionDispatchTarget::SafariProcess(process_id)
        } else {
            ActionDispatchTarget::Keyboard
        },
        _ => ActionDispatchTarget::Keyboard,
    }
}

impl ActionDispatchTarget {
    /// Resolve where `action` goes now. Targets other than the pointer pass
    /// through; a pointer target is admitted by [`pointer_action_allowed`]
    /// against the pointer's `current` target, then delivered to Safari's
    /// process when `frontmost_safari_pid` names the window's owner, else to
    /// the keyboard. `None`: the action is refused.
    pub fn resolve<F: FnOnce() -> bool, G: FnOnce() -> Option<i32>>(
        self,
        action: &Action,
        current: PointerTarget,
        is_focused: F,
        frontmost_safari_pid: G,
    ) -> (r: Option<Self>)
        requires
            is_focused.requires(()),
            frontmost_safari_pid.requires(()),
        ensures
            !(self is Pointer) ==> r == Some(self),
            self matches ActionDispatchTarget::Pointer(t) ==> {
                &&& !still_targeted(t, current) ==> r is None
                &&& still_targeted(t, current) && needs_focus(action_effect(*action)) && !(t is Window) ==> r is None
                &&& still_targeted(t, current) && needs_focus(action_effect(*action)) && t is Window && r is None
                    ==> is_focused.ensures((), false)
                &&& still_targeted(t, current) && !needs_focus(action_effect(*action)) ==> r is Some
                &&& r matches Some(d) ==> still_targeted(t, current)
                    && (needs_focus(action_effect(*action)) ==> is_focused.ensures((), true))
                    && exists|s: Option<i32>| frontmost_safari_pid.ensures((), s) && d == admitted_target(t, s)
            },
    {
        let target = match self {
            ActionDispatchTarget::Pointer(t) => t,
            _ => {
                return Some(self);
            },
        };
        if !pointer_action_allowed(action, target, current, is_focused) {
            return None;
        }
        let safari = frontmost_safari_pid();
        let d = match target {
            PointerTarget::Window { process_id, .. } => {
                let is_safari = match safari {
                    Some(pid) => pid == process_id,
                    None => false,
                };
                if is_safari {
                    ActionDispatchTarget::SafariProcess(process_id)
                } else {
                    ActionDispatchTarget::Keyboard
                }
            },
            _ => ActionDispatchTarget::Keyboard,
        };
        assert(d == admitted_target(target, safari));
        assert(frontmost_safari_pid.ensures((), safari));
        Some(d)
    }
}

/// The window levels the window server uses for the classes that matter to
/// a hit test.
#[derive(Debug, Clone, Copy, PartialEq, Eq, Structural)]
pub struct WindowLevels {
    /// The desktop picture.
    pub desktop: i32,
    /// The desktop icons.
    pub desktop_icon: i32,
    /// Ordinary application windows.
    pub normal: i32,
}

/// Which part of a window-list entry could not be read.
#[derive(Debug, Clone, Copy, PartialEq, Eq, Structural)]
pub enum UnreadablePart {
    Entry,
    Bounds,
    Layer,
    Alpha,
    OwnerPid,
    WindowNumber,
    NonPositiveId,
    Geometry,
}

impl UnreadablePart {
    /// The part's name, for the log.
    pub fn reason(self) -> (r: &'static str)
        ensures
            r@ == match self {
                UnreadablePart::Entry => "entry"@,
                UnreadablePart::Bounds => "bounds"@,
                UnreadablePart::Layer => "layer"@,
                UnreadablePart::Alpha => "alpha"@,
                UnreadablePart::OwnerPid => "owner pid"@,
                UnreadablePart::WindowNumber => "window number"@,
                UnreadablePart::NonPositiveId => "non-positive id"@,
                UnreadablePart::Geometry => "geometry"@,
            },
    {
        match self {
            UnreadablePart::Entry => "entry",
            UnreadablePart::Bounds => "bounds",
            UnreadablePart::Layer => "layer",
            UnreadablePart::Alpha => "alpha",
            UnreadablePart::OwnerPid => "owner pid",
            UnreadablePart::WindowNumber => "window number",
            UnreadablePart::NonPositiveId => "non-positive id",
            UnreadablePart::Geometry => "geometry",
        }
    }
}

/// Why one window-list entry could not be read: the part, and the window's
/// layer once it was read.
#[derive(Debug, Clone, Copy, PartialEq, Eq, Structural)]
pub struct WindowError {
    pub part: UnreadablePart,
    pub layer: Option<i32>,
}

/// What a window at `layer` stands for: the desktop, an application window
/// identified by its owner and number, or an obstacle (menus, the Dock,
/// floating panels and other overlays are never permission to act on what
/// lies beneath them).
pub open spec fn window_target_spec(
    layer: i32,
    levels: WindowLevels,
    owner_pid: Option<i32>,
    window_number: Option<i64>,
) -> Result<PointerTarget, WindowError> {
    if layer == levels.desktop || layer == levels.desktop_icon {
        Ok(PointerTarget::Desktop)
    } else if layer == levels.normal {
        match owner_pid {
            None => Err(WindowError { part: UnreadablePart::OwnerPid, layer: Some(layer) }),
            Some(pid) => match window_number {
                None => Err(WindowError { part: UnreadablePart::WindowNumber, layer: Some(layer) }),
                Some(n) => if pid > 0 && n > 0 {
                    Ok(PointerTarget::Window { process_id: pid, window_id: n as u64 })
                } else {
                    Err(WindowError { part: UnreadablePart::NonPositiveId, layer: Some(layer) })
                },
            },
        }
    } else {
        Ok(PointerTarget::Unavailable)
    }
}

/// Classify one window-list entry from its `layer`, the system's `levels`,
/// and the owner's process ID and window number it carries (if readable).
pub fn window_target(
    layer: i32,
    levels: WindowLevels,
    owner_pid: Option<i32>,
    window_number: Option<i64>,
) -> (r: Result<PointerTarget, WindowError>)
    ensures
        r == window_target_spec(layer, levels, owner_pid, window_number),
{
    if layer == levels.desktop || layer == levels.desktop_icon {
        Ok(PointerTarget::Desktop)
    } else if layer == levels.normal {
        let pid = match owner_pid {
            Some(pid) => pid,
            None => {
                return Err(WindowError { part: UnreadablePart::OwnerPid, layer: Some(layer) });
            },
        };
        let n = match window_number {
            Some(n) => n,
            None => {
                return Err(WindowError { part: UnreadablePart::WindowNumber, layer: Some(layer) });
            },
        };
        if pid > 0 && n > 0 {
            Ok(PointerTarget::Window { process_id: pid, window_id: n as u64 })
        } else {
            Err(WindowError { part: UnreadablePart::NonPositiveId, layer: Some(layer) })
        }
    } else {
        Ok(PointerTarget::Unavailable)
    }
}

/// One window-list row as the hit test reads it: whether its bounds contain
/// the pointer, and what it stands for.
#[derive(Debug, Clone, Copy, PartialEq, Eq, Structural)]
pub struct HitRow {
    pub contains_point: bool,
    pub target: PointerTarget,
}

/// The target under the pointer, reading rows front to back: the first row
/// that contains the pointer decides, and an unreadable row before it is
/// no evidence of what lies behind, so it makes the answer `Unavailable`;
/// so does running out of rows.
pub open spec fn first_hit(rows: Seq<Option<HitRow>>) -> PointerTarget
    decreases rows.len(),
{
    if rows.len() == 0 {
        PointerTarget::Unavailable
    } else {
        match rows[0] {
            None => PointerTarget::Unavailable,
            Some(row) => if row.contains_point {
                row.target
            } else {
                first_hit(rows.drop_first())
            },
        }
    }
}

/// The target under the pointer for front-to-back `rows`.
pub fn hit_test(rows: &[Option<HitRow>]) -> (r: PointerTarget)
    ensures
        r == first_hit(rows@),
{
    let mut i: usize = 0;
    assert(rows@.skip(0) =~= rows@);
    while i < rows.len()
        invariant
            i <= rows@.len(),
            first_hit(rows@) == first_hit(rows@.skip(i as int)),
        decreases rows.len() - i,
    {
        proof {
            assert(rows@.skip(i as int).drop_first() =~= rows@.skip(i + 1));
            assert(rows@.skip(i as int)[0] == rows@[i as int]);
        }
        match rows[i] {
            None => {
                return PointerTarget::Unavailable;
            },
            Some(row) => {
                if row.contains_point {
                    return row.target;
                }
            },
        }
        i += 1;
    }
    proof {
        assert(rows@.skip(i as int).len() == 0);
    }
    PointerTarget::Unavailable
}

} // verus!
