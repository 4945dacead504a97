use openlogi::binding::Action;
use openlogi::pointer::{
    hit_test, pointer_action_allowed, window_target, ActionDispatchTarget, HitRow, PointerTarget,
    UnreadablePart, WindowError, WindowLevels,
};

const BROWSER: PointerTarget = PointerTarget::Window {
    process_id: 41,
    window_id: 7,
};
const OTHER_WINDOW: PointerTarget = PointerTarget::Window {
    process_id: 41,
    window_id: 9,
};

#[test]
fn desktop_switch_does_not_require_browser_focus_or_send_browser_navigation() {
    assert!(pointer_action_allowed(
        &Action::NextDesktop,
        PointerTarget::Desktop,
        PointerTarget::Desktop,
        || false
    ));
    assert!(!pointer_action_allowed(
        &Action::BrowserBack,
        PointerTarget::Desktop,
        PointerTarget::Desktop,
        || true
    ));
}

#[test]
fn keyboard_effects_require_the_exact_hovered_window_to_have_focus() {
    let shortcut = String::from("Ctrl+Tab");
    for action in [
        Action::BrowserForward,
        Action::CustomShortcut(shortcut),
        Action::TypeText("hello".into()),
        Action::AppExpose,
    ] {
        assert!(!pointer_action_allowed(&action, BROWSER, BROWSER, || false));
        assert!(pointer_action_allowed(&action, BROWSER, BROWSER, || true));
        assert!(!pointer_action_allowed(
            &action,
            BROWSER,
            OTHER_WINDOW,
            || true
        ));
    }
}

#[test]
fn stale_or_unknown_context_never_becomes_a_desktop_action() {
    for (captured, current) in [
        (BROWSER, PointerTarget::Desktop),
        (PointerTarget::Desktop, BROWSER),
        (PointerTarget::Unavailable, PointerTarget::Unavailable),
        (PointerTarget::Unsupported, PointerTarget::Unsupported),
    ] {
        assert!(!pointer_action_allowed(
            &Action::NextDesktop,
            captured,
            current,
            || true
        ));
    }
    assert!(pointer_action_allowed(
        &Action::VolumeUp,
        BROWSER,
        BROWSER,
        || false
    ));
}

#[test]
fn focus_is_only_asked_when_it_matters() {
    let mut asked = false;
    assert!(pointer_action_allowed(&Action::VolumeUp, BROWSER, BROWSER, || {
        asked = true;
        false
    }));
    assert!(!asked);
}

#[test]
fn a_pointer_action_on_safari_goes_to_its_process() {
    let target = ActionDispatchTarget::Pointer(BROWSER);
    assert_eq!(
        target.resolve(&Action::BrowserBack, BROWSER, || true, || Some(41)),
        Some(ActionDispatchTarget::SafariProcess(41))
    );
    assert_eq!(
        target.resolve(&Action::BrowserBack, BROWSER, || true, || Some(5)),
        Some(ActionDispatchTarget::Keyboard)
    );
    assert_eq!(
        target.resolve(&Action::BrowserBack, BROWSER, || false, || Some(41)),
        None
    );
    assert_eq!(
        target.resolve(&Action::BrowserBack, OTHER_WINDOW, || true, || None),
        None
    );
}

#[test]
fn non_pointer_targets_pass_through() {
    assert_eq!(
        ActionDispatchTarget::Keyboard.resolve(&Action::Copy, PointerTarget::Unavailable, || false, || None),
        Some(ActionDispatchTarget::Keyboard)
    );
    assert_eq!(
        ActionDispatchTarget::SafariProcess(7).resolve(&Action::Copy, BROWSER, || false, || None),
        Some(ActionDispatchTarget::SafariProcess(7))
    );
}

const LEVELS: WindowLevels = WindowLevels {
    desktop: -2147483623,
    desktop_icon: -2147483603,
    normal: 0,
};

#[test]
fn window_layers_classify_desktop_windows_and_obstacles() {
    assert_eq!(window_target(LEVELS.desktop, LEVELS, None, None), Ok(PointerTarget::Desktop));
    assert_eq!(window_target(LEVELS.desktop_icon, LEVELS, None, None), Ok(PointerTarget::Desktop));
    assert_eq!(
        window_target(0, LEVELS, Some(41), Some(7)),
        Ok(PointerTarget::Window { process_id: 41, window_id: 7 })
    );
    // The Dock and menus are obstacles.
    assert_eq!(window_target(20, LEVELS, Some(41), Some(7)), Ok(PointerTarget::Unavailable));
}

#[test]
fn unreadable_application_windows_report_what_failed() {
    assert_eq!(
        window_target(0, LEVELS, None, Some(7)),
        Err(WindowError { part: UnreadablePart::OwnerPid, layer: Some(0) })
    );
    assert_eq!(
        window_target(0, LEVELS, Some(41), None),
        Err(WindowError { part: UnreadablePart::WindowNumber, layer: Some(0) })
    );
    assert_eq!(
        window_target(0, LEVELS, Some(0), Some(7)),
        Err(WindowError { part: UnreadablePart::NonPositiveId, layer: Some(0) })
    );
    assert_eq!(
        window_target(0, LEVELS, Some(41), Some(-3)),
        Err(WindowError { part: UnreadablePart::NonPositiveId, layer: Some(0) })
    );
    assert_eq!(UnreadablePart::NonPositiveId.reason(), "non-positive id");
    assert_eq!(UnreadablePart::OwnerPid.reason(), "owner pid");
}

fn row(contains_point: bool, target: PointerTarget) -> Option<HitRow> {
    Some(HitRow { contains_point, target })
}

#[test]
fn hit_test_preserves_z_order() {
    let front = PointerTarget::Window { process_id: 41, window_id: 7 };
    let back = PointerTarget::Window { process_id: 41, window_id: 9 };
    assert_eq!(hit_test(&[row(true, front), row(true, back)]), front);
    assert_eq!(hit_test(&[row(false, front), row(true, back)]), back);
}

#[test]
fn hit_test_requires_positive_desktop_evidence_and_respects_obstacles() {
    assert_eq!(hit_test(&[]), PointerTarget::Unavailable);
    assert_eq!(hit_test(&[None, row(true, PointerTarget::Desktop)]), PointerTarget::Unavailable);
    assert_eq!(hit_test(&[row(true, PointerTarget::Desktop)]), PointerTarget::Desktop);
    assert_eq!(
        hit_test(&[row(true, PointerTarget::Unavailable), row(true, PointerTarget::Desktop)]),
        PointerTarget::Unavailable
    );
    assert_eq!(hit_test(&[row(false, PointerTarget::Desktop)]), PointerTarget::Unavailable);
}
