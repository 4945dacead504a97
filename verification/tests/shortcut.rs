use openlogi::shortcut::{chord_text, has_modifiers, KeyPress, Modifiers, ShortcutRecorder};

const NONE: Modifiers = Modifiers { platform: false, control: false, alt: false, shift: false };

#[test]
fn a_recorded_press_becomes_the_chord_text() {
    assert_eq!(chord_text(Modifiers { platform: true, shift: true, ..NONE }, "4"), "Cmd+Shift+4");
    assert_eq!(chord_text(Modifiers { control: true, alt: true, ..NONE }, "left"), "Ctrl+Alt+left");
    assert_eq!(chord_text(NONE, "f5"), "f5");
    assert_eq!(
        chord_text(Modifiers { platform: true, control: true, alt: true, shift: true }, "space"),
        "Cmd+Ctrl+Alt+Shift+space"
    );
    assert!(!has_modifiers(NONE));
    assert!(has_modifiers(Modifiers { alt: true, ..NONE }));
}

#[test]
fn recording_takes_the_next_chord_and_a_lone_escape_cancels() {
    let mut r = ShortcutRecorder::new();
    assert_eq!(r.key_down("a", NONE, Some(String::from("A"))), KeyPress::Passed);
    r.start();
    assert_eq!(r.key_down("f30", NONE, None), KeyPress::Unrecognised);
    assert!(r.recording);
    assert_eq!(
        r.key_down("4", Modifiers { platform: true, ..NONE }, Some(String::from("Cmd+4"))),
        KeyPress::Recorded(String::from("Cmd+4"))
    );
    assert!(!r.recording);
    r.start();
    assert_eq!(r.key_down("escape", NONE, None), KeyPress::Cancelled);
    assert!(!r.recording);
    r.start();
    // Escape with a modifier is a chord like any other.
    assert_eq!(
        r.key_down("escape", Modifiers { shift: true, ..NONE }, Some(String::from("Shift+Escape"))),
        KeyPress::Recorded(String::from("Shift+Escape"))
    );
    r.start();
    r.focus_lost();
    assert!(!r.recording);
}
