//! Recording a keyboard chord into a shortcut field: "Record" arms the
//! field, the next non-modifier key press with its modifiers becomes the
//! chord, and a lone Escape cancels.
use vstd::prelude::*;

verus! {

/// The modifier keys held with a key press.
#[derive(Debug, Clone, Copy, PartialEq, Eq, Structural)]
pub struct Modifiers {
    /// Command on macOS, the Windows key elsewhere.
    pub platform: bool,
    pub control: bool,
    pub alt: bool,
    pub shift: bool,
}

/// Whether any modifier is held.
pub open spec fn any_modifier(m: Modifiers) -> bool {
    m.platform || m.control || m.alt || m.shift
}

/// Whether any modifier is held.
pub fn has_modifiers(m: Modifiers) -> (r: bool)
    ensures
        r == any_modifier(m),
{
    m.platform || m.control || m.alt || m.shift
}

/// `part` followed by `+`, when `held`.
pub open spec fn modifier_part(held: bool, name: Seq<char>) -> Seq<char> {
    if held {
        name + "+"@
    } else {
        Seq::empty()
    }
}

/// The chord text for `key` pressed with `m`: `Cmd`, `Ctrl`, `Alt` and
/// `Shift` in that order for the held modifiers, then the key, joined by `+`.
pub open spec fn chord_spec(m: Modifiers, key: Seq<char>) -> Seq<char> {
    modifier_part(m.platform, "Cmd"@) + modifier_part(m.control, "Ctrl"@) + modifier_part(m.alt, "Alt"@)
        + modifier_part(m.shift, "Shift"@) + key
}

/// The chord text for `key` pressed with `m`, in the form the shortcut
/// parser reads.
pub fn chord_text(m: Modifiers, key: &str) -> (r: String)
    ensures
        r@ == chord_spec(m, key@),
{
    let mut out = String::new();
    proof {
        reveal_strlit("");
        assert(out@ =~= Seq::<char>::empty());
    }
    if m.platform {
        out.append("Cmd+");
    }
    assert(out@ =~= modifier_part(m.platform, "Cmd"@)) by {
        reveal_strlit("Cmd+");
        reveal_strlit("Cmd");
        reveal_strlit("+");
    }
    let ghost s1 = out@;
    if m.control {
        out.append("Ctrl+");
    }
    assert(out@ =~= s1 + modifier_part(m.control, "Ctrl"@)) by {
        reveal_strlit("Ctrl+");
        reveal_strlit("Ctrl");
        reveal_strlit("+");
    }
    let ghost s2 = out@;
    if m.alt {
        out.append("Alt+");
    }
    assert(out@ =~= s2 + modifier_part(m.alt, "Alt"@)) by {
        reveal_strlit("Alt+");
        reveal_strlit("Alt");
        reveal_strlit("+");
    }
    let ghost s3 = out@;
    if m.shift {
        out.append("Shift+");
    }
    assert(out@ =~= s3 + modifier_part(m.shift, "Shift"@)) by {
        reveal_strlit("Shift+");
        reveal_strlit("Shift");
        reveal_strlit("+");
    }
    out.append(key);
    out
}

/// What a key press did to a recording field.
#[derive(Debug, Clone, PartialEq, Eq)]
pub enum KeyPress {
    /// The field was not recording; the press goes on to the text input.
    Passed,
    /// A lone Escape stopped the recording and left the text as it was.
    Cancelled,
    /// The press became the chord: the field now shows this label.
    Recorded(String),
    /// The press names no chord the model can express; still recording.
    Unrecognised,
}

/// Whether a shortcut field is waiting for a chord.
#[derive(Debug, Clone, Copy, PartialEq, Eq, Structural)]
pub struct ShortcutRecorder {
    pub recording: bool,
}

impl ShortcutRecorder {
    /// A field that is not recording.
    pub fn new() -> (r: Self)
        ensures
            !r.recording,
    {
        ShortcutRecorder { recording: false }
    }

    /// "Record" was pressed.
    pub fn start(&mut self)
        ensures
            final(self).recording,
    {
        self.recording = true;
    }

    /// Focus moved elsewhere: stop listening.
    pub fn focus_lost(&mut self)
        ensures
            !final(self).recording,
    {
        self.recording = false;
    }

    /// A key press of `key` with `m` held; `chord_label` is the rendered label
    /// of the chord its text parses to, or `None` when it parses to none.
    pub fn key_down(&mut self, key: &str, m: Modifiers, chord_label: Option<String>) -> (r: KeyPress)
        ensures
            !old(self).recording ==> r == KeyPress::Passed && !final(self).recording,
            old(self).recording && key@ == "escape"@ && !any_modifier(m) ==> r == KeyPress::Cancelled
                && !final(self).recording,
            old(self).recording && !(key@ == "escape"@ && !any_modifier(m)) ==> match chord_label {
                Some(label) => r == KeyPress::Recorded(label) && !final(self).recording,
                None => r == KeyPress::Unrecognised && final(self).recording,
            },
    {
        if !self.recording {
            return KeyPress::Passed;
        }
        let escape = crate::keys::same_text(key, "escape");
        if escape && !has_modifiers(m) {
            self.recording = false;
            return KeyPress::Cancelled;
        }
        match chord_label {
            Some(label) => {
                self.recording = false;
                KeyPress::Recorded(label)
            },
            None => KeyPress::Unrecognised,
        }
    }
}

} // verus!
