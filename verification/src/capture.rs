//! Live control capture for one device, without the I/O: which diverted
//! gesture source holds the raw-XY stream, the physical button edges each
//! report implies, and the gestures the held source's travel commits to.
//!
//! Raw-XY reports carry no source attribution, so the first held source owns
//! the accumulated motion until it is released (first hold wins). While a
//! second armed source is held alongside it, motion could belong to either
//! and is dropped. The haptic panel's first sample after contact is an
//! absolute position jump and is dropped too.
use crate::binding::{ButtonId, GestureDirection};
use crate::swipe::SwipeAccumulator;
use crate::tuning::GestureTuning;
use vstd::prelude::*;

verus! {

/// The `0x1b04` control ID of the dedicated gesture button.
pub const GESTURE_BUTTON_CID: u16 = 0x00c3;
/// The `0x1b04` control ID of the MX Master 4 haptic sense panel.
pub const HAPTIC_PANEL_CID: u16 = 0x01a0;

/// What one revolution of a thumb wheel measures.
#[derive(Debug, Clone, Copy, PartialEq, Eq, Structural)]
pub struct WheelResolution {
    /// Increments per revolution while diverted.
    pub diverted: u16,
    /// Increments per revolution in native mode.
    pub native: u16,
}

impl WheelResolution {
    /// A wheel whose resolution was not reported.
    pub fn unknown() -> (r: Self)
        ensures
            r == (WheelResolution { diverted: 0, native: 0 }),
    {
        WheelResolution { diverted: 0, native: 0 }
    }
}

/// One input captured from the active device.
#[derive(Debug, Clone, Copy, PartialEq, Eq, Structural)]
pub enum CapturedInput {
    /// A completed swipe (or tap click) from a diverted gesture source.
    Gesture(ButtonId, GestureDirection),
    /// A diverted button's physical down edge.
    ButtonDown(ButtonId),
    /// Thumb-wheel rotation; positive is physical forward/up.
    Scroll { increments: i16, resolution: WheelResolution },
    /// The un-inverted polarity learned while arming a thumb wheel.
    ThumbwheelDirection { positive_is_forward: bool },
    /// A diverted button's physical up edge.
    ButtonUp(ButtonId),
    /// An instantaneous tap with no observable hold, such as the thumb-wheel
    /// touch sensor.
    ButtonPulse(ButtonId),
}

/// Which of one device's controls a capture session should divert.
#[derive(Debug, PartialEq, Eq)]
pub struct CaptureSpec {
    /// Divert the thumb wheel.
    pub capture_thumbwheel: bool,
    /// Gesture-source control IDs to divert with raw-XY.
    pub divert_gesture_sources: Vec<u16>,
    /// Standard-button control IDs requested as raw-XY gesture sources.
    pub divert_gesture_buttons: Vec<(u16, ButtonId)>,
    /// Buttons to divert as plain presses.
    pub divert_buttons: Vec<(u16, ButtonId)>,
    /// The device's swipe thresholds, applied to every raw-XY hold.
    pub gesture_tuning: GestureTuning,
}

/// Where a thumb-wheel report is in a roll.
#[derive(Debug, Clone, Copy, PartialEq, Eq, Structural)]
pub enum RotationStatus {
    Inactive,
    Start,
    Active,
    Stop,
}

/// One decoded thumb-wheel report.
#[derive(Debug, Clone, Copy, PartialEq, Eq, Structural)]
pub struct ThumbwheelEvent {
    pub rotation: i16,
    pub rotation_status: RotationStatus,
    pub single_tap: bool,
}

/// The single input one thumb-wheel report stands for: its rotation when it
/// has one, nothing for any other report of a roll (the touch sensor's tap
/// bit then belongs to the finger turning the wheel), else a tap.
pub open spec fn thumbwheel_input_spec(event: ThumbwheelEvent, resolution: WheelResolution) -> Option<CapturedInput> {
    if event.rotation != 0 {
        Some(CapturedInput::Scroll { increments: event.rotation, resolution })
    } else if event.rotation_status != RotationStatus::Inactive {
        None
    } else if event.single_tap {
        Some(CapturedInput::ButtonPulse(ButtonId::Thumbwheel))
    } else {
        None
    }
}

/// The single input one thumb-wheel report stands for, if any.
pub fn thumbwheel_input(event: ThumbwheelEvent, resolution: WheelResolution) -> (r: Option<CapturedInput>)
    ensures
        r == thumbwheel_input_spec(event, resolution),
{
    if event.rotation != 0 {
        return Some(CapturedInput::Scroll { increments: event.rotation, resolution });
    }
    if event.rotation_status != RotationStatus::Inactive {
        return None;
    }
    if event.single_tap {
        Some(CapturedInput::ButtonPulse(ButtonId::Thumbwheel))
    } else {
        None
    }
}

/// The gesture sources: control ID and the button it dispatches as.
pub fn gesture_source_buttons() -> (r: [(u16, ButtonId); 2])
    ensures
        r@ == seq![(GESTURE_BUTTON_CID, ButtonId::GestureButton), (HAPTIC_PANEL_CID, ButtonId::HapticPanel)],
{
    let r = [(GESTURE_BUTTON_CID, ButtonId::GestureButton), (HAPTIC_PANEL_CID, ButtonId::HapticPanel)];
    assert(r@ =~= seq![(GESTURE_BUTTON_CID, ButtonId::GestureButton), (HAPTIC_PANEL_CID, ButtonId::HapticPanel)]);
    r
}

/// The button a gesture-source control ID dispatches as.
pub open spec fn gesture_source_of(cid: u16) -> Option<ButtonId> {
    if cid == GESTURE_BUTTON_CID {
        Some(ButtonId::GestureButton)
    } else if cid == HAPTIC_PANEL_CID {
        Some(ButtonId::HapticPanel)
    } else {
        None
    }
}

/// The button a gesture-source control ID dispatches as; `None` for a
/// control that is not a gesture source, so its press is never
/// misattributed.
pub fn gesture_source_button(cid: u16) -> (r: Option<ButtonId>)
    ensures
        r == gesture_source_of(cid),
{
    if cid == GESTURE_BUTTON_CID {
        Some(ButtonId::GestureButton)
    } else if cid == HAPTIC_PANEL_CID {
        Some(ButtonId::HapticPanel)
    } else {
        None
    }
}

/// The button of the first pair in `s` for `cid`.
pub open spec fn first_button(s: Seq<(u16, ButtonId)>, cid: u16) -> Option<ButtonId>
    decreases s.len(),
{
    if s.len() == 0 {
        None
    } else {
        let p = first_button(s.drop_last(), cid);
        if p is Some {
            p
        } else if s.last().0 == cid {
            Some(s.last().1)
        } else {
            None
        }
    }
}

/// The button a held raw-XY control dispatches as: a gesture source's own,
/// else the one its standard-button request names.
pub open spec fn captured_button_of(cid: u16, gesture_buttons: Seq<(u16, ButtonId)>) -> Option<ButtonId> {
    match gesture_source_of(cid) {
        Some(b) => Some(b),
        None => first_button(gesture_buttons, cid),
    }
}

/// The button a held raw-XY control dispatches as.
pub fn captured_gesture_button(cid: u16, gesture_button_cids: &[(u16, ButtonId)]) -> (r: Option<ButtonId>)
    ensures
        r == captured_button_of(cid, gesture_button_cids@),
{
    match gesture_source_button(cid) {
        Some(b) => Some(b),
        None => {
            let mut i: usize = 0;
            while i < gesture_button_cids.len()
                invariant
                    i <= gesture_button_cids@.len(),
                    gesture_source_of(cid) is None,
                    first_button(gesture_button_cids@.take(i as int), cid) is None,
                decreases gesture_button_cids.len() - i,
            {
                assert(gesture_button_cids@.take(i + 1).drop_last() =~= gesture_button_cids@.take(i as int));
                let (candidate, button) = gesture_button_cids[i];
                if candidate == cid {
                    assert(first_button(gesture_button_cids@.take(i + 1), cid) == Some(button));
                    proof {
                        lemma_first_button_prefix(gesture_button_cids@, cid, i + 1);
                    }
                    return Some(button);
                }
                i += 1;
            }
            assert(gesture_button_cids@.take(i as int) =~= gesture_button_cids@);
            None
        },
    }
}

proof fn lemma_first_button_prefix(s: Seq<(u16, ButtonId)>, cid: u16, n: int)
    requires
        0 <= n <= s.len(),
        first_button(s.take(n), cid) is Some,
    ensures
        first_button(s, cid) == first_button(s.take(n), cid),
    decreases s.len() - n,
{
    if n < s.len() {
        assert(s.take(n + 1).drop_last() =~= s.take(n));
        lemma_first_button_prefix(s, cid, n + 1);
    } else {
        assert(s.take(n) =~= s);
    }
}

/// One decoded `0x1b04` report.
#[derive(Debug, PartialEq, Eq)]
pub enum RawControlEvent {
    /// The diverted controls currently held.
    DivertedButtons(Vec<u16>),
    /// Raw-XY motion of the held gesture source.
    RawXy { dx: i16, dy: i16 },
}

/// The hold that owns raw-XY motion, or the absence of one.
#[derive(Debug, Clone, Copy, PartialEq, Eq, Structural)]
pub enum HoldState {
    /// No armed gesture source is held: raw-XY reports are stray.
    Idle,
    /// `cid` began the current hold; its gestures dispatch as `button`.
    Holding {
        cid: u16,
        button: ButtonId,
        /// Travel accumulated over this hold.
        swipe: SwipeAccumulator,
        /// A second armed source is held alongside the holder.
        overlap: bool,
        /// The hold's next raw-XY sample is a contact jump to drop.
        skip_first_raw_xy: bool,
    },
}

/// Movement and button state accumulated across reports.
#[derive(Debug, PartialEq, Eq)]
pub struct CaptureAccum {
    /// The hold owning raw-XY motion, if any.
    pub hold: HoldState,
    /// The armed gesture sources held in the last report.
    pub gestures_down: Vec<u16>,
    /// Whether any DPI/ModeShift control was held in the last report.
    pub dpi_down: bool,
    /// Diverted standard-button control IDs held in the last report.
    pub buttons_down: Vec<u16>,
    /// The device's swipe thresholds; kept across a reset.
    pub tuning: GestureTuning,
}

/// The raw-XY holds: gesture sources in `gesture_cids` order, then the
/// requested standard buttons, each one that the report names.
pub open spec fn held_sources(cids: Seq<u16>, g: Seq<u16>) -> Seq<(u16, ButtonId)>
    decreases g.len(),
{
    if g.len() == 0 {
        Seq::empty()
    } else {
        let prev = held_sources(cids, g.drop_last());
        let c = g.last();
        if cids.contains(c) && gesture_source_of(c) is Some {
            prev.push((c, gesture_source_of(c).unwrap()))
        } else {
            prev
        }
    }
}

/// The requested standard buttons the report names, in request order.
pub open spec fn held_buttons(cids: Seq<u16>, gb: Seq<(u16, ButtonId)>) -> Seq<(u16, ButtonId)>
    decreases gb.len(),
{
    if gb.len() == 0 {
        Seq::empty()
    } else {
        let prev = held_buttons(cids, gb.drop_last());
        if cids.contains(gb.last().0) {
            prev.push(gb.last())
        } else {
            prev
        }
    }
}

/// The control IDs of `held`.
pub open spec fn held_cids(held: Seq<(u16, ButtonId)>) -> Seq<u16> {
    held.map_values(|p: (u16, ButtonId)| p.0)
}

/// Up edges for the sources held before (`old_down`) and released now.
pub open spec fn released_edges(old_down: Seq<u16>, held: Seq<(u16, ButtonId)>, gb: Seq<(u16, ButtonId)>) -> Seq<CapturedInput>
    decreases old_down.len(),
{
    if old_down.len() == 0 {
        Seq::empty()
    } else {
        let prev = released_edges(old_down.drop_last(), held, gb);
        let c = old_down.last();
        if !held_cids(held).contains(c) && captured_button_of(c, gb) is Some {
            prev.push(CapturedInput::ButtonUp(captured_button_of(c, gb).unwrap()))
        } else {
            prev
        }
    }
}

/// Down edges for the sources held now that were not held before.
pub open spec fn pressed_edges(held: Seq<(u16, ButtonId)>, old_down: Seq<u16>) -> Seq<CapturedInput>
    decreases held.len(),
{
    if held.len() == 0 {
        Seq::empty()
    } else {
        let prev = pressed_edges(held.drop_last(), old_down);
        if !old_down.contains(held.last().0) {
            prev.push(CapturedInput::ButtonDown(held.last().1))
        } else {
            prev
        }
    }
}

/// Whether the report names any DPI/ModeShift control.
pub open spec fn any_named(dpi: Seq<u16>, cids: Seq<u16>) -> bool {
    exists|i: int| 0 <= i < dpi.len() && cids.contains(#[trigger] dpi[i])
}

/// The DPI toggle's edge, if its held state changed.
pub open spec fn dpi_edge(before: bool, now: bool) -> Seq<CapturedInput> {
    if now && !before {
        seq![CapturedInput::ButtonDown(ButtonId::DpiToggle)]
    } else if !now && before {
        seq![CapturedInput::ButtonUp(ButtonId::DpiToggle)]
    } else {
        Seq::empty()
    }
}

/// `s` without any `x`.
pub open spec fn remove_all(s: Seq<u16>, x: u16) -> Seq<u16>
    decreases s.len(),
{
    if s.len() == 0 {
        Seq::empty()
    } else if s.last() == x {
        remove_all(s.drop_last(), x)
    } else {
        remove_all(s.drop_last(), x).push(s.last())
    }
}

/// The plain buttons' edges, taken in `bc` order, and the held set after.
pub open spec fn button_pass(bc: Seq<(u16, ButtonId)>, cids: Seq<u16>, down: Seq<u16>) -> (Seq<CapturedInput>, Seq<u16>)
    decreases bc.len(),
{
    if bc.len() == 0 {
        (Seq::empty(), down)
    } else {
        let (out, d) = button_pass(bc.drop_last(), cids, down);
        let (cid, button) = bc.last();
        if cids.contains(cid) && !d.contains(cid) {
            (out.push(CapturedInput::ButtonDown(button)), d.push(cid))
        } else if !cids.contains(cid) && d.contains(cid) {
            (out.push(CapturedInput::ButtonUp(button)), remove_all(d, cid))
        } else {
            (out, d)
        }
    }
}

/// The hold after a report naming `cids`: the holder keeps the hold while it
/// is still down; otherwise the first held source begins a fresh one.
pub open spec fn next_hold(
    prev: HoldState,
    cids: Seq<u16>,
    held: Seq<(u16, ButtonId)>,
    old_down: Seq<u16>,
    tuning: GestureTuning,
    now_ms: u64,
) -> HoldState {
    if prev is Holding && cids.contains(prev->cid) {
        HoldState::Holding {
            cid: prev->cid,
            button: prev->button,
            swipe: prev->swipe,
            overlap: held.len() > 1,
            skip_first_raw_xy: prev->skip_first_raw_xy,
        }
    } else if held.len() > 0 {
        HoldState::Holding {
            cid: held[0].0,
            button: held[0].1,
            swipe: SwipeAccumulator::begun(tuning, now_ms),
            overlap: held.len() > 1,
            skip_first_raw_xy: held[0].0 == HAPTIC_PANEL_CID && !old_down.contains(held[0].0),
        }
    } else {
        HoldState::Idle
    }
}

/// The click a released hold that never committed a direction stands for.
pub open spec fn release_click(prev: HoldState, cids: Seq<u16>) -> Seq<CapturedInput> {
    if prev is Holding && !cids.contains(prev->cid) && prev->swipe.holding && !prev->swipe.committed {
        seq![CapturedInput::Gesture(prev->button, GestureDirection::Click)]
    } else {
        Seq::empty()
    }
}

/// Whether `x` occurs in `s`.
fn contains_u16(s: &[u16], x: u16) -> (r: bool)
    ensures
        r == s@.contains(x),
{
    let mut i: usize = 0;
    while i < s.len()
        invariant
            i <= s@.len(),
            forall|j: int| 0 <= j < i ==> s@[j] != x,
        decreases s.len() - i,
    {
        if s[i] == x {
            return true;
        }
        i += 1;
    }
    false
}

impl CaptureAccum {
    /// The state's swipe travel stays within its counting limit.
    pub open spec fn wf(self) -> bool {
        self.hold matches HoldState::Holding { swipe, .. } ==> swipe.wf()
    }

    /// A fresh accumulator applying `tuning` to every hold.
    pub fn new(tuning: GestureTuning) -> (r: Self)
        ensures
            r.hold == HoldState::Idle,
            r.gestures_down@.len() == 0,
            !r.dpi_down,
            r.buttons_down@.len() == 0,
            r.tuning == tuning,
            r.wf(),
    {
        CaptureAccum { hold: HoldState::Idle, gestures_down: Vec::new(), dpi_down: false, buttons_down: Vec::new(), tuning }
    }

    /// Drop all input state (a re-arm), keeping the tuning.
    pub fn reset(&mut self)
        ensures
            final(self).hold == HoldState::Idle,
            final(self).gestures_down@.len() == 0,
            !final(self).dpi_down,
            final(self).buttons_down@.len() == 0,
            final(self).tuning == old(self).tuning,
            final(self).wf(),
    {
        *self = Self::new(self.tuning);
    }

    /// What one decoded report does to the state and the emitted inputs.
    pub open spec fn event_step(
        old: CaptureAccum,
        new: CaptureAccum,
        event: RawControlEvent,
        gesture_cids: Seq<u16>,
        dpi_cids: Seq<u16>,
        gesture_button_cids: Seq<(u16, ButtonId)>,
        button_cids: Seq<(u16, ButtonId)>,
        now_ms: u64,
        old_sink: Seq<CapturedInput>,
        new_sink: Seq<CapturedInput>,
    ) -> bool {
        match event {
            RawControlEvent::DivertedButtons(cids) => {
                let held = held_sources(cids@, gesture_cids) + held_buttons(cids@, gesture_button_cids);
                let pass = button_pass(button_cids, cids@, old.buttons_down@);
                let now_dpi = any_named(dpi_cids, cids@);
                &&& new.hold == next_hold(old.hold, cids@, held, old.gestures_down@, old.tuning, now_ms)
                &&& new.gestures_down@ == held_cids(held)
                &&& new.dpi_down == now_dpi
                &&& new.buttons_down@ == pass.1
                &&& new.tuning == old.tuning
                &&& new_sink == old_sink + release_click(old.hold, cids@)
                    + released_edges(old.gestures_down@, held, gesture_button_cids)
                    + pressed_edges(held, old.gestures_down@)
                    + dpi_edge(old.dpi_down, now_dpi) + pass.0
            },
            RawControlEvent::RawXy { dx, dy } => Self::raw_xy_step(old, new, dx, dy, now_ms, old_sink, new_sink),
        }
    }

    /// Update the state on a decoded `0x1b04` report at `now_ms`, appending
    /// what it emits to `sink`: physical button edges, and a gesture swipe
    /// the instant its hold crosses the threshold.
    pub fn on_event(
        &mut self,
        event: RawControlEvent,
        gesture_cids: &[u16],
        dpi_cids: &[u16],
        gesture_button_cids: &[(u16, ButtonId)],
        button_cids: &[(u16, ButtonId)],
        now_ms: u64,
        sink: &mut Vec<CapturedInput>,
    )
        ensures
            old(self).wf() ==> final(self).wf(),
            final(self).tuning == old(self).tuning,
            Self::event_step(
                *old(self),
                *final(self),
                event,
                gesture_cids@,
                dpi_cids@,
                gesture_button_cids@,
                button_cids@,
                now_ms,
                old(sink)@,
                final(sink)@,
            ),
    {
        match event {
            RawControlEvent::DivertedButtons(cids) => {
                self.on_buttons(&cids, gesture_cids, dpi_cids, gesture_button_cids, button_cids, now_ms, sink);
            },
            RawControlEvent::RawXy { dx, dy } => {
                self.on_raw_xy(dx, dy, now_ms, sink);
            },
        }
    }

    /// What one raw-XY sample does: outside a hold, during an overlap, or as
    /// the skipped contact jump it emits nothing and changes only the skip
    /// flag; otherwise the holder's travel grows and a commit emits the
    /// gesture.
    pub open spec fn raw_xy_step(
        old: CaptureAccum,
        new: CaptureAccum,
        dx: i16,
        dy: i16,
        now_ms: u64,
        old_sink: Seq<CapturedInput>,
        new_sink: Seq<CapturedInput>,
    ) -> bool {
        &&& new.gestures_down == old.gestures_down
        &&& new.dpi_down == old.dpi_down
        &&& new.buttons_down == old.buttons_down
        &&& new.tuning == old.tuning
        &&& match old.hold {
            HoldState::Idle => new.hold == old.hold && new_sink == old_sink,
            HoldState::Holding { cid, button, swipe, overlap, skip_first_raw_xy } => if overlap {
                new.hold == old.hold && new_sink == old_sink
            } else if skip_first_raw_xy {
                new.hold == (HoldState::Holding { cid, button, swipe, overlap, skip_first_raw_xy: false })
                    && new_sink == old_sink
            } else {
                exists|s: SwipeAccumulator, d: Option<GestureDirection>| {
                    &&& new.hold == (HoldState::Holding { cid, button, swipe: s, overlap, skip_first_raw_xy })
                    &&& #[trigger] Self::accumulated(swipe, s, dx, dy, now_ms, d)
                    &&& new_sink == match d {
                        Some(dir) => old_sink.push(CapturedInput::Gesture(button, dir)),
                        None => old_sink,
                    }
                }
            },
        }
    }

    /// `after` and `dir` are what `SwipeAccumulator::accumulate` makes of
    /// `before` for one sample.
    pub open spec fn accumulated(
        before: SwipeAccumulator,
        after: SwipeAccumulator,
        dx: i16,
        dy: i16,
        now_ms: u64,
        dir: Option<GestureDirection>,
    ) -> bool {
        &&& before.wf() ==> after.wf()
        &&& !before.holding || before.committed ==> dir is None && after == before
        &&& before.holding && !before.committed ==> {
            let x = crate::swipe::clamp_travel(before.sum_x + dx);
            let y = crate::swipe::clamp_travel(before.sum_y + dy);
            let d = if before.hold_elapsed(now_ms) {
                crate::swipe::swipe_direction(x, y, before.tuning.swipe_distance.value() as int)
            } else {
                None
            };
            &&& after.sum_x == x
            &&& after.sum_y == y
            &&& dir == d
            &&& after.committed == d is Some
            &&& after.holding
            &&& after.tuning == before.tuning
            &&& after.started_ms == before.started_ms
        }
    }

    #[verifier::rlimit(80)]
    #[verifier::spinoff_prover]
    fn on_buttons(
        &mut self,
        cids: &Vec<u16>,
        gesture_cids: &[u16],
        dpi_cids: &[u16],
        gesture_button_cids: &[(u16, ButtonId)],
        button_cids: &[(u16, ButtonId)],
        now_ms: u64,
        sink: &mut Vec<CapturedInput>,
    )
        ensures
            ({
                let held = held_sources(cids@, gesture_cids@) + held_buttons(cids@, gesture_button_cids@);
                let pass = button_pass(button_cids@, cids@, old(self).buttons_down@);
                let now_dpi = any_named(dpi_cids@, cids@);
                &&& final(self).hold == next_hold(old(self).hold, cids@, held, old(self).gestures_down@, old(self).tuning, now_ms)
                &&& final(self).gestures_down@ == held_cids(held)
                &&& final(self).dpi_down == now_dpi
                &&& final(self).buttons_down@ == pass.1
                &&& final(self).tuning == old(self).tuning
                &&& final(sink)@ == old(sink)@ + release_click(old(self).hold, cids@)
                    + released_edges(old(self).gestures_down@, held, gesture_button_cids@)
                    + pressed_edges(held, old(self).gestures_down@)
                    + dpi_edge(old(self).dpi_down, now_dpi) + pass.0
            }),
            old(self).wf() ==> final(self).wf(),
    {
        let ghost sink0 = sink@;
        // The raw-XY holds this report names.
        let mut held: Vec<(u16, ButtonId)> = Vec::new();
        let mut i: usize = 0;
        while i < gesture_cids.len()
            invariant
                i <= gesture_cids@.len(),
                held@ == held_sources(cids@, gesture_cids@.take(i as int)),
            decreases gesture_cids.len() - i,
        {
            let c = gesture_cids[i];
            assert(gesture_cids@.take(i + 1).drop_last() =~= gesture_cids@.take(i as int));
            if contains_u16(cids.as_slice(), c) {
                match gesture_source_button(c) {
                    Some(b) => held.push((c, b)),
                    None => {},
                }
            }
            i += 1;
        }
        assert(gesture_cids@.take(i as int) =~= gesture_cids@);
        let ghost sources = held@;
        let mut i: usize = 0;
        while i < gesture_button_cids.len()
            invariant
                i <= gesture_button_cids@.len(),
                held@ == sources + held_buttons(cids@, gesture_button_cids@.take(i as int)),
            decreases gesture_button_cids.len() - i,
        {
            let (c, b) = gesture_button_cids[i];
            assert(gesture_button_cids@.take(i + 1).drop_last() =~= gesture_button_cids@.take(i as int));
            if contains_u16(cids.as_slice(), c) {
                held.push((c, b));
                assert(held@ =~= sources + held_buttons(cids@, gesture_button_cids@.take(i + 1)));
            }
            i += 1;
        }
        assert(gesture_button_cids@.take(i as int) =~= gesture_button_cids@);
        let ghost held_view = held@;
        let ghost old_hold = self.hold;
        let ghost old_down = self.gestures_down@;

        // Hold transition, and the click of a released uncommitted hold.
        let keep = match self.hold {
            HoldState::Holding { cid, .. } => contains_u16(cids.as_slice(), cid),
            HoldState::Idle => false,
        };
        if keep {
            match self.hold {
                HoldState::Holding { cid, button, swipe, skip_first_raw_xy, .. } => {
                    self.hold = HoldState::Holding { cid, button, swipe, overlap: held.len() > 1, skip_first_raw_xy };
                },
                HoldState::Idle => {},
            }
        } else {
            match self.hold {
                HoldState::Holding { button, swipe, .. } => {
                    let mut swipe = swipe;
                    if swipe.end() {
                        sink.push(CapturedInput::Gesture(button, GestureDirection::Click));
                    }
                },
                HoldState::Idle => {},
            }
            if held.len() > 0 {
                let (cid, button) = held[0];
                let fresh = !contains_u16(self.gestures_down.as_slice(), cid);
                self.hold = HoldState::Holding {
                    cid,
                    button,
                    swipe: SwipeAccumulator::begin(self.tuning, now_ms),
                    overlap: held.len() > 1,
                    skip_first_raw_xy: cid == HAPTIC_PANEL_CID && fresh,
                };
            } else {
                self.hold = HoldState::Idle;
            }
        }
        assert(sink@ == sink0 + release_click(old_hold, cids@));
        assert(self.hold == next_hold(old_hold, cids@, held_view, old_down, old(self).tuning, now_ms));
        let ghost new_hold = self.hold;
        let ghost sink1 = sink@;

        // Falling edges of the sources released.
        let ghost hc = held_cids(held_view);
        let mut i: usize = 0;
        while i < self.gestures_down.len()
            invariant
                i <= self.gestures_down@.len(),
                self.gestures_down@ == old_down,
                self.hold == new_hold,
                self.tuning == old(self).tuning,
                self.dpi_down == old(self).dpi_down,
                self.buttons_down == old(self).buttons_down,
                held@ == held_view,
                hc == held_cids(held_view),
                sink@ == sink1 + released_edges(old_down.take(i as int), held_view, gesture_button_cids@),
            decreases self.gestures_down.len() - i,
        {
            let c = self.gestures_down[i];
            assert(old_down.take(i + 1).drop_last() =~= old_down.take(i as int));
            let mut still = false;
            let mut j: usize = 0;
            while j < held.len()
                invariant
                    j <= held@.len(),
                    held@ == held_view,
                    hc == held_cids(held_view),
                    still == hc.take(j as int).contains(c),
                decreases held.len() - j,
            {
                if held[j].0 == c {
                    still = true;
                    assert(hc.take(j + 1)[j as int] == c);
                }
                assert(hc.take(j + 1) =~= hc.take(j as int).push(held_view[j as int].0));
                j += 1;
            }
            assert(hc.take(j as int) =~= hc);
            if !still {
                match captured_gesture_button(c, gesture_button_cids) {
                    Some(b) => {
                        sink.push(CapturedInput::ButtonUp(b));
                    },
                    None => {},
                }
            }
            assert(sink@ =~= sink1 + released_edges(old_down.take(i + 1), held_view, gesture_button_cids@));
            i += 1;
        }
        assert(old_down.take(i as int) =~= old_down);
        let ghost sink2 = sink@;

        // Rising edges of the sources newly held.
        let mut i: usize = 0;
        while i < held.len()
            invariant
                i <= held@.len(),
                held@ == held_view,
                self.gestures_down@ == old_down,
                self.hold == new_hold,
                self.tuning == old(self).tuning,
                self.dpi_down == old(self).dpi_down,
                self.buttons_down == old(self).buttons_down,
                sink@ == sink2 + pressed_edges(held_view.take(i as int), old_down),
            decreases held.len() - i,
        {
            let (c, b) = held[i];
            assert(held_view.take(i + 1).drop_last() =~= held_view.take(i as int));
            if !contains_u16(self.gestures_down.as_slice(), c) {
                sink.push(CapturedInput::ButtonDown(b));
            }
            assert(sink@ =~= sink2 + pressed_edges(held_view.take(i + 1), old_down));
            i += 1;
        }
        assert(held_view.take(i as int) =~= held_view);
        let mut down: Vec<u16> = Vec::new();
        let mut i: usize = 0;
        while i < held.len()
            invariant
                i <= held@.len(),
                held@ == held_view,
                down@ == held_cids(held_view).take(i as int),
            decreases held.len() - i,
        {
            down.push(held[i].0);
            assert(down@ =~= held_cids(held_view).take(i + 1));
            i += 1;
        }
        assert(down@ =~= held_cids(held_view));
        self.gestures_down = down;
        let ghost sink3 = sink@;

        // The DPI toggle's edge.
        let mut dpi_down = false;
        let mut i: usize = 0;
        while i < dpi_cids.len()
            invariant
                i <= dpi_cids@.len(),
                self.hold == new_hold,
                self.tuning == old(self).tuning,
                self.dpi_down == old(self).dpi_down,
                self.buttons_down == old(self).buttons_down,
                self.gestures_down@ == held_cids(held_view),
                dpi_down == exists|j: int| 0 <= j < i && cids@.contains(#[trigger] dpi_cids@[j]),
            decreases dpi_cids.len() - i,
        {
            if contains_u16(cids.as_slice(), dpi_cids[i]) {
                dpi_down = true;
            }
            i += 1;
        }
        if dpi_down && !self.dpi_down {
            sink.push(CapturedInput::ButtonDown(ButtonId::DpiToggle));
        } else if !dpi_down && self.dpi_down {
            sink.push(CapturedInput::ButtonUp(ButtonId::DpiToggle));
        }
        assert(sink@ =~= sink3 + dpi_edge(old(self).dpi_down, dpi_down));
        self.dpi_down = dpi_down;
        let ghost sink4 = sink@;

        // The plain buttons' edges.
        let ghost down0 = old(self).buttons_down@;
        let mut i: usize = 0;
        while i < button_cids.len()
            invariant
                i <= button_cids@.len(),
                self.hold == new_hold,
                self.tuning == old(self).tuning,
                self.dpi_down == dpi_down,
                dpi_down == any_named(dpi_cids@, cids@),
                self.gestures_down@ == held_cids(held_view),
                (sink@.subrange(sink4.len() as int, sink@.len() as int), self.buttons_down@)
                    == button_pass(button_cids@.take(i as int), cids@, down0),
                sink@.len() >= sink4.len(),
                sink@.subrange(0, sink4.len() as int) == sink4,
            decreases button_cids.len() - i,
        {
            let (cid, button) = button_cids[i];
            assert(button_cids@.take(i + 1).drop_last() =~= button_cids@.take(i as int));
            let ghost before = sink@;
            let down_now = contains_u16(cids.as_slice(), cid);
            let was_down = contains_u16(self.buttons_down.as_slice(), cid);
            if down_now && !was_down {
                sink.push(CapturedInput::ButtonDown(button));
                self.buttons_down.push(cid);
            } else if !down_now && was_down {
                sink.push(CapturedInput::ButtonUp(button));
                let mut kept: Vec<u16> = Vec::new();
                let mut k: usize = 0;
                while k < self.buttons_down.len()
                    invariant
                        k <= self.buttons_down@.len(),
                        kept@ == remove_all(self.buttons_down@.take(k as int), cid),
                    decreases self.buttons_down.len() - k,
                {
                    assert(self.buttons_down@.take(k + 1).drop_last() =~= self.buttons_down@.take(k as int));
                    if self.buttons_down[k] != cid {
                        kept.push(self.buttons_down[k]);
                    }
                    k += 1;
                }
                assert(self.buttons_down@.take(k as int) =~= self.buttons_down@);
                self.buttons_down = kept;
            }
            assert(sink@.subrange(0, sink4.len() as int) =~= sink4);
            assert(sink@.subrange(sink4.len() as int, sink@.len() as int) =~= if (down_now && !was_down) || (!down_now && was_down) {
                before.subrange(sink4.len() as int, before.len() as int).push(sink@.last())
            } else {
                before.subrange(sink4.len() as int, before.len() as int)
            });
            i += 1;
        }
        assert(button_cids@.take(i as int) =~= button_cids@);
        assert(sink@ =~= sink4 + sink@.subrange(sink4.len() as int, sink@.len() as int));
    }

    /// Attribute one raw-XY sample to the holding source at `now_ms`.
    fn on_raw_xy(&mut self, dx: i16, dy: i16, now_ms: u64, sink: &mut Vec<CapturedInput>)
        ensures
            Self::raw_xy_step(*old(self), *final(self), dx, dy, now_ms, old(sink)@, final(sink)@),
            old(self).wf() ==> final(self).wf(),
    {
        match self.hold {
            HoldState::Idle => {},
            HoldState::Holding { cid, button, swipe, overlap, skip_first_raw_xy } => {
                if overlap {
                    return;
                }
                if skip_first_raw_xy {
                    self.hold = HoldState::Holding { cid, button, swipe, overlap, skip_first_raw_xy: false };
                    return;
                }
                let mut swipe = swipe;
                let ghost before = swipe;
                let dir = swipe.accumulate(dx as i32, dy as i32, now_ms);
                self.hold = HoldState::Holding { cid, button, swipe, overlap, skip_first_raw_xy };
                match dir {
                    Some(d) => sink.push(CapturedInput::Gesture(button, d)),
                    None => {},
                }
                assert(Self::accumulated(before, swipe, dx, dy, now_ms, dir));
            },
        }
    }
}


/// The controls one capture session armed, as its report handler reads
/// them.
#[derive(Debug)]
pub struct GestureCapture {
    /// Gesture sources diverted with raw-XY.
    pub gesture_cids: Vec<u16>,
    /// DPI/ModeShift controls.
    pub dpi_cids: Vec<u16>,
    /// Standard buttons armed as raw-XY gesture sources.
    pub gesture_button_cids: Vec<(u16, ButtonId)>,
    /// Buttons diverted as plain presses.
    pub button_cids: Vec<(u16, ButtonId)>,
    /// What one revolution of the armed thumb wheel measures.
    pub thumb_resolution: WheelResolution,
}

impl GestureCapture {
    /// Handle one input report: `control` is the report decoded as a
    /// `0x1b04` event when that feature is armed and the report is one,
    /// `wheel` the report decoded as a thumb-wheel event likewise. A control
    /// event updates the accumulator; otherwise a wheel event emits the input
    /// it stands for, if any. Emitted inputs are appended to `sink`.
    pub fn report(
        &self,
        accum: &mut CaptureAccum,
        control: Option<RawControlEvent>,
        wheel: Option<ThumbwheelEvent>,
        now_ms: u64,
        sink: &mut Vec<CapturedInput>,
    )
        ensures
            old(accum).wf() ==> final(accum).wf(),
            final(accum).tuning == old(accum).tuning,
            match control {
                Some(event) => CaptureAccum::event_step(
                    *old(accum),
                    *final(accum),
                    event,
                    self.gesture_cids@,
                    self.dpi_cids@,
                    self.gesture_button_cids@,
                    self.button_cids@,
                    now_ms,
                    old(sink)@,
                    final(sink)@,
                ),
                None => {
                    &&& *final(accum) == *old(accum)
                    &&& final(sink)@ == match wheel {
                        Some(e) => match thumbwheel_input_spec(e, self.thumb_resolution) {
                            Some(input) => old(sink)@.push(input),
                            None => old(sink)@,
                        },
                        None => old(sink)@,
                    }
                },
            },
    {
        match control {
            Some(event) => {
                accum.on_event(
                    event,
                    self.gesture_cids.as_slice(),
                    self.dpi_cids.as_slice(),
                    self.gesture_button_cids.as_slice(),
                    self.button_cids.as_slice(),
                    now_ms,
                    sink,
                );
            },
            None => {
                match wheel {
                    Some(e) => match thumbwheel_input(e, self.thumb_resolution) {
                        Some(input) => sink.push(input),
                        None => {},
                    },
                    None => {},
                }
            },
        }
    }
}


/// The first entry of `s` for `cid`, at `i`, decides `first_button`.
proof fn lemma_first_button_at(s: Seq<(u16, ButtonId)>, cid: u16, i: int)
    requires
        0 <= i < s.len(),
        s[i].0 == cid,
        forall|j: int| 0 <= j < i ==> #[trigger] s[j].0 != cid,
    ensures
        first_button(s, cid) == Some(s[i].1),
    decreases s.len(),
{
    if i < s.len() - 1 {
        lemma_first_button_at(s.drop_last(), cid, i);
    } else {
        lemma_first_button_none(s.drop_last(), cid);
    }
}

/// `first_button` finds nothing in a sequence without `cid`.
proof fn lemma_first_button_none(s: Seq<(u16, ButtonId)>, cid: u16)
    requires
        forall|j: int| 0 <= j < s.len() ==> #[trigger] s[j].0 != cid,
    ensures
        first_button(s, cid) is None,
    decreases s.len(),
{
    if s.len() > 0 {
        lemma_first_button_none(s.drop_last(), cid);
    }
}

/// Every gesture source a report holds is named by the report.
proof fn lemma_sources_named(cids: Seq<u16>, g: Seq<u16>)
    ensures
        forall|k: int| 0 <= k < held_sources(cids, g).len() ==> cids.contains(#[trigger] held_sources(cids, g)[k].0),
    decreases g.len(),
{
    if g.len() > 0 {
        let prev = held_sources(cids, g.drop_last());
        lemma_sources_named(cids, g.drop_last());
        let r = held_sources(cids, g);
        assert forall|k: int| 0 <= k < r.len() implies cids.contains(#[trigger] r[k].0) by {
            if k < prev.len() {
                assert(r[k] == prev[k]);
            }
        }
    }
}

/// Every standard button a report holds as a gesture source is named by
/// the report.
proof fn lemma_buttons_named(cids: Seq<u16>, gb: Seq<(u16, ButtonId)>)
    ensures
        forall|k: int| 0 <= k < held_buttons(cids, gb).len() ==> cids.contains(#[trigger] held_buttons(cids, gb)[k].0),
    decreases gb.len(),
{
    if gb.len() > 0 {
        let prev = held_buttons(cids, gb.drop_last());
        lemma_buttons_named(cids, gb.drop_last());
        let r = held_buttons(cids, gb);
        assert forall|k: int| 0 <= k < r.len() implies cids.contains(#[trigger] r[k].0) by {
            if k < prev.len() {
                assert(r[k] == prev[k]);
            }
        }
    }
}

/// A control held before and released now gets its up edge.
proof fn lemma_released_contains(
    old_down: Seq<u16>,
    held: Seq<(u16, ButtonId)>,
    gb: Seq<(u16, ButtonId)>,
    c: u16,
    b: ButtonId,
)
    requires
        old_down.contains(c),
        !held_cids(held).contains(c),
        captured_button_of(c, gb) == Some(b),
    ensures
        released_edges(old_down, held, gb).contains(CapturedInput::ButtonUp(b)),
    decreases old_down.len(),
{
    let prev = released_edges(old_down.drop_last(), held, gb);
    if old_down.last() == c {
        assert(released_edges(old_down, held, gb) == prev.push(CapturedInput::ButtonUp(b)));
        assert(released_edges(old_down, held, gb)[prev.len() as int] == CapturedInput::ButtonUp(b));
    } else {
        let i = choose|i: int| 0 <= i < old_down.len() && old_down[i] == c;
        assert(old_down.drop_last()[i] == c);
        lemma_released_contains(old_down.drop_last(), held, gb, c, b);
        let k = choose|k: int| 0 <= k < prev.len() && prev[k] == CapturedInput::ButtonUp(b);
        assert(released_edges(old_down, held, gb)[k] == CapturedInput::ButtonUp(b));
    }
}

/// A named gesture source in `g` is held.
proof fn lemma_source_held(cids: Seq<u16>, g: Seq<u16>, c: u16, b: ButtonId)
    requires
        g.contains(c),
        cids.contains(c),
        gesture_source_of(c) == Some(b),
    ensures
        held_sources(cids, g).contains((c, b)),
    decreases g.len(),
{
    let prev = held_sources(cids, g.drop_last());
    if g.last() == c {
        assert(held_sources(cids, g)[prev.len() as int] == (c, b));
    } else {
        let i = choose|i: int| 0 <= i < g.len() && g[i] == c;
        assert(g.drop_last()[i] == c);
        lemma_source_held(cids, g.drop_last(), c, b);
        let k = choose|k: int| 0 <= k < prev.len() && prev[k] == (c, b);
        assert(held_sources(cids, g)[k] == (c, b));
    }
}

/// A named standard button requested as a gesture source is held.
proof fn lemma_button_held(cids: Seq<u16>, gb: Seq<(u16, ButtonId)>, i: int)
    requires
        0 <= i < gb.len(),
        cids.contains(gb[i].0),
    ensures
        held_buttons(cids, gb).contains(gb[i]),
    decreases gb.len(),
{
    let prev = held_buttons(cids, gb.drop_last());
    if i == gb.len() - 1 {
        assert(held_buttons(cids, gb)[prev.len() as int] == gb[i]);
    } else {
        assert(gb.drop_last()[i] == gb[i]);
        lemma_button_held(cids, gb.drop_last(), i);
        let k = choose|k: int| 0 <= k < prev.len() && prev[k] == gb[i];
        assert(held_buttons(cids, gb)[k] == gb[i]);
    }
}

/// A source held now and not before gets its down edge.
proof fn lemma_pressed_contains(held: Seq<(u16, ButtonId)>, old_down: Seq<u16>, c: u16, b: ButtonId)
    requires
        held.contains((c, b)),
        !old_down.contains(c),
    ensures
        pressed_edges(held, old_down).contains(CapturedInput::ButtonDown(b)),
    decreases held.len(),
{
    let prev = pressed_edges(held.drop_last(), old_down);
    if held.last() == (c, b) {
        assert(pressed_edges(held, old_down)[prev.len() as int] == CapturedInput::ButtonDown(b));
    } else {
        let i = choose|i: int| 0 <= i < held.len() && held[i] == (c, b);
        assert(held.drop_last()[i] == (c, b));
        lemma_pressed_contains(held.drop_last(), old_down, c, b);
        let k = choose|k: int| 0 <= k < prev.len() && prev[k] == CapturedInput::ButtonDown(b);
        assert(pressed_edges(held, old_down)[k] == CapturedInput::ButtonDown(b));
    }
}

/// A raw-XY source pressed by a report gets its down edge: when a report
/// names an armed gesture source, or a standard button requested as a
/// gesture source, that the previous report did not hold, it emits the down
/// edge of the button that control dispatches as.
pub proof fn pressed_sources_report_down(
    before: CaptureAccum,
    after: CaptureAccum,
    cids: Vec<u16>,
    gesture_cids: Seq<u16>,
    dpi_cids: Seq<u16>,
    gesture_button_cids: Seq<(u16, ButtonId)>,
    button_cids: Seq<(u16, ButtonId)>,
    now_ms: u64,
    sink_before: Seq<CapturedInput>,
    sink_after: Seq<CapturedInput>,
    c: u16,
    b: ButtonId,
    i: int,
)
    requires
        CaptureAccum::event_step(
            before,
            after,
            RawControlEvent::DivertedButtons(cids),
            gesture_cids,
            dpi_cids,
            gesture_button_cids,
            button_cids,
            now_ms,
            sink_before,
            sink_after,
        ),
        cids@.contains(c),
        !before.gestures_down@.contains(c),
        (gesture_cids.contains(c) && ((c == GESTURE_BUTTON_CID && b == ButtonId::GestureButton)
            || (c == HAPTIC_PANEL_CID && b == ButtonId::HapticPanel)))
            || (0 <= i < gesture_button_cids.len() && gesture_button_cids[i] == (c, b)),
    ensures
        sink_after.contains(CapturedInput::ButtonDown(b)),
{
    let hs = held_sources(cids@, gesture_cids);
    let hb = held_buttons(cids@, gesture_button_cids);
    let held = hs + hb;
    if gesture_cids.contains(c) && ((c == GESTURE_BUTTON_CID && b == ButtonId::GestureButton)
        || (c == HAPTIC_PANEL_CID && b == ButtonId::HapticPanel)) {
        lemma_source_held(cids@, gesture_cids, c, b);
        let k = choose|k: int| 0 <= k < hs.len() && hs[k] == (c, b);
        assert(held[k] == (c, b));
    } else {
        lemma_button_held(cids@, gesture_button_cids, i);
        let k = choose|k: int| 0 <= k < hb.len() && hb[k] == (c, b);
        assert(held[hs.len() + k] == (c, b));
    }
    lemma_pressed_contains(held, before.gestures_down@, c, b);
    let pr = pressed_edges(held, before.gestures_down@);
    let k = choose|k: int| 0 <= k < pr.len() && pr[k] == CapturedInput::ButtonDown(b);
    let pre = sink_before + release_click(before.hold, cids@)
        + released_edges(before.gestures_down@, held, gesture_button_cids);
    let now_dpi = any_named(dpi_cids, cids@);
    let pass = button_pass(button_cids, cids@, before.buttons_down@);
    assert(sink_after =~= pre + pr + dpi_edge(before.dpi_down, now_dpi) + pass.0);
    assert(sink_after[pre.len() + k] == CapturedInput::ButtonDown(b));
}

/// A raw-XY source released by a report gets its up edge: when a report no
/// longer names a control held in the previous one, and that control is the
/// gesture button, the haptic panel, or a standard button requested as a
/// gesture source, the report emits the up edge of the button it dispatches
/// as, so no press is left hanging.
pub proof fn released_sources_report_up(
    before: CaptureAccum,
    after: CaptureAccum,
    cids: Vec<u16>,
    gesture_cids: Seq<u16>,
    dpi_cids: Seq<u16>,
    gesture_button_cids: Seq<(u16, ButtonId)>,
    button_cids: Seq<(u16, ButtonId)>,
    now_ms: u64,
    sink_before: Seq<CapturedInput>,
    sink_after: Seq<CapturedInput>,
    c: u16,
    b: ButtonId,
    i: int,
)
    requires
        CaptureAccum::event_step(
            before,
            after,
            RawControlEvent::DivertedButtons(cids),
            gesture_cids,
            dpi_cids,
            gesture_button_cids,
            button_cids,
            now_ms,
            sink_before,
            sink_after,
        ),
        before.gestures_down@.contains(c),
        !cids@.contains(c),
        (c == GESTURE_BUTTON_CID && b == ButtonId::GestureButton)
            || (c == HAPTIC_PANEL_CID && b == ButtonId::HapticPanel)
            || (c != GESTURE_BUTTON_CID && c != HAPTIC_PANEL_CID && 0 <= i < gesture_button_cids.len()
                && gesture_button_cids[i] == (c, b)
                && forall|j: int| 0 <= j < i ==> #[trigger] gesture_button_cids[j].0 != c),
    ensures
        sink_after.contains(CapturedInput::ButtonUp(b)),
{
    let held = held_sources(cids@, gesture_cids) + held_buttons(cids@, gesture_button_cids);
    lemma_sources_named(cids@, gesture_cids);
    lemma_buttons_named(cids@, gesture_button_cids);
    assert(!held_cids(held).contains(c)) by {
        if held_cids(held).contains(c) {
            let k = choose|k: int| 0 <= k < held_cids(held).len() && held_cids(held)[k] == c;
            let hs = held_sources(cids@, gesture_cids);
            if k < hs.len() {
                assert(held[k] == hs[k]);
                assert(cids@.contains(hs[k].0));
            } else {
                let hb = held_buttons(cids@, gesture_button_cids);
                assert(held[k] == hb[k - hs.len()]);
                assert(cids@.contains(hb[k - hs.len()].0));
            }
        }
    }
    if c != GESTURE_BUTTON_CID && c != HAPTIC_PANEL_CID {
        lemma_first_button_at(gesture_button_cids, c, i);
    }
    assert(captured_button_of(c, gesture_button_cids) == Some(b));
    let rel = released_edges(before.gestures_down@, held, gesture_button_cids);
    lemma_released_contains(before.gestures_down@, held, gesture_button_cids, c, b);
    let k = choose|k: int| 0 <= k < rel.len() && rel[k] == CapturedInput::ButtonUp(b);
    let pre = sink_before + release_click(before.hold, cids@);
    let now_dpi = any_named(dpi_cids, cids@);
    let pass = button_pass(button_cids, cids@, before.buttons_down@);
    let rest = pressed_edges(held, before.gestures_down@) + dpi_edge(before.dpi_down, now_dpi) + pass.0;
    assert(sink_after =~= pre + rel + pressed_edges(held, before.gestures_down@) + dpi_edge(before.dpi_down, now_dpi) + pass.0);
    assert(sink_after[pre.len() + k] == CapturedInput::ButtonUp(b));
}

/// A hold emits at most one swipe: once its direction is committed, further
/// raw-XY motion emits nothing and the hold stays committed until it ends.
pub proof fn one_swipe_per_hold(
    before: CaptureAccum,
    after: CaptureAccum,
    dx: i16,
    dy: i16,
    now_ms: u64,
    sink_before: Seq<CapturedInput>,
    sink_after: Seq<CapturedInput>,
)
    requires
        CaptureAccum::raw_xy_step(before, after, dx, dy, now_ms, sink_before, sink_after),
        before.hold matches HoldState::Holding { swipe, .. } && swipe.committed,
    ensures
        sink_after == sink_before,
        after.hold matches HoldState::Holding { swipe, .. } && swipe.committed,
{
    if let HoldState::Holding { cid, button, swipe, overlap, skip_first_raw_xy } = before.hold {
        if !overlap && !skip_first_raw_xy {
            let (s, d) = choose|s: SwipeAccumulator, d: Option<GestureDirection>| {
                &&& after.hold == (HoldState::Holding { cid, button, swipe: s, overlap, skip_first_raw_xy })
                &&& #[trigger] CaptureAccum::accumulated(swipe, s, dx, dy, now_ms, d)
                &&& sink_after == match d {
                    Some(dir) => sink_before.push(CapturedInput::Gesture(button, dir)),
                    None => sink_before,
                }
            };
            assert(d is None && s == swipe);
        }
    }
}

} // verus!
