//! The one phase stream a smooth scroll shows the foreground application.
//!
//! Source-local glides may overlap, but the system has no source identity
//! with which to pair several synthetic gestures, so every distance shares
//! one balanced lifecycle: a gesture starts "fingers down", ends after the
//! touch time, and the rest of the glide coasts as momentum, as after a
//! trackpad lift-off. The distances themselves are opaque here: a frame
//! carries `None` for no distance.
use vstd::prelude::*;

verus! {

/// The phase a synthetic scroll event carries.
#[derive(Debug, Clone, Copy, PartialEq, Eq, Structural)]
pub enum SmoothScrollPhase {
    /// A plain continuous scroll with no gesture phase.
    Unphased,
    /// Fingers down: the gesture starts.
    Began,
    /// Fingers still down.
    Changed,
    /// Fingers lifted.
    Ended,
    /// The gesture was abandoned before it ended.
    Cancelled,
    /// The momentum coast after a lift-off starts.
    MomentumBegan,
    /// The coast continues.
    MomentumChanged,
    /// The coast is over.
    MomentumEnded,
}

/// One output frame: a distance (none for a bare phase) and its phase.
#[derive(Debug, Clone, Copy, PartialEq, Eq)]
pub struct ScrollFrame<D> {
    pub delta: Option<D>,
    pub phase: SmoothScrollPhase,
}

/// The application-visible gesture state.
#[derive(Debug, Clone, Copy, PartialEq, Eq, Structural)]
pub enum OutputStream {
    /// No gesture is open.
    Idle,
    /// A fingers-down gesture began at `since_ms`.
    Touching { since_ms: u64 },
    /// The glide coasts as momentum.
    Coasting,
}

/// One operation on the stream.
pub enum StreamOp<D> {
    /// A notch after a wheel pause arrived.
    Touch,
    /// Distance covered at `at_ms`, with `touch_ms` as the longest
    /// fingers-down part of a gesture.
    Progress { delta: Option<D>, touch_ms: u64, at_ms: u64 },
    /// The last glide settled with a final distance.
    Finish { delta: Option<D> },
    /// Every glide was dropped.
    Cancel,
}

/// A frame of `delta` in `phase`.
pub open spec fn frame<D>(delta: Option<D>, phase: SmoothScrollPhase) -> ScrollFrame<D> {
    ScrollFrame { delta, phase }
}

/// Time from `since_ms` to `at_ms`; none when `at_ms` is earlier.
pub open spec fn elapsed_ms(since_ms: u64, at_ms: u64) -> int {
    if at_ms >= since_ms {
        at_ms - since_ms
    } else {
        0
    }
}

/// The stream after `op`, and the frames it emits, in order.
pub open spec fn apply_op<D>(s: OutputStream, op: StreamOp<D>) -> (OutputStream, Seq<ScrollFrame<D>>) {
    match op {
        StreamOp::Touch => match s {
            OutputStream::Coasting => (OutputStream::Idle, seq![frame(None, SmoothScrollPhase::MomentumEnded)]),
            _ => (s, Seq::empty()),
        },
        StreamOp::Progress { delta, touch_ms, at_ms } => if delta is None {
            (s, Seq::empty())
        } else {
            match s {
                OutputStream::Idle => (OutputStream::Touching { since_ms: at_ms }, seq![frame(delta, SmoothScrollPhase::Began)]),
                OutputStream::Touching { since_ms } => if elapsed_ms(since_ms, at_ms) >= touch_ms {
                    (
                        OutputStream::Coasting,
                        seq![frame(None, SmoothScrollPhase::Ended), frame(delta, SmoothScrollPhase::MomentumBegan)],
                    )
                } else {
                    (s, seq![frame(delta, SmoothScrollPhase::Changed)])
                },
                OutputStream::Coasting => (s, seq![frame(delta, SmoothScrollPhase::MomentumChanged)]),
            }
        },
        StreamOp::Finish { delta } => (
            OutputStream::Idle,
            match s {
                OutputStream::Idle => if delta is Some {
                    seq![frame(delta, SmoothScrollPhase::Began), frame(None, SmoothScrollPhase::Ended)]
                } else {
                    Seq::empty()
                },
                OutputStream::Touching { .. } => seq![frame(delta, SmoothScrollPhase::Ended)],
                OutputStream::Coasting => seq![frame(delta, SmoothScrollPhase::MomentumEnded)],
            },
        ),
        StreamOp::Cancel => (
            OutputStream::Idle,
            match s {
                OutputStream::Touching { .. } => seq![frame(None, SmoothScrollPhase::Cancelled)],
                OutputStream::Coasting => seq![frame(None, SmoothScrollPhase::MomentumEnded)],
                OutputStream::Idle => Seq::empty(),
            },
        ),
    }
}

impl OutputStream {
    /// Perform `op`, appending the frames it emits to `emit`.
    pub fn apply<D: Copy>(&mut self, op: StreamOp<D>, emit: &mut Vec<ScrollFrame<D>>)
        ensures
            (*final(self), final(emit)@.skip(old(emit)@.len() as int)) == apply_op(*old(self), op),
            final(emit)@.take(old(emit)@.len() as int) == old(emit)@,
    {
        match op {
            StreamOp::Touch => self.touch(emit),
            StreamOp::Progress { delta, touch_ms, at_ms } => self.progress(delta, touch_ms, at_ms, emit),
            StreamOp::Finish { delta } => self.finish(delta, emit),
            StreamOp::Cancel => self.cancel(emit),
        }
    }

    /// A notch after a wheel pause arrived: a coast in progress stops, so the
    /// notch starts a fresh gesture. Notches of a continuing spin instead
    /// extend the coast.
    pub fn touch<D: Copy>(&mut self, emit: &mut Vec<ScrollFrame<D>>)
        ensures
            (*final(self), final(emit)@.skip(old(emit)@.len() as int)) == apply_op(*old(self), StreamOp::<D>::Touch),
            final(emit)@.take(old(emit)@.len() as int) == old(emit)@,
    {
        let ghost before = emit@;
        match self {
            OutputStream::Coasting => {
                emit.push(ScrollFrame { delta: None, phase: SmoothScrollPhase::MomentumEnded });
                *self = OutputStream::Idle;
            },
            _ => {},
        }
        proof {
            assert(emit@.take(before.len() as int) =~= before);
            if *old(self) is Coasting {
                assert(emit@.skip(before.len() as int) =~= seq![frame(None::<D>, SmoothScrollPhase::MomentumEnded)]);
            } else {
                assert(emit@.skip(before.len() as int) =~= Seq::<ScrollFrame<D>>::empty());
            }
        }
    }

    /// Report `delta` covered at `at_ms`. The first distance of a gesture
    /// begins it; once it has lasted `touch_ms` the fingers lift and the rest
    /// coasts as momentum. No distance emits nothing.
    pub fn progress<D: Copy>(&mut self, delta: Option<D>, touch_ms: u64, at_ms: u64, emit: &mut Vec<ScrollFrame<D>>)
        ensures
            (*final(self), final(emit)@.skip(old(emit)@.len() as int))
                == apply_op(*old(self), StreamOp::Progress { delta, touch_ms, at_ms }),
            final(emit)@.take(old(emit)@.len() as int) == old(emit)@,
    {
        let ghost before = emit@;
        if delta.is_none() {
            proof {
                assert(emit@.take(before.len() as int) =~= before);
                assert(emit@.skip(before.len() as int) =~= Seq::<ScrollFrame<D>>::empty());
            }
            return;
        }
        match *self {
            OutputStream::Idle => {
                *self = OutputStream::Touching { since_ms: at_ms };
                emit.push(ScrollFrame { delta, phase: SmoothScrollPhase::Began });
                proof {
                    assert(emit@.skip(before.len() as int) =~= seq![frame(delta, SmoothScrollPhase::Began)]);
                }
            },
            OutputStream::Touching { since_ms } => {
                let elapsed = at_ms.saturating_sub(since_ms);
                if elapsed >= touch_ms {
                    emit.push(ScrollFrame { delta: None, phase: SmoothScrollPhase::Ended });
                    *self = OutputStream::Coasting;
                    emit.push(ScrollFrame { delta, phase: SmoothScrollPhase::MomentumBegan });
                    proof {
                        assert(emit@.skip(before.len() as int) =~= seq![
                            frame(None, SmoothScrollPhase::Ended),
                            frame(delta, SmoothScrollPhase::MomentumBegan),
                        ]);
                    }
                } else {
                    emit.push(ScrollFrame { delta, phase: SmoothScrollPhase::Changed });
                    proof {
                        assert(emit@.skip(before.len() as int) =~= seq![frame(delta, SmoothScrollPhase::Changed)]);
                    }
                }
            },
            OutputStream::Coasting => {
                emit.push(ScrollFrame { delta, phase: SmoothScrollPhase::MomentumChanged });
                proof {
                    assert(emit@.skip(before.len() as int) =~= seq![frame(delta, SmoothScrollPhase::MomentumChanged)]);
                }
            },
        }
        proof {
            assert(emit@.take(before.len() as int) =~= before);
        }
    }

    /// The last glide settled with `delta` still to show: the open gesture
    /// (or coast) ends with it; with none open, a distance is shown as a
    /// whole gesture of its own.
    pub fn finish<D: Copy>(&mut self, delta: Option<D>, emit: &mut Vec<ScrollFrame<D>>)
        ensures
            (*final(self), final(emit)@.skip(old(emit)@.len() as int))
                == apply_op(*old(self), StreamOp::Finish { delta }),
            final(emit)@.take(old(emit)@.len() as int) == old(emit)@,
    {
        let ghost before = emit@;
        match *self {
            OutputStream::Idle => {
                if delta.is_some() {
                    emit.push(ScrollFrame { delta, phase: SmoothScrollPhase::Began });
                    emit.push(ScrollFrame { delta: None, phase: SmoothScrollPhase::Ended });
                    proof {
                        assert(emit@.skip(before.len() as int) =~= seq![
                            frame(delta, SmoothScrollPhase::Began),
                            frame(None, SmoothScrollPhase::Ended),
                        ]);
                    }
                } else {
                    proof {
                        assert(emit@.skip(before.len() as int) =~= Seq::<ScrollFrame<D>>::empty());
                    }
                }
            },
            OutputStream::Touching { .. } => {
                emit.push(ScrollFrame { delta, phase: SmoothScrollPhase::Ended });
                proof {
                    assert(emit@.skip(before.len() as int) =~= seq![frame(delta, SmoothScrollPhase::Ended)]);
                }
            },
            OutputStream::Coasting => {
                emit.push(ScrollFrame { delta, phase: SmoothScrollPhase::MomentumEnded });
                proof {
                    assert(emit@.skip(before.len() as int) =~= seq![frame(delta, SmoothScrollPhase::MomentumEnded)]);
                }
            },
        }
        *self = OutputStream::Idle;
        proof {
            assert(emit@.take(before.len() as int) =~= before);
        }
    }

    /// Every glide was dropped: an open gesture is cancelled and a coast
    /// ended, each with one terminal phase; an idle stream emits nothing.
    pub fn cancel<D: Copy>(&mut self, emit: &mut Vec<ScrollFrame<D>>)
        ensures
            (*final(self), final(emit)@.skip(old(emit)@.len() as int)) == apply_op(*old(self), StreamOp::<D>::Cancel),
            final(emit)@.take(old(emit)@.len() as int) == old(emit)@,
    {
        let ghost before = emit@;
        match *self {
            OutputStream::Touching { .. } => {
                emit.push(ScrollFrame { delta: None, phase: SmoothScrollPhase::Cancelled });
                proof {
                    assert(emit@.skip(before.len() as int) =~= seq![frame(None::<D>, SmoothScrollPhase::Cancelled)]);
                }
            },
            OutputStream::Coasting => {
                emit.push(ScrollFrame { delta: None, phase: SmoothScrollPhase::MomentumEnded });
                proof {
                    assert(emit@.skip(before.len() as int) =~= seq![frame(None::<D>, SmoothScrollPhase::MomentumEnded)]);
                }
            },
            OutputStream::Idle => {
                proof {
                    assert(emit@.skip(before.len() as int) =~= Seq::<ScrollFrame<D>>::empty());
                }
            },
        }
        *self = OutputStream::Idle;
        proof {
            assert(emit@.take(before.len() as int) =~= before);
        }
    }
}

/// Whether a notch at `at_ms` starts a new burst: it is the first, or the
/// wheel paused for at least `pause_ms` since the latest one.
pub fn starts_new_burst(last_ms: Option<u64>, at_ms: u64, pause_ms: u64) -> (r: bool)
    ensures
        r == match last_ms {
            Some(last) => elapsed_ms(last, at_ms) >= pause_ms,
            None => true,
        },
{
    match last_ms {
        Some(last) => at_ms.saturating_sub(last) >= pause_ms,
        None => true,
    }
}

/// The event's `(scroll phase, momentum phase)` field values for `phase`.
/// A momentum frame carries no scroll phase, as after a trackpad lift-off,
/// so applications apply their own bounded edge bounce to it.
pub open spec fn phase_values_spec(phase: SmoothScrollPhase) -> (i64, i64) {
    match phase {
        SmoothScrollPhase::Began => (1, 0),
        SmoothScrollPhase::Changed => (2, 0),
        SmoothScrollPhase::Ended => (4, 0),
        SmoothScrollPhase::Cancelled => (8, 0),
        SmoothScrollPhase::MomentumBegan => (0, 1),
        SmoothScrollPhase::MomentumChanged => (0, 2),
        SmoothScrollPhase::MomentumEnded => (0, 3),
        SmoothScrollPhase::Unphased => (0, 0),
    }
}

/// The `(scroll phase, momentum phase)` field values a phased smooth-scroll
/// event carries.
pub fn phase_values(phase: SmoothScrollPhase) -> (r: (i64, i64))
    requires
        phase != SmoothScrollPhase::Unphased,
    ensures
        r == phase_values_spec(phase),
{
    match phase {
        SmoothScrollPhase::Began => (1, 0),
        SmoothScrollPhase::Changed => (2, 0),
        SmoothScrollPhase::Ended => (4, 0),
        SmoothScrollPhase::Cancelled => (8, 0),
        SmoothScrollPhase::MomentumBegan => (0, 1),
        SmoothScrollPhase::MomentumChanged => (0, 2),
        SmoothScrollPhase::MomentumEnded => (0, 3),
        SmoothScrollPhase::Unphased => (0, 0),
    }
}

/// Division that rounds toward zero, as integer division does in code.
pub open spec fn div_toward_zero(a: int, b: int) -> int
    recommends
        b > 0,
{
    if a >= 0 {
        a / b
    } else {
        -((-a) / b)
    }
}

/// Points per line of a continuous scroll event.
pub const POINTS_PER_LINE: i64 = 10;
/// The fixed-point scale of a continuous scroll event's delta fields.
pub const FIXED_POINT_SCALE: i64 = 65536;

/// The three values a continuous scroll event carries for one axis moving
/// `points`: the point delta, the line delta, and the fixed-point delta,
/// each rounded toward zero.
pub fn continuous_axis(points: i32) -> (r: (i64, i64, i64))
    ensures
        r.0 == points,
        r.1 == div_toward_zero(points as int, POINTS_PER_LINE as int),
        r.2 == div_toward_zero(points * FIXED_POINT_SCALE, POINTS_PER_LINE as int),
{
    let p = points as i64;
    assert(-0x8000_0000_0000 <= p * FIXED_POINT_SCALE <= 0x8000_0000_0000) by (nonlinear_arith)
        requires
            -0x8000_0000 <= p < 0x8000_0000,
            FIXED_POINT_SCALE == 65536,
    ;
    let scaled = p * FIXED_POINT_SCALE;
    let line = if p >= 0 {
        p / POINTS_PER_LINE
    } else {
        -((-p) / POINTS_PER_LINE)
    };
    let fixed = if scaled >= 0 {
        scaled / POINTS_PER_LINE
    } else {
        -((-scaled) / POINTS_PER_LINE)
    };
    (p, line, fixed)
}

/// The pixel scroll of one tick of a scroll action in direction
/// `(dx, dy)`: three pixels per unit, as `(vertical, horizontal)`.
pub fn tick_scroll_pixels(dx: i8, dy: i8) -> (r: (i32, i32))
    ensures
        r.0 == dy * 3,
        r.1 == dx * 3,
{
    ((dy as i32) * 3, (dx as i32) * 3)
}

/// What one source's glide update does to the shared stream: the last
/// glide to finish, with no other source still gliding, finishes the stream
/// with its final distance; any other update only progresses it.
pub open spec fn glide_update_spec<D>(
    finished: bool,
    others_active: usize,
    delta: Option<D>,
    touch_ms: u64,
    at_ms: u64,
) -> StreamOp<D> {
    if finished && others_active == 0 {
        StreamOp::Finish { delta }
    } else {
        StreamOp::Progress { delta, touch_ms, at_ms }
    }
}

/// The stream operation for one source's glide update; `others_active`
/// counts the sources still gliding after it.
pub fn glide_update<D: Copy>(
    finished: bool,
    others_active: usize,
    delta: Option<D>,
    touch_ms: u64,
    at_ms: u64,
) -> (r: StreamOp<D>)
    ensures
        r == glide_update_spec(finished, others_active, delta, touch_ms, at_ms),
{
    if finished && others_active == 0 {
        StreamOp::Finish { delta }
    } else {
        StreamOp::Progress { delta, touch_ms, at_ms }
    }
}

/// Whether dropping one source's glide ends the shared stream: only when
/// that source had a glide (`removed`) and no other source still glides, so
/// one source's cancellation never interrupts another's.
pub fn cancel_ends_stream(removed: bool, others_active: usize) -> (r: bool)
    ensures
        r == (removed && others_active == 0),
{
    removed && others_active == 0
}

/// The frame the application receives: unchanged with the edge bounce on;
/// with it off, stripped of its phase, and dropped when it carries no
/// distance, so a plain continuous scroll stops hard at the content edge.
pub open spec fn delivered<D>(bounce: bool, f: ScrollFrame<D>) -> Option<ScrollFrame<D>> {
    if bounce {
        Some(f)
    } else if f.delta is Some {
        Some(frame(f.delta, SmoothScrollPhase::Unphased))
    } else {
        None
    }
}

/// The frame the application receives for `f`, if any.
pub fn deliver<D: Copy>(bounce: bool, f: ScrollFrame<D>) -> (r: Option<ScrollFrame<D>>)
    ensures
        r == delivered(bounce, f),
{
    if bounce {
        Some(f)
    } else if f.delta.is_some() {
        Some(ScrollFrame { delta: f.delta, phase: SmoothScrollPhase::Unphased })
    } else {
        None
    }
}

/// Where a stream of phases stands, as the application reads it.
#[derive(Debug, Clone, Copy, PartialEq, Eq, Structural)]
pub enum PhaseState {
    /// No gesture open.
    Closed,
    /// Fingers down.
    Down,
    /// Fingers lifted; a coast may follow.
    Lifted,
    /// Coasting.
    Coast,
}

/// The state after one more phase, or `None` when the phase cannot follow.
pub open spec fn next_phase_state(s: PhaseState, p: SmoothScrollPhase) -> Option<PhaseState> {
    match p {
        SmoothScrollPhase::Began => if s is Closed || s is Lifted { Some(PhaseState::Down) } else { None },
        SmoothScrollPhase::Changed => if s is Down { Some(PhaseState::Down) } else { None },
        SmoothScrollPhase::Ended => if s is Down { Some(PhaseState::Lifted) } else { None },
        SmoothScrollPhase::Cancelled => if s is Down { Some(PhaseState::Closed) } else { None },
        SmoothScrollPhase::MomentumBegan => if s is Lifted { Some(PhaseState::Coast) } else { None },
        SmoothScrollPhase::MomentumChanged => if s is Coast { Some(PhaseState::Coast) } else { None },
        SmoothScrollPhase::MomentumEnded => if s is Coast { Some(PhaseState::Closed) } else { None },
        SmoothScrollPhase::Unphased => None,
    }
}

/// The state after a whole run of frames, or `None` when a phase in it
/// cannot follow the ones before.
pub open spec fn run_frames<D>(s: PhaseState, frames: Seq<ScrollFrame<D>>) -> Option<PhaseState>
    decreases frames.len(),
{
    if frames.len() == 0 {
        Some(s)
    } else {
        match next_phase_state(s, frames[0].phase) {
            Some(t) => run_frames(t, frames.drop_first()),
            None => None,
        }
    }
}

/// The application's reading `r` agrees with the stream's state.
pub open spec fn agrees(s: OutputStream, r: PhaseState) -> bool {
    match s {
        OutputStream::Idle => r is Closed || r is Lifted,
        OutputStream::Touching { .. } => r is Down,
        OutputStream::Coasting => r is Coast,
    }
}

/// Reading two runs of frames one after the other is reading them joined.
pub proof fn run_frames_append<D>(s: PhaseState, a: Seq<ScrollFrame<D>>, b: Seq<ScrollFrame<D>>)
    ensures
        run_frames(s, a + b) == match run_frames(s, a) {
            Some(t) => run_frames(t, b),
            None => None,
        },
    decreases a.len(),
{
    if a.len() > 0 {
        assert((a + b).drop_first() =~= a.drop_first() + b);
        match next_phase_state(s, a[0].phase) {
            Some(t) => run_frames_append(t, a.drop_first(), b),
            None => {},
        }
    } else {
        assert(a + b =~= b);
    }
}

/// Every operation keeps the phase stream balanced: from any reading that
/// agrees with the stream, the frames it emits are a valid continuation,
/// and the reading after them agrees with the new stream. So an idle stream
/// never leaves a gesture open, and a terminal phase is only ever emitted
/// for a gesture that began.
pub proof fn operations_keep_phases_balanced<D>(s: OutputStream, op: StreamOp<D>, r: PhaseState)
    requires
        agrees(s, r),
    ensures
        run_frames(r, apply_op(s, op).1) matches Some(t) && agrees(apply_op(s, op).0, t),
{
    let frames = apply_op(s, op).1;
    reveal_with_fuel(run_frames, 3);
    if frames.len() == 2 {
        assert(frames.drop_first().drop_first() =~= Seq::<ScrollFrame<D>>::empty());
    } else if frames.len() == 1 {
        assert(frames.drop_first() =~= Seq::<ScrollFrame<D>>::empty());
    }
}

/// A whole sequence of operations keeps the phase stream balanced: their
/// frames, read one after the other from an idle start, are valid and the
/// final reading agrees with the final stream.
pub proof fn phase_stream_stays_balanced<D>(
    s: OutputStream,
    r: PhaseState,
    frames: Seq<ScrollFrame<D>>,
    op: StreamOp<D>,
)
    requires
        run_frames(PhaseState::Closed, frames) == Some(r),
        agrees(s, r),
    ensures
        run_frames(PhaseState::Closed, frames + apply_op(s, op).1) matches Some(t) && agrees(apply_op(s, op).0, t),
{
    run_frames_append(PhaseState::Closed, frames, apply_op(s, op).1);
    operations_keep_phases_balanced(s, op, r);
}

/// The distances a run of frames carries, in order.
pub open spec fn carried<D>(frames: Seq<ScrollFrame<D>>) -> Seq<D>
    decreases frames.len(),
{
    if frames.len() == 0 {
        Seq::empty()
    } else {
        let rest = carried(frames.drop_last());
        match frames.last().delta {
            Some(d) => rest.push(d),
            None => rest,
        }
    }
}

/// The distance an operation is handed, if any.
pub open spec fn handed<D>(op: StreamOp<D>) -> Seq<D> {
    match op {
        StreamOp::Progress { delta, .. } => match delta {
            Some(d) => seq![d],
            None => Seq::empty(),
        },
        StreamOp::Finish { delta } => match delta {
            Some(d) => seq![d],
            None => Seq::empty(),
        },
        _ => Seq::empty(),
    }
}

/// The distances of two runs of frames, one after the other.
pub proof fn carried_append<D>(a: Seq<ScrollFrame<D>>, b: Seq<ScrollFrame<D>>)
    ensures
        carried(a + b) == carried(a) + carried(b),
    decreases b.len(),
{
    if b.len() == 0 {
        assert(a + b =~= a);
        assert(carried(a) + carried(b) =~= carried(a));
    } else {
        assert((a + b).drop_last() =~= a + b.drop_last());
        carried_append(a, b.drop_last());
        assert((a + b).last() == b.last());
        assert(carried(a + b) =~= carried(a) + carried(b));
    }
}

/// No distance is lost or made up: the frames an operation emits carry
/// exactly the distance it was handed, so over any run of operations the
/// stream shows all of the motion and nothing else. Bare phase changes
/// (touch, cancel, and the lift-off before a coast) carry none.
pub proof fn operations_carry_exactly_their_distance<D>(s: OutputStream, op: StreamOp<D>)
    ensures
        carried(apply_op(s, op).1) == handed(op),
{
    reveal_with_fuel(carried, 3);
    let frames = apply_op(s, op).1;
    if frames.len() == 2 {
        assert(frames.drop_last().drop_last() =~= Seq::<ScrollFrame<D>>::empty());
    } else if frames.len() == 1 {
        assert(frames.drop_last() =~= Seq::<ScrollFrame<D>>::empty());
    }
    assert(carried(frames) =~= handed(op));
}

/// Only a cancellation reports a gesture as cancelled: progress, finish and
/// touch never emit a `Cancelled` frame, so a glide that settles always ends
/// its gesture rather than abandoning it.
pub proof fn only_cancel_emits_cancelled<D>(s: OutputStream, op: StreamOp<D>)
    requires
        !(op is Cancel),
    ensures
        forall|k: int| 0 <= k < apply_op(s, op).1.len() ==> (#[trigger] apply_op(s, op).1[k]).phase != SmoothScrollPhase::Cancelled,
{
}

/// A gesture stays fingers-down for its touch time and no longer: a
/// distance that arrives before the touch time has passed keeps the fingers
/// down, and the first one after it lifts off into a coast.
pub proof fn a_touch_lifts_off_after_its_touch_time<D>(since_ms: u64, touch_ms: u64, at_ms: u64, delta: D)
    requires
        at_ms >= since_ms,
    ensures
        ({
            let next = apply_op(OutputStream::Touching { since_ms }, StreamOp::Progress { delta: Some(delta), touch_ms, at_ms }).0;
            &&& at_ms - since_ms >= touch_ms ==> next is Coasting
            &&& at_ms - since_ms < touch_ms ==> next == OutputStream::Touching { since_ms }
        }),
{
}

} // verus!
