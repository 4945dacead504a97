use openlogi::scroll_phase::{
    cancel_ends_stream, glide_update, StreamOp,
    continuous_axis, deliver, phase_values, starts_new_burst, tick_scroll_pixels, OutputStream,
    ScrollFrame, SmoothScrollPhase,
};

fn f(delta: Option<i32>, phase: SmoothScrollPhase) -> ScrollFrame<i32> {
    ScrollFrame { delta, phase }
}

#[test]
fn a_gesture_begins_changes_then_coasts_after_the_touch_time() {
    let mut out = OutputStream::Idle;
    let mut emit = Vec::new();
    out.progress(Some(5), 60, 1000, &mut emit);
    out.progress(Some(4), 60, 1030, &mut emit);
    out.progress(Some(3), 60, 1060, &mut emit);
    out.progress(Some(2), 60, 1070, &mut emit);
    out.finish(Some(1), &mut emit);
    assert_eq!(
        emit,
        vec![
            f(Some(5), SmoothScrollPhase::Began),
            f(Some(4), SmoothScrollPhase::Changed),
            f(None, SmoothScrollPhase::Ended),
            f(Some(3), SmoothScrollPhase::MomentumBegan),
            f(Some(2), SmoothScrollPhase::MomentumChanged),
            f(Some(1), SmoothScrollPhase::MomentumEnded),
        ]
    );
    assert_eq!(out, OutputStream::Idle);
}

#[test]
fn no_distance_emits_nothing() {
    let mut out = OutputStream::Idle;
    let mut emit: Vec<ScrollFrame<i32>> = Vec::new();
    out.progress(None, 60, 0, &mut emit);
    out.finish(None, &mut emit);
    out.cancel(&mut emit);
    out.touch(&mut emit);
    assert!(emit.is_empty());
    assert_eq!(out, OutputStream::Idle);
}

#[test]
fn cancellation_emits_one_terminal_phase_only_after_output_began() {
    let mut out = OutputStream::Idle;
    let mut emit = Vec::new();
    out.cancel(&mut emit);
    assert!(emit.is_empty());
    out.progress(Some(5), 60, 0, &mut emit);
    out.cancel(&mut emit);
    out.cancel(&mut emit);
    assert_eq!(
        emit,
        vec![f(Some(5), SmoothScrollPhase::Began), f(None, SmoothScrollPhase::Cancelled)]
    );
}

#[test]
fn a_notch_during_the_coast_ends_it() {
    let mut out = OutputStream::Coasting;
    let mut emit: Vec<ScrollFrame<i32>> = Vec::new();
    out.touch(&mut emit);
    assert_eq!(emit, vec![f(None, SmoothScrollPhase::MomentumEnded)]);
    assert_eq!(out, OutputStream::Idle);
    let mut touching = OutputStream::Touching { since_ms: 3 };
    touching.touch(&mut emit);
    assert_eq!(touching, OutputStream::Touching { since_ms: 3 });
    assert_eq!(emit.len(), 1);
}

#[test]
fn a_short_glide_is_shown_as_a_whole_gesture() {
    let mut out = OutputStream::Idle;
    let mut emit = Vec::new();
    out.finish(Some(7), &mut emit);
    assert_eq!(
        emit,
        vec![f(Some(7), SmoothScrollPhase::Began), f(None, SmoothScrollPhase::Ended)]
    );
}

#[test]
fn without_edge_bounce_frames_lose_their_phase() {
    assert_eq!(deliver(true, f(None, SmoothScrollPhase::Ended)), Some(f(None, SmoothScrollPhase::Ended)));
    assert_eq!(deliver(false, f(None, SmoothScrollPhase::Ended)), None);
    assert_eq!(
        deliver(false, f(Some(3), SmoothScrollPhase::Changed)),
        Some(f(Some(3), SmoothScrollPhase::Unphased))
    );
}

#[test]
fn bursts_start_after_a_pause() {
    assert!(starts_new_burst(None, 5, 150));
    assert!(!starts_new_burst(Some(100), 200, 150));
    assert!(starts_new_burst(Some(100), 250, 150));
    assert!(!starts_new_burst(Some(300), 250, 150));
}

#[test]
fn phases_map_to_their_event_fields() {
    assert_eq!(phase_values(SmoothScrollPhase::Began), (1, 0));
    assert_eq!(phase_values(SmoothScrollPhase::Changed), (2, 0));
    assert_eq!(phase_values(SmoothScrollPhase::Ended), (4, 0));
    assert_eq!(phase_values(SmoothScrollPhase::Cancelled), (8, 0));
    assert_eq!(phase_values(SmoothScrollPhase::MomentumBegan), (0, 1));
    assert_eq!(phase_values(SmoothScrollPhase::MomentumChanged), (0, 2));
    assert_eq!(phase_values(SmoothScrollPhase::MomentumEnded), (0, 3));
}

#[test]
fn continuous_axes_round_toward_zero() {
    assert_eq!(continuous_axis(25), (25, 2, 163840));
    assert_eq!(continuous_axis(-25), (-25, -2, -163840));
    assert_eq!(continuous_axis(-7), (-7, 0, -45875));
    assert_eq!(continuous_axis(0), (0, 0, 0));
    assert_eq!(tick_scroll_pixels(-1, 1), (3, -3));
}

#[test]
fn only_the_last_glide_finishes_or_cancels_the_stream() {
    assert!(matches!(glide_update(true, 0, Some(1), 60, 5), StreamOp::Finish { delta: Some(1) }));
    assert!(matches!(
        glide_update(true, 1, Some(1), 60, 5),
        StreamOp::Progress { delta: Some(1), touch_ms: 60, at_ms: 5 }
    ));
    assert!(matches!(glide_update(false, 0, None::<i32>, 60, 5), StreamOp::Progress { .. }));
    assert!(cancel_ends_stream(true, 0));
    assert!(!cancel_ends_stream(true, 1));
    assert!(!cancel_ends_stream(false, 0));
    let mut out = OutputStream::Coasting;
    let mut emit: Vec<ScrollFrame<i32>> = Vec::new();
    out.apply(StreamOp::Finish { delta: Some(2) }, &mut emit);
    assert_eq!(emit, vec![f(Some(2), SmoothScrollPhase::MomentumEnded)]);
}
