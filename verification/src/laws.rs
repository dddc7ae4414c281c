//! What holds of every segment window, whatever frames it is fed.

use vstd::prelude::*;
use crate::frame::{Frame, FrameKind, SegmentTiming, DEFAULT_AOF_RATIO, DEFAULT_FRAGMENT_SECONDS};
use crate::window::{boundary_requested, WindowState};

verus! {

/// A single frame never moves the last flush point backwards, and moves it
/// only where it closes a segment.
pub proof fn lemma_step_flush_monotonic(w: WindowState, timing: SegmentTiming, frame: Frame)
    ensures
        w.step(timing, frame).last_flushed_dts >= w.last_flushed_dts,
        w.cut(timing, frame).is_none() ==> w.step(timing, frame).last_flushed_dts
            == w.last_flushed_dts,
{
    assert(timing.video_threshold() >= 0);
    assert(timing.audio_threshold() >= 0) by (nonlinear_arith)
        requires
            timing.audio_threshold() == timing.target_duration_seconds * 1000
                * timing.audio_only_fragment_ratio,
    ;
}

/// Over a whole stream the last flush point never decreases: after any
/// prefix of the frames it is at most what it is after a longer prefix.
pub proof fn lemma_flush_monotonic(
    w: WindowState,
    timing: SegmentTiming,
    frames: Seq<Frame>,
    shorter: int,
    longer: int,
)
    requires
        0 <= shorter <= longer <= frames.len(),
    ensures
        w.run(timing, frames.take(shorter)).last_flushed_dts <= w.run(
            timing,
            frames.take(longer),
        ).last_flushed_dts,
    decreases longer - shorter,
{
    if shorter < longer {
        lemma_flush_monotonic(w, timing, frames, shorter, longer - 1);
        let head = frames.take(longer);
        assert(head.drop_last() =~= frames.take(longer - 1));
        lemma_step_flush_monotonic(w.run(timing, frames.take(longer - 1)), timing, head.last());
    }
}

/// Closed segments are numbered consecutively from the window's next number,
/// and the window's next number has advanced by exactly their count.
pub proof fn lemma_sequence_numbers_consecutive(
    w: WindowState,
    timing: SegmentTiming,
    frames: Seq<Frame>,
)
    ensures
        w.run(timing, frames).next_sequence_no == w.next_sequence_no + w.cuts(timing, frames).len(),
        forall|i: int|
            0 <= i < w.cuts(timing, frames).len() ==> (#[trigger] w.cuts(timing, frames)[i]).sequence_no
                == w.next_sequence_no + i,
        forall|i: int|
            0 <= i < w.cuts(timing, frames).len() ==> !(#[trigger] w.cuts(timing, frames)[i]).is_final,
    decreases frames.len(),
{
    if frames.len() > 0 {
        lemma_sequence_numbers_consecutive(w, timing, frames.drop_last());
    }
}

/// The segment that the end of the stream closes carries the number after the
/// last segment closed before it.
pub proof fn lemma_final_segment_number(w: WindowState, timing: SegmentTiming, frames: Seq<Frame>)
    ensures
        w.run(timing, frames).final_cut().sequence_no == w.next_sequence_no + w.cuts(
            timing,
            frames,
        ).len(),
        w.run(timing, frames).final_cut().is_final,
{
    lemma_sequence_numbers_consecutive(w, timing, frames);
}

/// A frame on the ingest clock leaves a well-formed window well-formed. In
/// particular a segment begun at a boundary that a video frame requested
/// begins with a video keyframe.
pub proof fn lemma_step_keeps_wf(w: WindowState, timing: SegmentTiming, frame: Frame)
    requires
        w.wf(),
        frame.valid(),
    ensures
        w.step(timing, frame).wf(),
        w.cut(timing, frame).is_some() ==> w.step(timing, frame).open =~= seq![frame],
        w.cut(timing, frame).is_some() && frame.kind == FrameKind::Video ==> frame.is_keyframe(),
{
}

/// After any stream of frames on the ingest clock, a segment begun at a
/// video-requested boundary begins with a video keyframe.
pub proof fn lemma_keyframe_alignment(w: WindowState, timing: SegmentTiming, frames: Seq<Frame>)
    requires
        w.wf(),
        forall|i: int| 0 <= i < frames.len() ==> (#[trigger] frames[i]).valid(),
    ensures
        w.run(timing, frames).wf(),
        w.run(timing, frames).video_cut ==> w.run(timing, frames).open.len() > 0 && w.run(
            timing,
            frames,
        ).open[0].is_keyframe(),
    decreases frames.len(),
{
    if frames.len() > 0 {
        lemma_keyframe_alignment(w, timing, frames.drop_last());
        lemma_step_keeps_wf(w.run(timing, frames.drop_last()), timing, frames.last());
    }
}

/// With the default settings an audio frame that carries data closes a
/// segment exactly when it lies 25000 ms or more past the last flush.
pub proof fn lemma_audio_rotation_default(last_flushed_dts: int, frame: Frame)
    requires
        frame.kind == FrameKind::Audio,
        frame.has_data,
    ensures
        boundary_requested(SegmentTiming::resolved(None), last_flushed_dts, frame) <==> frame.dts
            - last_flushed_dts >= 25000,
{
    let timing = SegmentTiming::resolved(None);
    assert(timing.target_duration_seconds == DEFAULT_FRAGMENT_SECONDS);
    assert(timing.audio_only_fragment_ratio == DEFAULT_AOF_RATIO);
    assert(timing.audio_threshold() == 25000) by (nonlinear_arith)
        requires
            timing.audio_threshold() == timing.target_duration_seconds * 1000
                * timing.audio_only_fragment_ratio,
            timing.target_duration_seconds == 5,
            timing.audio_only_fragment_ratio == 5,
    ;
}

/// Audio closes a segment exactly at the target duration times the ratio,
/// whatever the settings.
pub proof fn lemma_audio_rotation(timing: SegmentTiming, last_flushed_dts: int, frame: Frame)
    requires
        frame.kind == FrameKind::Audio,
        frame.has_data,
    ensures
        boundary_requested(timing, last_flushed_dts, frame) <==> frame.dts - last_flushed_dts
            >= timing.target_duration_seconds * 1000 * timing.audio_only_fragment_ratio,
{
}

/// A closed segment is flagged discontinuous exactly when the flush point
/// moved by more than 15000 ms in closing it.
pub proof fn lemma_discontinuity_is_flush_gap(w: WindowState, timing: SegmentTiming, frame: Frame)
    requires
        w.cut(timing, frame).is_some(),
    ensures
        w.cut(timing, frame).unwrap().discontinuity <==> w.step(timing, frame).last_flushed_dts
            - w.last_flushed_dts > 15000,
        w.cut(timing, frame).unwrap().duration_ms == w.step(timing, frame).last_flushed_dts
            - w.last_flushed_dts,
        w.cut(timing, frame).unwrap().duration_ms >= 0,
{
    lemma_step_flush_monotonic(w, timing, frame);
}

/// Over a whole stream, every closed segment has a duration that is not
/// negative, and is flagged discontinuous exactly when that duration, the
/// distance between its two flush points, exceeds 15000 ms.
pub proof fn lemma_cuts_flag_gaps(w: WindowState, timing: SegmentTiming, frames: Seq<Frame>)
    ensures
        forall|i: int|
            0 <= i < w.cuts(timing, frames).len() ==> (#[trigger] w.cuts(timing, frames)[i]).duration_ms
                >= 0,
        forall|i: int|
            0 <= i < w.cuts(timing, frames).len() ==> ((#[trigger] w.cuts(
                timing,
                frames,
            )[i]).discontinuity <==> w.cuts(timing, frames)[i].duration_ms > 15000),
    decreases frames.len(),
{
    if frames.len() > 0 {
        let earlier = w.cuts(timing, frames.drop_last());
        let before = w.run(timing, frames.drop_last());
        lemma_cuts_flag_gaps(w, timing, frames.drop_last());
        if before.cut(timing, frames.last()).is_some() {
            lemma_discontinuity_is_flush_gap(before, timing, frames.last());
        }
        assert forall|i: int| 0 <= i < w.cuts(timing, frames).len() implies (#[trigger] w.cuts(
            timing,
            frames,
        )[i]).duration_ms >= 0 && (w.cuts(timing, frames)[i].discontinuity <==> w.cuts(
            timing,
            frames,
        )[i].duration_ms > 15000) by {
            if i < earlier.len() {
                assert(w.cuts(timing, frames)[i] == earlier[i]);
            }
        }
    }
}

/// The final segment is flagged by the same rule, over the last frame seen.
pub proof fn lemma_final_discontinuity(w: WindowState)
    ensures
        w.final_cut().discontinuity <==> w.last_seen_dts - w.last_flushed_dts > 15000,
        w.final_cut().is_final,
        w.last_seen_dts == w.last_flushed_dts ==> w.final_cut().duration_ms == 0,
{
}

} // verus!
