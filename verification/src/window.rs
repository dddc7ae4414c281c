//! The segment window: when a segment boundary falls, and what the closed
//! segment is declared to be.

use vstd::prelude::*;
use crate::frame::{Frame, FrameKind, SegmentTiming, DISCONTINUITY_GAP_MS, KEY_FRAME, MAX_DTS, MAX_PTS, MIN_PTS};

verus! {

/// What is declared of a segment at the moment it is closed.
#[derive(Clone, Copy, Debug, PartialEq, Eq, Structural)]
pub struct Boundary {
    pub sequence_no: u32,
    pub duration_ms: i64,
    pub discontinuity: bool,
    pub is_final: bool,
}

/// The mathematical state of a segment window.
pub struct WindowState {
    pub last_flushed_dts: int,
    pub last_flushed_pts: int,
    pub last_seen_dts: int,
    pub last_seen_pts: int,
    /// Number that the next closed segment receives; segments count from zero.
    pub next_sequence_no: int,
    /// Frames handed to the multiplexer since the last boundary.
    pub open: Seq<Frame>,
    /// Whether the open segment was begun by a boundary that a video frame requested.
    pub video_cut: bool,
}

/// Whether `frame` asks for a boundary when the last flush stands at `last_flushed_dts`.
pub open spec fn boundary_requested(timing: SegmentTiming, last_flushed_dts: int, frame: Frame) -> bool {
    match frame.kind {
        FrameKind::Video => frame.frame_type == KEY_FRAME && frame.dts - last_flushed_dts
            >= timing.video_threshold(),
        FrameKind::Audio => frame.has_data && frame.dts - last_flushed_dts
            >= timing.audio_threshold(),
    }
}

/// Whether a flush at `dts` after one at `last_flushed_dts` follows a gap in the source.
pub open spec fn gap_discontinuity(last_flushed_dts: int, dts: int) -> bool {
    dts > last_flushed_dts + DISCONTINUITY_GAP_MS
}

impl WindowState {
    pub open spec fn initial() -> WindowState {
        WindowState {
            last_flushed_dts: 0,
            last_flushed_pts: 0,
            last_seen_dts: 0,
            last_seen_pts: 0,
            next_sequence_no: 0,
            open: Seq::empty(),
            video_cut: false,
        }
    }

    /// The window after `frame`.
    pub open spec fn step(self, timing: SegmentTiming, frame: Frame) -> WindowState {
        if frame.is_dropped() {
            self
        } else if boundary_requested(timing, self.last_flushed_dts, frame) {
            WindowState {
                last_flushed_dts: frame.dts as int,
                last_flushed_pts: frame.pts as int,
                last_seen_dts: frame.dts as int,
                last_seen_pts: frame.pts as int,
                next_sequence_no: self.next_sequence_no + 1,
                open: seq![frame],
                video_cut: frame.kind == FrameKind::Video,
            }
        } else {
            WindowState {
                last_seen_dts: frame.dts as int,
                last_seen_pts: frame.pts as int,
                open: self.open.push(frame),
                ..self
            }
        }
    }

    /// What `frame` closes, if it closes anything.
    pub open spec fn cut(self, timing: SegmentTiming, frame: Frame) -> Option<BoundaryState> {
        if !frame.is_dropped() && boundary_requested(timing, self.last_flushed_dts, frame) {
            Some(
                BoundaryState {
                    sequence_no: self.next_sequence_no,
                    duration_ms: frame.dts - self.last_flushed_dts,
                    discontinuity: gap_discontinuity(self.last_flushed_dts, frame.dts as int),
                    is_final: false,
                },
            )
        } else {
            None
        }
    }

    /// The segment that the end of the stream closes.
    pub open spec fn final_cut(self) -> BoundaryState {
        BoundaryState {
            sequence_no: self.next_sequence_no,
            duration_ms: self.last_seen_dts - self.last_flushed_dts,
            discontinuity: gap_discontinuity(self.last_flushed_dts, self.last_seen_dts),
            is_final: true,
        }
    }

    /// The window after all of `frames`, in order.
    pub open spec fn run(self, timing: SegmentTiming, frames: Seq<Frame>) -> WindowState
        decreases frames.len(),
    {
        if frames.len() == 0 {
            self
        } else {
            self.run(timing, frames.drop_last()).step(timing, frames.last())
        }
    }

    /// The boundaries that `frames` close, in order.
    pub open spec fn cuts(self, timing: SegmentTiming, frames: Seq<Frame>) -> Seq<BoundaryState>
        decreases frames.len(),
    {
        if frames.len() == 0 {
            Seq::empty()
        } else {
            let before = self.cuts(timing, frames.drop_last());
            match self.run(timing, frames.drop_last()).cut(timing, frames.last()) {
                Some(b) => before.push(b),
                None => before,
            }
        }
    }

    /// What every reachable window satisfies.
    pub open spec fn wf(self) -> bool {
        &&& 0 <= self.last_flushed_dts <= MAX_DTS
        &&& 0 <= self.last_seen_dts <= MAX_DTS
        &&& MIN_PTS <= self.last_flushed_pts <= MAX_PTS
        &&& MIN_PTS <= self.last_seen_pts <= MAX_PTS
        &&& 0 <= self.next_sequence_no
        &&& self.video_cut ==> self.open.len() > 0 && self.open[0].is_keyframe()
    }
}

/// A boundary over unbounded integers.
pub struct BoundaryState {
    pub sequence_no: int,
    pub duration_ms: int,
    pub discontinuity: bool,
    pub is_final: bool,
}

impl Boundary {
    pub open spec fn view(&self) -> BoundaryState {
        BoundaryState {
            sequence_no: self.sequence_no as int,
            duration_ms: self.duration_ms as int,
            discontinuity: self.discontinuity,
            is_final: self.is_final,
        }
    }
}

/// The per-stream record of where the last segment ended and what was seen since.
pub struct SegmentWindow {
    last_flushed_dts: i64,
    last_flushed_pts: i64,
    last_seen_dts: i64,
    last_seen_pts: i64,
    next_sequence_no: u32,
    open: Ghost<Seq<Frame>>,
    video_cut: Ghost<bool>,
}

impl SegmentWindow {
    pub closed spec fn view(&self) -> WindowState {
        WindowState {
            last_flushed_dts: self.last_flushed_dts as int,
            last_flushed_pts: self.last_flushed_pts as int,
            last_seen_dts: self.last_seen_dts as int,
            last_seen_pts: self.last_seen_pts as int,
            next_sequence_no: self.next_sequence_no as int,
            open: self.open@,
            video_cut: self.video_cut@,
        }
    }

    pub open spec fn wf(&self) -> bool {
        self@.wf() && self@.next_sequence_no <= u32::MAX
    }

    pub fn new() -> (w: SegmentWindow)
        ensures
            w@ == WindowState::initial(),
            w.wf(),
    {
        SegmentWindow {
            last_flushed_dts: 0,
            last_flushed_pts: 0,
            last_seen_dts: 0,
            last_seen_pts: 0,
            next_sequence_no: 0,
            open: Ghost(Seq::empty()),
            video_cut: Ghost(false),
        }
    }

    pub fn last_flushed_dts(&self) -> (r: i64)
        ensures
            r == self@.last_flushed_dts,
    {
        self.last_flushed_dts
    }

    pub fn last_flushed_pts(&self) -> (r: i64)
        ensures
            r == self@.last_flushed_pts,
    {
        self.last_flushed_pts
    }

    pub fn last_seen_dts(&self) -> (r: i64)
        ensures
            r == self@.last_seen_dts,
    {
        self.last_seen_dts
    }

    pub fn last_seen_pts(&self) -> (r: i64)
        ensures
            r == self@.last_seen_pts,
    {
        self.last_seen_pts
    }

    pub fn next_sequence_no(&self) -> (r: u32)
        ensures
            r == self@.next_sequence_no,
    {
        self.next_sequence_no
    }

    /// Milliseconds of decode time seen since the last flush.
    pub fn accumulated_since_flush(&self) -> (r: i64)
        requires
            self.wf(),
        ensures
            r == self@.last_seen_dts - self@.last_flushed_dts,
    {
        self.last_seen_dts - self.last_flushed_dts
    }

    /// Decides whether `frame` asks for a boundary.
    pub fn requests_boundary(&self, timing: &SegmentTiming, frame: &Frame) -> (r: bool)
        requires
            self.wf(),
            frame.valid(),
        ensures
            r == boundary_requested(*timing, self@.last_flushed_dts, *frame),
    {
        let gap: i128 = (frame.dts - self.last_flushed_dts) as i128;
        let base: i128 = timing.target_duration_seconds as i128 * 1000;
        match frame.kind {
            FrameKind::Video => frame.frame_type == KEY_FRAME && gap >= base,
            FrameKind::Audio => {
                let ratio: i128 = timing.audio_only_fragment_ratio as i128;
                assert(base * ratio <= 4294967295000 * 4294967295) by (nonlinear_arith)
                    requires
                        0 <= base <= 4294967295000,
                        0 <= ratio <= 4294967295,
                ;
                frame.has_data && gap >= base * ratio
            },
        }
    }

    /// Takes `frame` into the window. Where the frame asks for a boundary, the
    /// segment before it is closed and the frame opens the next one.
    pub fn advance(&mut self, timing: &SegmentTiming, frame: &Frame) -> (r: Option<Boundary>)
        requires
            old(self).wf(),
            frame.valid(),
            old(self)@.cut(*timing, *frame).is_some() ==> old(self)@.next_sequence_no < u32::MAX,
        ensures
            final(self)@ == old(self)@.step(*timing, *frame),
            final(self).wf(),
            match r {
                Some(b) => old(self)@.cut(*timing, *frame) == Some(b@),
                None => old(self)@.cut(*timing, *frame).is_none(),
            },
    {
        if let FrameKind::Audio = frame.kind {
            if !frame.has_data {
                return None;
            }
        }
        let mut closed: Option<Boundary> = None;
        if self.requests_boundary(timing, frame) {
            closed = Some(
                Boundary {
                    sequence_no: self.next_sequence_no,
                    duration_ms: frame.dts - self.last_flushed_dts,
                    discontinuity: frame.dts > self.last_flushed_dts + DISCONTINUITY_GAP_MS,
                    is_final: false,
                },
            );
            self.last_flushed_dts = frame.dts;
            self.last_flushed_pts = frame.pts;
            self.next_sequence_no = self.next_sequence_no + 1;
            self.open = Ghost(Seq::empty());
            self.video_cut = Ghost(frame.kind == FrameKind::Video);
        }
        self.last_seen_dts = frame.dts;
        self.last_seen_pts = frame.pts;
        self.open = Ghost(self.open@.push(*frame));
        closed
    }

    /// Declares the segment that the end of the stream closes. The window itself stays as it is.
    pub fn finish(&self) -> (b: Boundary)
        requires
            self.wf(),
        ensures
            b@ == self@.final_cut(),
    {
        Boundary {
            sequence_no: self.next_sequence_no,
            duration_ms: self.last_seen_dts - self.last_flushed_dts,
            discontinuity: self.last_seen_dts > self.last_flushed_dts + DISCONTINUITY_GAP_MS,
            is_final: true,
        }
    }
}

} // verus!
