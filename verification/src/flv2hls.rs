//! The per-stream remuxer: frames go into the multiplexer, and closed
//! segments come out at the boundaries that the segment window decides.

use vstd::prelude::*;
use xmpegts::ts::TsMuxer;
use crate::errors::MediaError;
use crate::frame::{Frame, FrameKind, HlsConfig, SegmentTiming, DISCONTINUITY_GAP_MS, KEY_FRAME};
use crate::laws::lemma_step_flush_monotonic;
use crate::muxer::{
    mux_add_stream, mux_buffered, mux_get_data, mux_new, mux_reset, mux_tracks, mux_write,
    mux_write_outcome,
    FLAG_IDR_FRAME, STREAM_TYPE_AAC, STREAM_TYPE_H264,
};
use crate::ts::{segment_name, Ts};
use crate::window::{Boundary, SegmentWindow, WindowState};

verus! {

/// A segment that has been closed: what is declared of it, its bytes, and
/// where they are to be stored.
#[derive(Debug)]
pub struct ClosedSegment {
    pub boundary: Boundary,
    pub data: Vec<u8>,
    pub stored_name: String,
    pub stored_path: String,
}

/// What taking one frame brought about.
#[derive(Debug)]
pub struct FrameOutcome {
    /// The segment that the frame closed, if it closed one.
    pub closed: Option<ClosedSegment>,
    /// Whether the multiplexer took the frame.
    pub written: Result<(), MediaError>,
}

/// What is handed to the multiplexer for one frame, besides its payload.
#[derive(Clone, Copy, Debug, PartialEq, Eq, Structural)]
pub struct MuxRequest {
    /// The channel of the frame's track.
    pub pid: u16,
    /// Presentation time on the 90 kHz clock.
    pub pts: i64,
    /// Decode time on the 90 kHz clock.
    pub dts: i64,
    pub flags: u16,
}

/// What the tag demultiplexer made of one tag.
#[derive(Debug)]
pub enum Demuxed {
    /// The tag held a frame.
    Frame(Frame),
    /// The tag held nothing to pass on.
    Nothing,
    /// The tag could not be read.
    Failed,
}

/// One input of a stream's task.
#[derive(Debug)]
pub enum StreamInput {
    /// What the demultiplexer made of the next tag.
    Tag(Demuxed),
    /// The stream was unpublished or its ingest session ended.
    EndOfStream,
}

/// What one input of a stream's task brought about.
#[derive(Debug)]
pub struct StreamStep {
    /// The segment that the input closed at a boundary, if it closed one.
    pub closed: Option<ClosedSegment>,
    /// The final segment, where the input ended the stream.
    pub last: Option<ClosedSegment>,
    /// The failure that ended the stream, where one did.
    pub error: Option<MediaError>,
}

impl StreamStep {
    /// Whether the task is over.
    pub open spec fn ended(&self) -> bool {
        self.last.is_some()
    }

    pub fn is_ended(&self) -> (r: bool)
        ensures
            r == self.ended(),
    {
        self.last.is_some()
    }
}

pub struct Flv2HlsRemuxer {
    ts_muxer: TsMuxer,
    window: SegmentWindow,
    timing: SegmentTiming,
    video_pid: u16,
    audio_pid: u16,
    store: Ts,
    app_name: String,
    stream_name: String,
}

impl Flv2HlsRemuxer {
    pub closed spec fn window(&self) -> WindowState {
        self.window@
    }

    pub closed spec fn timing(&self) -> SegmentTiming {
        self.timing
    }

    /// The multiplexer as it stands.
    pub closed spec fn muxer(&self) -> TsMuxer {
        self.ts_muxer
    }

    /// Bytes multiplexed since the last segment was closed.
    pub open spec fn buffered(&self) -> Seq<u8> {
        mux_buffered(self.muxer())
    }

    pub closed spec fn store(&self) -> Ts {
        self.store
    }

    pub closed spec fn names(&self) -> (Seq<char>, Seq<char>) {
        (self.app_name@, self.stream_name@)
    }

    pub closed spec fn wf(&self) -> bool {
        &&& self.window.wf()
        &&& mux_tracks(self.ts_muxer) == seq![self.audio_pid, self.video_pid]
        &&& self.audio_pid != self.video_pid
    }

    /// The audio and the video track have channels of their own.
    pub proof fn lemma_channels_differ(&self)
        requires
            self.wf(),
        ensures
            self.channels().0 != self.channels().1,
    {
    }

    /// The channels of the audio and the video track, in this order.
    pub closed spec fn channels(&self) -> (u16, u16) {
        (self.audio_pid, self.video_pid)
    }

    /// What the multiplexer is handed for `frame`: the channel of its track,
    /// its timestamps times 90, and the random-access flag on a video keyframe.
    pub open spec fn request_for(&self, frame: Frame) -> MuxRequest {
        MuxRequest {
            pid: if frame.kind == FrameKind::Audio {
                self.channels().0
            } else {
                self.channels().1
            },
            pts: (frame.pts * 90) as i64,
            dts: (frame.dts * 90) as i64,
            flags: if frame.is_keyframe() {
                FLAG_IDR_FRAME
            } else {
                0
            },
        }
    }

    /// Whether another segment can still be numbered.
    pub open spec fn has_room(&self) -> bool {
        self.window().next_sequence_no < u32::MAX
    }

    /// Whether `frame` can be taken: it is valid, and where it closes a
    /// segment, that segment can still be numbered.
    pub open spec fn admits(&self, frame: Frame) -> bool {
        frame.valid() && (self.window().cut(self.timing(), frame).is_some() ==> self.has_room())
    }

    /// Whether handing `frame` to the multiplexer `base` is taken as
    /// `accepted` says and leaves `after` buffered.
    pub open spec fn write_gives(&self, base: TsMuxer, frame: Frame, accepted: bool, after: Seq<u8>) -> bool {
        let request = self.request_for(frame);
        let outcome = mux_write_outcome(
            base,
            request.pid,
            request.pts,
            request.dts,
            request.flags,
            frame.payload@,
        );
        accepted == outcome.0 && after == mux_buffered(base) + outcome.1
    }

    /// How the remuxer `after` and the outcome `r` follow from taking `frame`
    /// on this remuxer.
    pub open spec fn takes(&self, after: Self, frame: Frame, r: FrameOutcome) -> bool {
        let before = self.window();
        let cut = before.cut(self.timing(), frame);
        &&& after.window() == before.step(self.timing(), frame)
        &&& after.window().last_flushed_dts >= before.last_flushed_dts
        &&& match r.closed {
            Some(seg) => {
                &&& cut.is_some()
                &&& after.stores(seg, cut.unwrap(), self.buffered())
                &&& seg.boundary.sequence_no == before.next_sequence_no
                &&& !seg.boundary.is_final
                &&& seg.boundary.duration_ms == frame.dts - before.last_flushed_dts
                &&& seg.boundary.duration_ms >= 0
                &&& seg.boundary.discontinuity == (frame.dts > before.last_flushed_dts
                    + DISCONTINUITY_GAP_MS)
                &&& after.window().last_flushed_dts == frame.dts
                &&& after.window().next_sequence_no == before.next_sequence_no + 1
                &&& after.window().open =~= seq![frame]
            },
            None => {
                &&& cut.is_none()
                &&& after.window().last_flushed_dts == before.last_flushed_dts
                &&& after.window().next_sequence_no == before.next_sequence_no
                &&& self.buffered().is_prefix_of(after.buffered())
            },
        }
        &&& if frame.is_dropped() {
            r.written.is_ok() && after.buffered() == self.buffered()
        } else if cut.is_none() {
            self.write_gives(self.muxer(), frame, r.written.is_ok(), after.buffered())
        } else {
            exists|base: TsMuxer|
                mux_buffered(base) == Seq::<u8>::empty() && #[trigger] self.write_gives(
                    base,
                    frame,
                    r.written.is_ok(),
                    after.buffered(),
                )
        }
        &&& r.written.is_err() ==> r.written.unwrap_err().is_mux()
    }

    /// Whether `b`, stored by this remuxer with bytes `data`, is the segment `seg`.
    pub open spec fn stores(&self, seg: ClosedSegment, b: crate::window::BoundaryState, data: Seq<u8>) -> bool {
        &&& seg.boundary@ == b
        &&& seg.data@ == data
        &&& seg.stored_name@ == segment_name(b.sequence_no as nat)
        &&& seg.stored_path@ == self.store().locator(b.sequence_no as nat)
    }

    /// A remuxer for one stream, with an audio and a video track registered,
    /// nothing flushed and nothing buffered. Segments are located in `store`.
    pub fn new(app_name: String, stream_name: String, store: Ts, hls_config: Option<HlsConfig>) -> (r: Self)
        ensures
            r.wf(),
            r.window() == WindowState::initial(),
            r.timing() == SegmentTiming::resolved(hls_config),
            r.buffered() == Seq::<u8>::empty(),
            r.store() == store,
            r.names() == (app_name@, stream_name@),
    {
        let mut ts_muxer = mux_new();
        let audio_pid: u16 = match mux_add_stream(&mut ts_muxer, STREAM_TYPE_AAC) {
            Ok(pid) => pid,
            Err(_) => unreached(),
        };
        assert(mux_tracks(ts_muxer) =~= seq![audio_pid]);
        assert(mux_tracks(ts_muxer)[0] == audio_pid);
        let video_pid: u16 = match mux_add_stream(&mut ts_muxer, STREAM_TYPE_H264) {
            Ok(pid) => pid,
            Err(_) => unreached(),
        };
        assert(mux_tracks(ts_muxer) =~= seq![audio_pid, video_pid]);
        Flv2HlsRemuxer {
            ts_muxer,
            window: SegmentWindow::new(),
            timing: SegmentTiming::resolve(&hls_config),
            video_pid,
            audio_pid,
            store,
            app_name,
            stream_name,
        }
    }

    pub fn app_name(&self) -> (s: &String)
        ensures
            s@ == self.names().0,
    {
        &self.app_name
    }

    pub fn stream_name(&self) -> (s: &String)
        ensures
            s@ == self.names().1,
    {
        &self.stream_name
    }

    pub fn segment_window(&self) -> (w: &SegmentWindow)
        ensures
            w@ == self.window(),
            self.wf() ==> w.wf(),
    {
        &self.window
    }

    pub fn segment_store(&self) -> (s: &Ts)
        ensures
            *s == self.store(),
    {
        &self.store
    }

    pub fn segment_timing(&self) -> (t: SegmentTiming)
        ensures
            t == self.timing(),
    {
        self.timing
    }

    /// Whether another segment can still be numbered.
    pub fn can_close_segment(&self) -> (r: bool)
        ensures
            r == self.has_room(),
    {
        self.window.next_sequence_no() < u32::MAX
    }

    /// Whether `frame` can be taken.
    pub fn can_process(&self, frame: &Frame) -> (r: bool)
        requires
            self.wf(),
        ensures
            r == self.admits(*frame),
    {
        if !frame.is_valid() {
            return false;
        }
        if let FrameKind::Audio = frame.kind {
            if !frame.has_data {
                return true;
            }
        }
        !self.window.requests_boundary(&self.timing, frame) || self.window.next_sequence_no()
            < u32::MAX
    }

    /// Works out what the multiplexer is handed for `frame`.
    pub fn write_request(&self, frame: &Frame) -> (r: MuxRequest)
        requires
            frame.valid(),
        ensures
            r == self.request_for(*frame),
            r.pts == frame.pts * 90,
            r.dts == frame.dts * 90,
    {
        let mut flags: u16 = 0;
        let pid: u16;
        match frame.kind {
            FrameKind::Video => {
                pid = self.video_pid;
                if frame.frame_type == KEY_FRAME {
                    flags = FLAG_IDR_FRAME;
                }
            },
            FrameKind::Audio => {
                pid = self.audio_pid;
            },
        }
        MuxRequest { pid, pts: frame.pts * 90, dts: frame.dts * 90, flags }
    }

    fn close(&mut self, boundary: Boundary) -> (seg: ClosedSegment)
        ensures
            final(self).stores(seg, boundary@, old(self).buffered()),
            final(self).buffered() == Seq::<u8>::empty(),
            final(self).window == old(self).window,
            final(self).timing == old(self).timing,
            final(self).store == old(self).store,
            final(self).app_name == old(self).app_name,
            final(self).stream_name == old(self).stream_name,
            final(self).video_pid == old(self).video_pid,
            final(self).audio_pid == old(self).audio_pid,
            mux_tracks(final(self).ts_muxer) == mux_tracks(old(self).ts_muxer),
    {
        let data = mux_get_data(&mut self.ts_muxer);
        let (stored_name, stored_path) = self.store.locate(boundary.sequence_no);
        ClosedSegment { boundary, data, stored_name, stored_path }
    }

    /// Takes one demultiplexed frame. An audio frame without data changes
    /// nothing. Otherwise, where the frame asks for a boundary, the bytes
    /// buffered so far are closed as a segment before the frame is written, so
    /// that the frame is the first of the next segment; then the frame is
    /// handed to the multiplexer on its track, on the 90 kHz clock.
    pub fn process_demux_data(&mut self, frame: &Frame) -> (r: FrameOutcome)
        requires
            old(self).wf(),
            old(self).admits(*frame),
        ensures
            final(self).wf(),
            final(self).timing() == old(self).timing(),
            final(self).store() == old(self).store(),
            final(self).names() == old(self).names(),
            final(self).channels() == old(self).channels(),
            old(self).takes(*final(self), *frame, r),
    {
        proof {
            lemma_step_flush_monotonic(self.window@, self.timing, *frame);
        }
        if let FrameKind::Audio = frame.kind {
            if !frame.has_data {
                return FrameOutcome { closed: None, written: Ok(()) };
            }
        }
        let request = self.write_request(frame);
        let mut closed: Option<ClosedSegment> = None;
        if let Some(boundary) = self.window.advance(&self.timing, frame) {
            closed = Some(self.close(boundary));
            mux_reset(&mut self.ts_muxer);
        }
        let ghost base = self.ts_muxer;
        let written = match mux_write(
            &mut self.ts_muxer,
            request.pid,
            request.pts,
            request.dts,
            request.flags,
            &frame.payload,
        ) {
            Ok(()) => Ok(()),
            Err(e) => Err(MediaError::MpegTsError(e)),
        };
        proof {
            assert(old(self).write_gives(base, *frame, written.is_ok(), self.buffered()));
            if closed.is_some() {
                assert(mux_buffered(base) == Seq::<u8>::empty());
            }
            if closed.is_none() {
                assert(old(self).buffered().is_prefix_of(self.buffered()));
            }
        }
        FrameOutcome { closed, written }
    }

    /// Takes what the demultiplexer made of one tag: a frame is processed,
    /// nothing is passed over, and a failure is reported with the remuxer
    /// left as it was.
    pub fn process_flv_data(&mut self, demuxed: &Demuxed) -> (r: FrameOutcome)
        requires
            old(self).wf(),
            demuxed matches Demuxed::Frame(f) ==> old(self).admits(*f),
        ensures
            final(self).wf(),
            final(self).timing() == old(self).timing(),
            final(self).store() == old(self).store(),
            final(self).names() == old(self).names(),
            final(self).channels() == old(self).channels(),
            match *demuxed {
                Demuxed::Frame(f) => old(self).takes(*final(self), f, r),
                Demuxed::Nothing => {
                    &&& r.closed.is_none()
                    &&& r.written.is_ok()
                    &&& final(self).window() == old(self).window()
                    &&& final(self).muxer() == old(self).muxer()
                },
                Demuxed::Failed => {
                    &&& r.closed.is_none()
                    &&& r.written.is_err()
                    &&& r.written.unwrap_err().is_demux()
                    &&& final(self).window() == old(self).window()
                    &&& final(self).muxer() == old(self).muxer()
                },
            },
    {
        match demuxed {
            Demuxed::Frame(frame) => self.process_demux_data(frame),
            Demuxed::Nothing => FrameOutcome { closed: None, written: Ok(()) },
            Demuxed::Failed => FrameOutcome {
                closed: None,
                written: Err(MediaError::FlvDemuxerError),
            },
        }
    }

    /// Closes whatever is buffered as the final segment, however short and
    /// even where nothing is buffered. The window stays as it is.
    pub fn flush_remaining_data(&mut self) -> (seg: ClosedSegment)
        requires
            old(self).wf(),
        ensures
            final(self).wf(),
            final(self).stores(seg, old(self).window().final_cut(), old(self).buffered()),
            seg.boundary.is_final,
            final(self).buffered() == Seq::<u8>::empty(),
            final(self).window() == old(self).window(),
            final(self).timing() == old(self).timing(),
            final(self).store() == old(self).store(),
            final(self).names() == old(self).names(),
            final(self).channels() == old(self).channels(),
    {
        let boundary = self.window.finish();
        self.close(boundary)
    }

    /// Takes one input of the stream's task. A tag is processed; a failure in
    /// demultiplexing or multiplexing ends the stream, and so does the end of
    /// the input. A stream never ends without its final segment: whatever is
    /// buffered then is closed as such.
    pub fn on_input(&mut self, input: &StreamInput) -> (r: StreamStep)
        requires
            old(self).wf(),
            input matches StreamInput::Tag(Demuxed::Frame(f)) ==> old(self).admits(*f),
        ensures
            final(self).wf(),
            final(self).timing() == old(self).timing(),
            final(self).store() == old(self).store(),
            final(self).names() == old(self).names(),
            final(self).channels() == old(self).channels(),
            final(self).window() == (match *input {
                StreamInput::Tag(Demuxed::Frame(f)) => old(self).window().step(old(self).timing(), f),
                _ => old(self).window(),
            }),
            match r.closed {
                Some(seg) => input matches StreamInput::Tag(Demuxed::Frame(f)) && old(
                    self,
                ).window().cut(old(self).timing(), *f).is_some() && final(self).stores(
                    seg,
                    old(self).window().cut(old(self).timing(), *f).unwrap(),
                    old(self).buffered(),
                ),
                None => input matches StreamInput::Tag(Demuxed::Frame(f)) ==> old(self).window().cut(
                    old(self).timing(),
                    *f,
                ).is_none(),
            },
            r.ended() <==> (*input is EndOfStream || r.error.is_some()),
            match *input {
                StreamInput::EndOfStream => r.error.is_none() && final(self).stores(
                    r.last.unwrap(),
                    old(self).window().final_cut(),
                    old(self).buffered(),
                ),
                StreamInput::Tag(Demuxed::Failed) => r.error.is_some() && r.error.unwrap().is_demux()
                    && final(self).stores(
                    r.last.unwrap(),
                    old(self).window().final_cut(),
                    old(self).buffered(),
                ),
                StreamInput::Tag(Demuxed::Nothing) => r.error.is_none() && final(self).buffered() == old(
                    self,
                ).buffered(),
                StreamInput::Tag(Demuxed::Frame(f)) => {
                    &&& r.error.is_some() ==> r.error.unwrap().is_mux()
                    &&& f.is_dropped() ==> r.error.is_none() && final(self).buffered() == old(
                        self,
                    ).buffered()
                },
            },
            input matches StreamInput::Tag(Demuxed::Frame(f)) ==> (match r.error {
                None => old(self).takes(
                    *final(self),
                    *f,
                    (FrameOutcome { closed: r.closed, written: Ok(()) }),
                ),
                Some(e) => exists|mid: Flv2HlsRemuxer| #[trigger]
                    old(self).takes(mid, *f, (FrameOutcome { closed: r.closed, written: Err(e) }))
                        && final(self).window() == mid.window() && final(self).stores(
                        r.last.unwrap(),
                        mid.window().final_cut(),
                        mid.buffered(),
                    ),
            }),
            match r.last {
                Some(seg) => {
                    &&& seg.boundary@ == final(self).window().final_cut()
                    &&& seg.boundary.is_final
                    &&& seg.stored_name@ == segment_name(seg.boundary.sequence_no as nat)
                    &&& seg.stored_path@ == final(self).store().locator(seg.boundary.sequence_no as nat)
                    &&& final(self).buffered() == Seq::<u8>::empty()
                },
                None => true,
            },
    {
        match input {
            StreamInput::EndOfStream => {
                let last = self.flush_remaining_data();
                StreamStep { closed: None, last: Some(last), error: None }
            },
            StreamInput::Tag(demuxed) => {
                let outcome = self.process_flv_data(demuxed);
                let ghost mid = *self;
                match outcome.written {
                    Ok(()) => StreamStep { closed: outcome.closed, last: None, error: None },
                    Err(e) => {
                        let last = self.flush_remaining_data();
                        proof {
                            if let Demuxed::Frame(f) = demuxed {
                                assert(old(self).takes(
                                    mid,
                                    *f,
                                    (FrameOutcome { closed: outcome.closed, written: Err(e) }),
                                ));
                            }
                        }
                        StreamStep { closed: outcome.closed, last: Some(last), error: Some(e) }
                    },
                }
            },
        }
    }
}

} // verus!
