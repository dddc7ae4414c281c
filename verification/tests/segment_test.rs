use livehls::errors::MediaError;
use livehls::flv2hls::{ClosedSegment, Demuxed, Flv2HlsRemuxer, StreamInput};
use livehls::frame::{Frame, FrameKind, HlsConfig, SegmentTiming};
use livehls::ts::Ts;
use livehls::window::SegmentWindow;

fn video(dts: i64, key: bool) -> Frame {
    Frame {
        kind: FrameKind::Video,
        pts: dts,
        dts,
        frame_type: if key { 1 } else { 2 },
        has_data: true,
        payload: vec![0, 0, 0, 1, 0x65, 1, 2, 3, 4, 5],
    }
}

fn audio(dts: i64, has_data: bool) -> Frame {
    Frame {
        kind: FrameKind::Audio,
        pts: dts,
        dts,
        frame_type: 0,
        has_data,
        payload: if has_data { vec![0xFF, 0xF1, 1, 2, 3, 4, 5, 6] } else { Vec::new() },
    }
}

fn remuxer(config: Option<HlsConfig>) -> Flv2HlsRemuxer {
    Flv2HlsRemuxer::new(
        String::from("live"),
        String::from("cam"),
        Ts::new(String::from("./live/cam")),
        config,
    )
}

fn feed(r: &mut Flv2HlsRemuxer, frame: &Frame) -> Option<ClosedSegment> {
    assert!(frame.is_valid());
    assert!(r.can_process(frame));
    let outcome = r.process_demux_data(frame);
    assert!(outcome.written.is_ok());
    outcome.closed
}

#[test]
fn timing_defaults_are_five_and_five() {
    let t = SegmentTiming::resolve(&None);
    assert_eq!(t.target_duration_seconds, 5);
    assert_eq!(t.audio_only_fragment_ratio, 5);
    let t = SegmentTiming::resolve(&Some(HlsConfig { fragment: Some(2), aof_ratio: None }));
    assert_eq!(t.target_duration_seconds, 2);
    assert_eq!(t.audio_only_fragment_ratio, 5);
    let t = SegmentTiming::resolve(&Some(HlsConfig { fragment: None, aof_ratio: Some(3) }));
    assert_eq!(t.target_duration_seconds, 5);
    assert_eq!(t.audio_only_fragment_ratio, 3);
}

#[test]
fn new_remuxer_starts_at_zero() {
    let r = remuxer(None);
    let w = r.segment_window();
    assert_eq!(w.last_flushed_dts(), 0);
    assert_eq!(w.last_flushed_pts(), 0);
    assert_eq!(w.last_seen_dts(), 0);
    assert_eq!(w.next_sequence_no(), 0);
    assert_eq!(r.app_name(), "live");
    assert_eq!(r.stream_name(), "cam");
    assert_eq!(r.segment_timing().target_duration_seconds, 5);
}

#[test]
fn keyframe_before_target_does_not_cut() {
    let mut r = remuxer(None);
    assert!(feed(&mut r, &video(0, true)).is_none());
    assert!(feed(&mut r, &video(4999, true)).is_none());
    assert_eq!(r.segment_window().last_flushed_dts(), 0);
    assert_eq!(r.segment_window().last_seen_dts(), 4999);
    assert_eq!(r.segment_window().accumulated_since_flush(), 4999);
}

#[test]
fn keyframe_at_target_cuts() {
    let mut r = remuxer(None);
    assert!(feed(&mut r, &video(0, true)).is_none());
    let seg = feed(&mut r, &video(5000, true)).expect("a boundary");
    assert_eq!(seg.boundary.sequence_no, 0);
    assert_eq!(seg.boundary.duration_ms, 5000);
    assert!(!seg.boundary.discontinuity);
    assert!(!seg.boundary.is_final);
    assert_eq!(seg.stored_name, "0.ts");
    assert_eq!(seg.stored_path, "./live/cam/0.ts");
    assert_eq!(r.segment_window().last_flushed_dts(), 5000);
    assert_eq!(r.segment_window().accumulated_since_flush(), 0);
}

#[test]
fn inter_frame_never_cuts() {
    let mut r = remuxer(None);
    assert!(feed(&mut r, &video(0, true)).is_none());
    assert!(feed(&mut r, &video(60000, false)).is_none());
    assert_eq!(r.segment_window().last_flushed_dts(), 0);
}

#[test]
fn closed_segment_holds_what_was_buffered_before_the_trigger() {
    let mut r = remuxer(None);
    assert!(feed(&mut r, &video(0, true)).is_none());
    assert!(feed(&mut r, &video(40, false)).is_none());
    let seg = feed(&mut r, &video(5000, true)).expect("a boundary");
    assert!(!seg.data.is_empty());
    assert_eq!(seg.data.len() % 188, 0);
    assert_eq!(seg.data[0], 0x47);
    // the keyframe that asked for the boundary is in the next segment
    let tail = r.flush_remaining_data();
    assert!(!tail.data.is_empty());
    assert_eq!(tail.data.len() % 188, 0);
    // and the buffer is empty once handed out
    let again = r.flush_remaining_data();
    assert!(again.data.is_empty());
}

#[test]
fn audio_only_rotation_at_25000() {
    let mut r = remuxer(Some(HlsConfig { fragment: Some(5), aof_ratio: Some(5) }));
    assert!(feed(&mut r, &audio(0, true)).is_none());
    assert!(feed(&mut r, &audio(24999, true)).is_none());
    let seg = feed(&mut r, &audio(25000, true)).expect("a boundary");
    assert_eq!(seg.boundary.duration_ms, 25000);
    assert_eq!(seg.boundary.sequence_no, 0);
    assert!(seg.boundary.discontinuity);
    assert!(feed(&mut r, &audio(49999, true)).is_none());
    let seg = feed(&mut r, &audio(50001, true)).expect("a boundary");
    assert_eq!(seg.boundary.duration_ms, 25001);
    assert_eq!(seg.boundary.sequence_no, 1);
}

#[test]
fn audio_threshold_is_target_times_ratio() {
    let mut r = remuxer(Some(HlsConfig { fragment: Some(2), aof_ratio: Some(3) }));
    assert!(feed(&mut r, &audio(5999, true)).is_none());
    let seg = feed(&mut r, &audio(6000, true)).expect("a boundary");
    assert_eq!(seg.boundary.duration_ms, 6000);
    assert!(!seg.boundary.discontinuity);
}

#[test]
fn audio_without_data_changes_nothing() {
    let mut r = remuxer(None);
    assert!(feed(&mut r, &audio(1000, true)).is_none());
    assert!(feed(&mut r, &audio(90000, false)).is_none());
    assert_eq!(r.segment_window().last_seen_dts(), 1000);
    assert_eq!(r.segment_window().last_flushed_dts(), 0);
    assert_eq!(r.segment_window().next_sequence_no(), 0);
}

#[test]
fn discontinuity_only_beyond_15000() {
    let mut r = remuxer(None);
    let seg = feed(&mut r, &video(15000, true)).expect("a boundary");
    assert!(!seg.boundary.discontinuity);
    let seg = feed(&mut r, &video(30001, true)).expect("a boundary");
    assert!(seg.boundary.discontinuity);
    assert_eq!(seg.boundary.duration_ms, 15001);
    let seg = feed(&mut r, &video(36000, true)).expect("a boundary");
    assert!(!seg.boundary.discontinuity);
}

#[test]
fn flush_points_never_go_back() {
    let mut r = remuxer(None);
    let mut last = r.segment_window().last_flushed_dts();
    let frames = [
        video(0, true),
        audio(20, true),
        video(6000, true),
        audio(5990, true),
        video(5000, true),
        video(12000, true),
        audio(11000, true),
        audio(40000, true),
    ];
    for f in frames.iter() {
        let _ = feed(&mut r, f);
        let now = r.segment_window().last_flushed_dts();
        assert!(now >= last);
        last = now;
    }
    assert_eq!(last, 40000);
}

#[test]
fn segments_are_numbered_from_zero_without_gaps() {
    let mut r = remuxer(Some(HlsConfig { fragment: Some(1), aof_ratio: None }));
    let mut expected: u32 = 0;
    let mut dts: i64 = 0;
    while dts <= 10000 {
        if let Some(seg) = feed(&mut r, &video(dts, true)) {
            assert_eq!(seg.boundary.sequence_no, expected);
            assert_eq!(seg.stored_name, format!("{}.ts", expected));
            expected += 1;
        }
        dts += 500;
    }
    assert_eq!(expected, 10);
    let tail = r.flush_remaining_data();
    assert_eq!(tail.boundary.sequence_no, 10);
    assert_eq!(tail.stored_name, "10.ts");
    assert_eq!(tail.stored_path, "./live/cam/10.ts");
}

#[test]
fn final_flush_of_an_empty_stream() {
    let mut r = remuxer(None);
    let seg = r.flush_remaining_data();
    assert!(seg.boundary.is_final);
    assert_eq!(seg.boundary.duration_ms, 0);
    assert_eq!(seg.boundary.sequence_no, 0);
    assert!(!seg.boundary.discontinuity);
    assert!(seg.data.is_empty());
    assert_eq!(seg.stored_name, "0.ts");
}

#[test]
fn final_flush_right_after_a_boundary() {
    let mut r = remuxer(None);
    let _ = feed(&mut r, &video(0, true));
    let _ = feed(&mut r, &video(5000, true)).expect("a boundary");
    let seg = r.flush_remaining_data();
    assert!(seg.boundary.is_final);
    assert_eq!(seg.boundary.duration_ms, 0);
    assert_eq!(seg.boundary.sequence_no, 1);
}

#[test]
fn final_flush_flags_a_long_tail() {
    let mut r = remuxer(None);
    let _ = feed(&mut r, &video(0, true));
    let _ = feed(&mut r, &video(15001, false));
    let seg = r.flush_remaining_data();
    assert!(seg.boundary.is_final);
    assert!(seg.boundary.discontinuity);
    assert_eq!(seg.boundary.duration_ms, 15001);
}

#[test]
fn keyframe_every_4000ms_for_20_seconds() {
    let mut r = remuxer(Some(HlsConfig { fragment: Some(5), aof_ratio: None }));
    let mut closed: Vec<ClosedSegment> = Vec::new();
    let mut starts: Vec<i64> = Vec::new();
    let mut dts: i64 = 0;
    while dts <= 20000 {
        let key = dts % 4000 == 0;
        if let Some(seg) = feed(&mut r, &video(dts, key)) {
            assert!(key);
            starts.push(dts);
            closed.push(seg);
        }
        dts += 40;
    }
    closed.push(r.flush_remaining_data());
    assert_eq!(starts, vec![8000, 16000]);
    assert_eq!(closed.len(), 3);
    for (i, seg) in closed.iter().enumerate() {
        assert_eq!(seg.boundary.sequence_no as usize, i);
        assert!(!seg.boundary.discontinuity);
        assert_eq!(seg.boundary.is_final, i == 2);
        assert!(!seg.data.is_empty());
    }
    assert_eq!(closed[0].boundary.duration_ms, 8000);
    assert_eq!(closed[1].boundary.duration_ms, 8000);
    assert_eq!(closed[2].boundary.duration_ms, 4000);
}

#[test]
fn failed_demux_is_reported_and_changes_nothing() {
    let mut r = remuxer(None);
    let _ = feed(&mut r, &video(100, true));
    let outcome = r.process_flv_data(&Demuxed::Failed);
    assert!(outcome.closed.is_none());
    assert!(matches!(outcome.written, Err(MediaError::FlvDemuxerError)));
    assert_eq!(r.segment_window().last_seen_dts(), 100);
    let outcome = r.process_flv_data(&Demuxed::Nothing);
    assert!(outcome.closed.is_none());
    assert!(outcome.written.is_ok());
    let outcome = r.process_flv_data(&Demuxed::Frame(video(5200, true)));
    assert!(outcome.written.is_ok());
    assert_eq!(outcome.closed.expect("a boundary").boundary.duration_ms, 5200);
}

#[test]
fn one_stream_failing_leaves_another_untouched() {
    let mut a = remuxer(None);
    let mut b = remuxer(None);
    let failed = a.process_flv_data(&Demuxed::Failed);
    assert!(failed.written.is_err());
    let _ = feed(&mut b, &video(0, true));
    let seg = feed(&mut b, &video(5000, true)).expect("a boundary");
    assert_eq!(seg.boundary.sequence_no, 0);
}

#[test]
fn media_error_descriptions() {
    assert_eq!(MediaError::FlvDemuxerError.describe(), "flv demuxer error");
}

#[test]
fn window_alone_decides_boundaries() {
    let mut w = SegmentWindow::new();
    let timing = SegmentTiming { target_duration_seconds: 5, audio_only_fragment_ratio: 5 };
    assert!(!w.requests_boundary(&timing, &video(4999, true)));
    assert!(w.requests_boundary(&timing, &video(5000, true)));
    assert!(!w.requests_boundary(&timing, &video(5000, false)));
    assert!(!w.requests_boundary(&timing, &audio(24999, true)));
    assert!(w.requests_boundary(&timing, &audio(25000, true)));
    assert!(!w.requests_boundary(&timing, &audio(25000, false)));
    let b = w.advance(&timing, &video(7000, true)).expect("a boundary");
    assert_eq!(b.sequence_no, 0);
    assert_eq!(b.duration_ms, 7000);
    assert!(w.advance(&timing, &video(7040, false)).is_none());
    let f = w.finish();
    assert!(f.is_final);
    assert_eq!(f.sequence_no, 1);
    assert_eq!(f.duration_ms, 40);
}

#[test]
fn largest_settings_do_not_overflow() {
    let mut w = SegmentWindow::new();
    let timing = SegmentTiming {
        target_duration_seconds: u32::MAX,
        audio_only_fragment_ratio: u32::MAX,
    };
    assert!(!w.requests_boundary(&timing, &audio(0xFFFF_FFFF, true)));
    assert!(w.advance(&timing, &video(0xFFFF_FFFF, true)).is_none());
    let zero = SegmentTiming { target_duration_seconds: 0, audio_only_fragment_ratio: 0 };
    assert!(w.requests_boundary(&zero, &audio(0, true)));
}

#[test]
fn remote_store_gives_upper_case_locator() {
    let mut r = Flv2HlsRemuxer::new(
        String::from("live"),
        String::from("cam"),
        Ts::new_remote(String::from("live/cam")),
        None,
    );
    assert!(r.segment_store().uses_remote());
    let _ = feed(&mut r, &video(0, true));
    let seg = feed(&mut r, &video(5000, true)).expect("a boundary");
    assert_eq!(seg.stored_name, "0.ts");
    assert_eq!(seg.stored_path, "LIVE/CAM/0.ts");
}

#[test]
fn multiplexer_is_handed_the_90khz_clock() {
    let r = remuxer(None);
    let key = r.write_request(&video(1000, true));
    assert_eq!(key.pts, 90000);
    assert_eq!(key.dts, 90000);
    assert_eq!(key.flags, 1);
    let inter = r.write_request(&video(40, false));
    assert_eq!(inter.dts, 3600);
    assert_eq!(inter.flags, 0);
    assert_eq!(inter.pid, key.pid);
    let sound = r.write_request(&audio(0xFFFF_FFFF, true));
    assert_eq!(sound.dts, 386547056550);
    assert_eq!(sound.flags, 0);
    assert_ne!(sound.pid, key.pid);
}

#[test]
fn end_of_stream_closes_the_final_segment() {
    let mut r = remuxer(None);
    let step = r.on_input(&StreamInput::Tag(Demuxed::Frame(video(0, true))));
    assert!(!step.is_ended());
    assert!(step.closed.is_none());
    assert!(step.error.is_none());
    let step = r.on_input(&StreamInput::Tag(Demuxed::Frame(video(6000, true))));
    assert!(!step.is_ended());
    assert_eq!(step.closed.expect("a boundary").boundary.sequence_no, 0);
    let step = r.on_input(&StreamInput::Tag(Demuxed::Frame(video(7000, false))));
    assert!(step.closed.is_none());
    let step = r.on_input(&StreamInput::EndOfStream);
    assert!(step.is_ended());
    assert!(step.error.is_none());
    let last = step.last.expect("the final segment");
    assert!(last.boundary.is_final);
    assert_eq!(last.boundary.sequence_no, 1);
    assert_eq!(last.boundary.duration_ms, 1000);
    assert!(!last.data.is_empty());
}

#[test]
fn failed_tag_ends_the_stream_with_its_final_segment() {
    let mut r = remuxer(None);
    let _ = r.on_input(&StreamInput::Tag(Demuxed::Frame(video(100, true))));
    let step = r.on_input(&StreamInput::Tag(Demuxed::Nothing));
    assert!(!step.is_ended());
    let step = r.on_input(&StreamInput::Tag(Demuxed::Failed));
    assert!(step.is_ended());
    assert!(matches!(step.error, Some(MediaError::FlvDemuxerError)));
    let last = step.last.expect("the final segment");
    assert!(last.boundary.is_final);
    assert_eq!(last.boundary.sequence_no, 0);
    assert_eq!(last.boundary.duration_ms, 100);
    assert!(!last.data.is_empty());
}

#[test]
fn frames_off_the_clock_are_not_valid() {
    assert!(video(0, true).is_valid());
    assert!(video(0xFFFF_FFFF, true).is_valid());
    assert!(!video(0x1_0000_0000, true).is_valid());
    assert!(!video(-1, false).is_valid());
    let mut early = video(0, true);
    early.pts = -0x8000_0000;
    assert!(early.is_valid());
    early.pts = -0x8000_0001;
    assert!(!early.is_valid());
    let mut late = video(0xFFFF_FFFF, true);
    late.pts = 0x1_7FFF_FFFF;
    assert!(late.is_valid());
    late.pts = 0x1_8000_0000;
    assert!(!late.is_valid());
    let mut big = video(0, true);
    big.payload = vec![0u8; 0x0100_0001];
    assert!(big.is_valid());
    let r = remuxer(None);
    assert!(r.can_process(&video(5000, true)));
    assert!(!r.can_process(&video(-5, true)));
}

#[test]
fn end_of_stream_needs_no_room() {
    let mut r = remuxer(None);
    let step = r.on_input(&StreamInput::Tag(Demuxed::Failed));
    assert!(step.is_ended());
    let mut r = remuxer(None);
    let step = r.on_input(&StreamInput::EndOfStream);
    assert!(step.last.expect("the final segment").boundary.is_final);
}
