//! The transport-stream multiplexer, as far as segmentation relies on it.

use vstd::prelude::*;
use xmpegts::errors::MpegTsError;
use xmpegts::ts::TsMuxer;
use crate::frame::MAX_PAYLOAD_LEN;

verus! {

/// Stream type under which the audio track is registered (AAC).
pub const STREAM_TYPE_AAC: u8 = 0x0f;

/// Stream type under which the video track is registered (H.264).
pub const STREAM_TYPE_H264: u8 = 0x1b;

/// Flag that marks a written frame as a random-access point.
pub const FLAG_IDR_FRAME: u16 = 0x0001;

/// Number of tracks one program of the multiplexer takes.
pub const MAX_TRACKS: usize = 4;

/// Largest magnitude of a 90 kHz timestamp that may be handed to the multiplexer.
pub const MAX_TICKS: i64 = 0x4_0000_0000_0000;

/// `xmpegts::ts::TsMuxer`, held as an opaque value: what is known of it is
/// what the functions below state.
#[verifier::external_type_specification]
#[verifier::external_body]
pub struct ExTsMuxer(xmpegts::ts::TsMuxer);

/// The bytes that the multiplexer has produced and not yet handed out.
pub uninterp spec fn mux_buffered(m: TsMuxer) -> Seq<u8>;

/// The channels of the tracks registered in the multiplexer's first program,
/// in the order of their registration.
pub uninterp spec fn mux_tracks(m: TsMuxer) -> Seq<u16>;

/// What `TsMuxer::write` does when the multiplexer `m` is handed a frame:
/// whether it takes the frame, and the bytes that it appends to its buffer
/// either way. The multiplexer consults nothing but its own state and what
/// it is handed.
pub uninterp spec fn mux_write_outcome(
    m: TsMuxer,
    pid: u16,
    pts: i64,
    dts: i64,
    flags: u16,
    payload: Seq<u8>,
) -> (bool, Seq<u8>);

/// `TsMuxer::new`: a multiplexer with no track and no bytes.
#[verifier::external_body]
pub(crate) fn mux_new() -> (m: TsMuxer)
    ensures
        mux_buffered(m) == Seq::<u8>::empty(),
        mux_tracks(m) == Seq::<u16>::empty(),
{
    TsMuxer::new()
}

/// `TsMuxer::add_stream` with no extra data: registers a track and returns its
/// channel, which no earlier track has, unless the program already holds four
/// tracks. The buffered bytes stay as they are.
#[verifier::external_body]
pub(crate) fn mux_add_stream(m: &mut TsMuxer, stream_type: u8) -> (r: Result<u16, MpegTsError>)
    ensures
        mux_buffered(*final(m)) == mux_buffered(*old(m)),
        match r {
            Ok(pid) => {
                &&& mux_tracks(*old(m)).len() < MAX_TRACKS
                &&& !mux_tracks(*old(m)).contains(pid)
                &&& mux_tracks(*final(m)) == mux_tracks(*old(m)).push(pid)
            },
            Err(_) => {
                &&& mux_tracks(*old(m)).len() >= MAX_TRACKS
                &&& mux_tracks(*final(m)) == mux_tracks(*old(m))
            },
        },
{
    m.add_stream(stream_type, bytes::BytesMut::new())
}

/// `TsMuxer::get_data`: hands out every buffered byte and leaves the buffer empty.
#[verifier::external_body]
pub(crate) fn mux_get_data(m: &mut TsMuxer) -> (data: Vec<u8>)
    ensures
        data@ == mux_buffered(*old(m)),
        mux_buffered(*final(m)) == Seq::<u8>::empty(),
        mux_tracks(*final(m)) == mux_tracks(*old(m)),
{
    m.get_data().to_vec()
}

/// `TsMuxer::reset`: restarts the table and clock periods; tracks and buffered
/// bytes stay as they are.
#[verifier::external_body]
pub(crate) fn mux_reset(m: &mut TsMuxer)
    ensures
        mux_buffered(*final(m)) == mux_buffered(*old(m)),
        mux_tracks(*final(m)) == mux_tracks(*old(m)),
{
    m.reset()
}

/// `TsMuxer::write`: packetizes one frame on channel `pid`. Whether it
/// succeeds, and what it appends to the buffered bytes, is the named outcome
/// of the multiplexer as it stood and of what it was handed; it only ever
/// appends, and registers no track. The timestamps are bounded because the
/// multiplexer scales them further in 64 bits, the payload because it
/// computes packet lengths in 32 bits.
#[verifier::external_body]
pub(crate) fn mux_write(
    m: &mut TsMuxer,
    pid: u16,
    pts: i64,
    dts: i64,
    flags: u16,
    payload: &Vec<u8>,
) -> (r: Result<(), MpegTsError>)
    requires
        -MAX_TICKS <= pts <= MAX_TICKS,
        -MAX_TICKS <= dts <= MAX_TICKS,
        payload.len() <= MAX_PAYLOAD_LEN,
    ensures
        r.is_ok() == mux_write_outcome(*old(m), pid, pts, dts, flags, payload@).0,
        mux_buffered(*final(m)) == mux_buffered(*old(m)) + mux_write_outcome(
            *old(m),
            pid,
            pts,
            dts,
            flags,
            payload@,
        ).1,
        mux_tracks(*final(m)) == mux_tracks(*old(m)),
{
    m.write(pid, pts, dts, flags, bytes::BytesMut::from(&payload[..]))
}

} // verus!
