//! Demultiplexed frames and the segmentation settings they are judged by.

use vstd::prelude::*;

verus! {

/// Largest decode timestamp of the ingest clock, which counts milliseconds in 32 bits.
pub const MAX_DTS: i64 = 0xFFFF_FFFF;

/// Smallest presentation timestamp: a decode timestamp of zero with the most
/// negative composition offset.
pub const MIN_PTS: i64 = -0x8000_0000;

/// Largest presentation timestamp: the largest decode timestamp with the
/// largest composition offset.
pub const MAX_PTS: i64 = 0x1_7FFF_FFFF;

/// Largest payload of one frame, in bytes: the multiplexer computes packet
/// lengths in 32 bits, and this leaves it room for its headers.
pub const MAX_PAYLOAD_LEN: usize = 0x4000_0000;

/// Frame type that marks a video frame as decodable on its own.
pub const KEY_FRAME: u8 = 1;

/// Target segment duration, in seconds, where none is configured.
pub const DEFAULT_FRAGMENT_SECONDS: u32 = 5;

/// Factor by which the audio threshold exceeds the target duration where none is configured.
pub const DEFAULT_AOF_RATIO: u32 = 5;

/// A gap between flush points beyond this many milliseconds marks a discontinuity.
pub const DISCONTINUITY_GAP_MS: i64 = 15000;

#[derive(Clone, Copy, Debug, PartialEq, Eq, Structural)]
pub enum FrameKind {
    Audio,
    Video,
}

/// One demultiplexed unit of a stream.
#[derive(Debug)]
pub struct Frame {
    pub kind: FrameKind,
    pub pts: i64,
    pub dts: i64,
    /// The tag's frame type; read for video frames only.
    pub frame_type: u8,
    /// False for an audio tag that carried configuration only; read for audio frames only.
    pub has_data: bool,
    pub payload: Vec<u8>,
}

impl Frame {
    /// The timestamps lie on the ingest clock, and the payload is of a
    /// length that the multiplexer can packetize.
    pub open spec fn valid(&self) -> bool {
        &&& 0 <= self.dts <= MAX_DTS
        &&& MIN_PTS <= self.pts <= MAX_PTS
        &&& self.payload.len() <= MAX_PAYLOAD_LEN
    }

    pub open spec fn is_keyframe(&self) -> bool {
        self.kind == FrameKind::Video && self.frame_type == KEY_FRAME
    }

    /// An audio frame without data changes nothing and is written nowhere.
    pub open spec fn is_dropped(&self) -> bool {
        self.kind == FrameKind::Audio && !self.has_data
    }

    pub fn is_valid(&self) -> (r: bool)
        ensures
            r == self.valid(),
    {
        0 <= self.dts && self.dts <= MAX_DTS && MIN_PTS <= self.pts && self.pts <= MAX_PTS
            && self.payload.len() <= MAX_PAYLOAD_LEN
    }
}

/// Optional segmentation settings as an operator writes them.
#[derive(Clone, Copy, Debug)]
pub struct HlsConfig {
    /// Target segment duration in seconds.
    pub fragment: Option<u32>,
    /// Multiplier of the target duration after which audio alone closes a segment.
    pub aof_ratio: Option<u32>,
}

/// Segmentation settings with the defaults filled in.
#[derive(Clone, Copy, Debug, PartialEq, Eq, Structural)]
pub struct SegmentTiming {
    pub target_duration_seconds: u32,
    pub audio_only_fragment_ratio: u32,
}

impl SegmentTiming {
    /// Milliseconds past the last flush at which a video keyframe closes the segment.
    pub open spec fn video_threshold(&self) -> int {
        self.target_duration_seconds * 1000
    }

    /// Milliseconds past the last flush at which an audio frame closes the segment.
    pub open spec fn audio_threshold(&self) -> int {
        self.target_duration_seconds * 1000 * self.audio_only_fragment_ratio
    }

    pub open spec fn resolved(config: Option<HlsConfig>) -> SegmentTiming {
        SegmentTiming {
            target_duration_seconds: match config {
                Some(HlsConfig { fragment: Some(d), .. }) => d,
                _ => DEFAULT_FRAGMENT_SECONDS,
            },
            audio_only_fragment_ratio: match config {
                Some(HlsConfig { aof_ratio: Some(r), .. }) => r,
                _ => DEFAULT_AOF_RATIO,
            },
        }
    }

    /// Fills each missing setting with its default.
    pub fn resolve(config: &Option<HlsConfig>) -> (r: SegmentTiming)
        ensures
            r == Self::resolved(*config),
    {
        let mut target: u32 = DEFAULT_FRAGMENT_SECONDS;
        let mut ratio: u32 = DEFAULT_AOF_RATIO;
        if let Some(c) = config {
            if let Some(d) = c.fragment {
                target = d;
            }
            if let Some(r) = c.aof_ratio {
                ratio = r;
            }
        }
        SegmentTiming { target_duration_seconds: target, audio_only_fragment_ratio: ratio }
    }
}

} // verus!
