//! Failures that end the processing of one stream.

use vstd::prelude::*;
use xmpegts::errors::MpegTsError;

verus! {

/// `xmpegts::errors::MpegTsError`: the multiplexer's own error, carried through unread.
#[verifier::external_type_specification]
#[verifier::external_body]
pub struct ExMpegTsError(xmpegts::errors::MpegTsError);

#[derive(Debug)]
pub enum MediaError {
    /// A tag could not be demultiplexed.
    FlvDemuxerError,
    /// The multiplexer refused a frame.
    MpegTsError(MpegTsError),
}

impl MediaError {
    pub open spec fn is_demux(&self) -> bool {
        self is FlvDemuxerError
    }

    pub open spec fn is_mux(&self) -> bool {
        self is MpegTsError
    }

    /// A short description of the failure.
    pub fn describe(&self) -> (s: &'static str)
        ensures
            s@ == (if self.is_demux() {
                "flv demuxer error"@
            } else {
                "mpegts error"@
            }),
    {
        match self {
            MediaError::FlvDemuxerError => "flv demuxer error",
            MediaError::MpegTsError(_) => "mpegts error",
        }
    }
}

} // verus!
