//! Live segmentation of a tagged audio/video stream into fixed-duration
//! transport-stream segments, together with the sliding-window limiter that
//! bounds publish attempts per stream key.

pub mod admission;
pub mod errors;
pub mod flv2hls;
pub mod frame;
pub mod laws;
pub mod muxer;
pub mod remuxer;
pub mod ts;
pub mod utils;
pub mod window;
