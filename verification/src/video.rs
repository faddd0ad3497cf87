//! What passes between a stream and the video decoder of its host.

use vstd::prelude::*;
use crate::codec::{VideoCodec, VideoDeblocking};

verus! {

/// Names a decoder stream that the host has registered.
#[derive(Clone, Copy, Debug, PartialEq, Eq, Structural)]
pub struct VideoStreamHandle {
    pub index: usize,
    pub generation: u64,
}

/// A decoded picture, as the renderer of the host knows it.
#[derive(Clone, Copy, Debug, PartialEq, Eq, Structural)]
pub struct BitmapInfo {
    pub handle: u64,
    pub width: u16,
    pub height: u16,
}

/// One encoded frame, as it is handed to the decoder.
#[derive(Clone, Debug, PartialEq, Eq)]
pub struct EncodedFrame {
    pub codec: VideoCodec,
    pub data: Vec<u8>,
    pub frame_id: u32,
}

/// What a decoder stream is registered with: the number of frames to
/// expect, the width and the height of a frame, the codec, and how to smooth
/// block edges.
#[derive(Clone, Copy, Debug, PartialEq, Eq)]
pub struct VideoStreamRequest {
    pub num_frames: u32,
    pub size: (u16, u16),
    pub codec: VideoCodec,
    pub deblocking: VideoDeblocking,
}

} // verus!
