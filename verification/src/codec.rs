//! Video codecs and the numeric identifiers that select them.

use vstd::prelude::*;

verus! {

/// A video codec that a decoder can be asked for.
#[derive(Clone, Copy, Debug, PartialEq, Eq, Structural)]
pub enum VideoCodec {
    NoVideo,
    H263,
    ScreenVideo,
    Vp6,
    Vp6WithAlpha,
    ScreenVideoV2,
    H264,
}

/// How strongly a decoder smooths block edges.
#[derive(Clone, Copy, Debug, PartialEq, Eq, Structural)]
pub enum VideoDeblocking {
    UseVideoPacketValue,
    Off,
    Level1,
    Level2,
    Level3,
    Level4,
}

/// The codec that a numeric identifier selects, if any.
pub open spec fn video_codec_of(n: u8) -> Option<VideoCodec> {
    if n == 0 {
        Some(VideoCodec::NoVideo)
    } else if n == 2 {
        Some(VideoCodec::H263)
    } else if n == 3 {
        Some(VideoCodec::ScreenVideo)
    } else if n == 4 {
        Some(VideoCodec::Vp6)
    } else if n == 5 {
        Some(VideoCodec::Vp6WithAlpha)
    } else if n == 6 {
        Some(VideoCodec::ScreenVideoV2)
    } else if n == 7 {
        Some(VideoCodec::H264)
    } else {
        None
    }
}

/// Calls `swf::VideoCodec::from_u8`. Trusted: each variant of the outside
/// enum is selected by its discriminant (0, 2, 3, 4, 5, 6, 7) and every other
/// number selects none.
#[verifier::external_body]
pub(crate) fn codec_from_u8(n: u8) -> (codec: Option<VideoCodec>)
    ensures
        codec == video_codec_of(n),
{
    match swf::VideoCodec::from_u8(n) {
        Some(swf::VideoCodec::None) => Some(VideoCodec::NoVideo),
        Some(swf::VideoCodec::H263) => Some(VideoCodec::H263),
        Some(swf::VideoCodec::ScreenVideo) => Some(VideoCodec::ScreenVideo),
        Some(swf::VideoCodec::Vp6) => Some(VideoCodec::Vp6),
        Some(swf::VideoCodec::Vp6WithAlpha) => Some(VideoCodec::Vp6WithAlpha),
        Some(swf::VideoCodec::ScreenVideoV2) => Some(VideoCodec::ScreenVideoV2),
        Some(swf::VideoCodec::H264) => Some(VideoCodec::H264),
        None => None,
    }
}

} // verus!
