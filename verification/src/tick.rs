//! One tick of a stream, as an exchange between the stream and its host.
//!
//! The stream cannot read a record or decode a frame itself. It answers each
//! event with the next thing for the host to do, and the host reports what
//! came of it in the next event, until the stream answers that the tick is
//! done. This module holds the events, the actions, and the rules of the
//! exchange over a model of the stream.

use vstd::prelude::*;
use crate::codec::{VideoCodec, VideoDeblocking, video_codec_of};
use crate::flv::{
    FlvError, FlvHeader, FlvScriptData, FlvTagData, FlvVideoData, FlvVideoPacket, ParsedHeader,
    ParsedTag,
};
use crate::metadata::{StreamMetadata, metadata_of, metadata_over};
use crate::number::{truncated, truncated_product};
use crate::video::{BitmapInfo, EncodedFrame, VideoStreamHandle, VideoStreamRequest};

verus! {

/// The current type of the data in the stream buffer.
#[derive(Clone, Copy, Debug, PartialEq, Eq)]
pub enum NetStreamType {
    /// The stream is of the tagged container.
    Flv {
        header: FlvHeader,
        /// The decoder stream of the host, once one is registered.
        stream: Option<VideoStreamHandle>,
        /// The number of video tags consumed so far, which numbers the next
        /// frame.
        frame_id: u32,
    },
}

/// What a stream is waiting for.
#[derive(Clone, Copy, Debug, PartialEq, Eq)]
pub enum TickPhase {
    /// No tick is under way.
    Idle,
    /// The outcome of reading the header.
    Header { end_time: i64 },
    /// The outcome of reading the next tag.
    Tag { end_time: i64 },
    /// The outcome of registering a decoder stream, for a script tag that
    /// ends at `position`.
    Registration { end_time: i64, position: usize },
    /// The outcome of decoding a frame, for a video tag that ends at
    /// `position`.
    Decode { end_time: i64, position: usize },
}

/// What the host reports to a stream.
#[derive(Debug, PartialEq, Eq)]
pub enum TickEvent {
    /// A tick begins: `dt` units of stream time have passed since the last.
    Start { dt: i64 },
    /// The header was read, or could not be.
    Header(Result<ParsedHeader, FlvError>),
    /// The next tag was read, or could not be.
    Tag(Result<ParsedTag, FlvError>),
    /// The decoder registered a stream and named it, or refused.
    Registered(Option<VideoStreamHandle>),
    /// The decoder decoded the frame to a picture, or failed.
    Decoded(Option<BitmapInfo>),
}

/// What a stream asks of its host.
#[derive(Clone, Debug, PartialEq, Eq)]
pub enum TickAction {
    /// Nothing: the tick is over.
    Done,
    /// Read the header from the buffer at `offset`, and report it.
    ParseHeader { offset: usize },
    /// Read the next tag from the buffer at `offset`, and report it.
    ParseTag { offset: usize },
    /// Register a decoder stream, and report its handle.
    RegisterVideoStream { request: VideoStreamRequest },
    /// Where `preload` is set, first hand the frame to the decoder's preload
    /// path. Then decode it, and report the picture.
    DecodeVideoFrame { stream: VideoStreamHandle, frame: EncodedFrame, preload: bool },
}

/// The model of a stream.
pub struct StreamModel {
    pub id: u64,
    pub buffer: Seq<u8>,
    pub offset: usize,
    pub preload_offset: usize,
    pub stream_type: Option<NetStreamType>,
    pub stream_time: i64,
    pub last_decoded_bitmap: Option<BitmapInfo>,
    pub phase: TickPhase,
}

/// A stream after an event, and its answer.
pub struct TickStep {
    pub state: StreamModel,
    pub action: TickAction,
}

/// Whether a buffer opens with the signature of the tagged container.
pub open spec fn has_signature(buffer: Seq<u8>) -> bool {
    buffer.len() >= 3 && buffer[0] == 0x46 && buffer[1] == 0x4C && buffer[2] == 0x56
}

/// The stream time before which a tick consumes tags: the time so far and
/// the time passed, held to the range of 64 bits.
pub open spec fn end_time_of(stream_time: i64, dt: i64) -> i64 {
    if stream_time + dt > i64::MAX {
        i64::MAX
    } else if stream_time + dt < i64::MIN {
        i64::MIN
    } else {
        (stream_time + dt) as i64
    }
}

/// What a decoder stream is registered with, for a complete description
/// whose codec identifier selects `codec`: the truncated product of frame
/// rate and duration as the number of frames, and the truncated width and
/// height.
pub open spec fn request_for(metadata: StreamMetadata, codec: VideoCodec) -> VideoStreamRequest {
    VideoStreamRequest {
        num_frames: truncated_product(
            metadata.frame_rate->0.bits,
            metadata.duration->0.bits,
            0xffff_ffff,
        ) as u32,
        size: (
            truncated(metadata.width->0.bits, 65535) as u16,
            truncated(metadata.height->0.bits, 65535) as u16,
        ),
        codec,
        deblocking: VideoDeblocking::UseVideoPacketValue,
    }
}

/// The codec that a complete description asks for, if its identifier selects
/// one.
pub open spec fn codec_for(metadata: StreamMetadata) -> Option<VideoCodec> {
    video_codec_of(truncated(metadata.video_codec_id->0.bits, 255) as u8)
}

impl StreamModel {
    /// A stream that has received nothing yet.
    pub open spec fn fresh(id: u64) -> StreamModel {
        StreamModel {
            id,
            buffer: Seq::empty(),
            offset: 0,
            preload_offset: 0,
            stream_type: None,
            stream_time: 0,
            last_decoded_bitmap: None,
            phase: TickPhase::Idle,
        }
    }

    /// The stream with more bytes at the end of its buffer.
    pub open spec fn load(self, bytes: Seq<u8>) -> StreamModel {
        StreamModel { buffer: self.buffer + bytes, ..self }
    }

    /// The decoder stream that is registered for this stream, if any.
    pub open spec fn video_stream(self) -> Option<VideoStreamHandle> {
        match self.stream_type {
            Some(NetStreamType::Flv { stream, .. }) => stream,
            None => None,
        }
    }

    /// The number of video tags consumed so far.
    pub open spec fn frame_id(self) -> u32 {
        match self.stream_type {
            Some(NetStreamType::Flv { frame_id, .. }) => frame_id,
            None => 0,
        }
    }

    /// Whether sniffing was tried and failed for good.
    pub open spec fn sniff_failed(self) -> bool {
        self.stream_type is None && self.preload_offset > 0
    }

    /// What holds of every stream that was made fresh and then only loaded
    /// and ticked: the cursor is not beyond the high-water mark, the header
    /// is awaited only before anything was sniffed, and a tag, a registration
    /// or a picture only after the container was, a registration only while
    /// no decoder stream is registered.
    pub open spec fn well_formed(self) -> bool {
        &&& self.offset <= self.preload_offset
        &&& match self.phase {
            TickPhase::Idle => true,
            TickPhase::Header { .. } => self.stream_type is None && self.preload_offset == 0,
            TickPhase::Tag { .. } => self.stream_type is Some,
            TickPhase::Registration { .. } => self.stream_type is Some && self.video_stream()
                is None,
            TickPhase::Decode { .. } => self.stream_type is Some,
        }
    }

    /// The stream with no tick under way, and the answer that ends a tick.
    pub open spec fn end_tick(self) -> TickStep {
        TickStep { state: StreamModel { phase: TickPhase::Idle, ..self }, action: TickAction::Done }
    }

    /// The stream with the cursor behind a consumed tag that ends at
    /// `position`, the high-water mark raised to it where it was lower, and
    /// the answer that asks for the next tag.
    pub open spec fn advance(self, end_time: i64, position: usize) -> TickStep {
        TickStep {
            state: StreamModel {
                offset: position,
                preload_offset: if self.preload_offset >= position {
                    self.preload_offset
                } else {
                    position
                },
                phase: TickPhase::Tag { end_time },
                ..self
            },
            action: TickAction::ParseTag { offset: position },
        }
    }

    /// The stream with one more video tag counted.
    pub open spec fn count_frame(self) -> StreamModel {
        match self.stream_type {
            Some(NetStreamType::Flv { header, stream, frame_id }) => StreamModel {
                stream_type: Some(
                    NetStreamType::Flv { header, stream, frame_id: (frame_id + 1) as u32 },
                ),
                ..self
            },
            None => self,
        }
    }

    /// The stream with a decoder stream registered.
    pub open spec fn with_video_stream(self, handle: VideoStreamHandle) -> StreamModel {
        match self.stream_type {
            Some(NetStreamType::Flv { header, stream, frame_id }) => StreamModel {
                stream_type: Some(NetStreamType::Flv { header, stream: Some(handle), frame_id }),
                ..self
            },
            None => self,
        }
    }

    /// The beginning of a tick. A stream whose container is known asks for
    /// the next tag. One whose sniffing failed does nothing. Otherwise the
    /// buffer is sniffed: with fewer than three bytes nothing happens, with
    /// the signature the header is asked for, and with other bytes the
    /// high-water mark is set to 3, which marks the failure.
    pub open spec fn start(self, dt: i64) -> TickStep {
        let end_time = end_time_of(self.stream_time, dt);
        if self.stream_type is Some {
            TickStep {
                state: StreamModel { phase: TickPhase::Tag { end_time }, ..self },
                action: TickAction::ParseTag { offset: self.offset },
            }
        } else if self.preload_offset > 0 || self.buffer.len() < 3 {
            self.end_tick()
        } else if has_signature(self.buffer) {
            TickStep {
                state: StreamModel { phase: TickPhase::Header { end_time }, ..self },
                action: TickAction::ParseHeader { offset: self.offset },
            }
        } else {
            StreamModel { preload_offset: 3, ..self }.end_tick()
        }
    }

    /// The header was read or not. Read, it sets the container, with no
    /// decoder stream and no frame counted, and both cursors behind it, and
    /// the first tag is asked for. Cut short by the end of the buffer, it
    /// changes nothing. Malformed, it marks the failure.
    pub open spec fn on_header(self, end_time: i64, outcome: Result<ParsedHeader, FlvError>) -> TickStep {
        match outcome {
            Ok(parsed) => TickStep {
                state: StreamModel {
                    offset: parsed.position,
                    preload_offset: parsed.position,
                    stream_type: Some(
                        NetStreamType::Flv { header: parsed.header, stream: None, frame_id: 0 },
                    ),
                    phase: TickPhase::Tag { end_time },
                    ..self
                },
                action: TickAction::ParseTag { offset: parsed.position },
            },
            Err(FlvError::EndOfData) => self.end_tick(),
            Err(FlvError::Malformed) => StreamModel { preload_offset: 3, ..self }.end_tick(),
        }
    }

    /// A video tag that ends at `position`. With a decoder stream, a known
    /// codec and an encoded frame, the frame is to be decoded under the
    /// number of the video tags before it, and preloaded first where the tag
    /// was never read before. Any other video tag is counted and consumed.
    pub open spec fn on_video(self, end_time: i64, position: usize, video: FlvVideoData) -> TickStep {
        match (self.video_stream(), video_codec_of(video.codec_id), video.data) {
            (Some(stream), Some(codec), FlvVideoPacket::Data(data)) => TickStep {
                state: StreamModel { phase: TickPhase::Decode { end_time, position }, ..self },
                action: TickAction::DecodeVideoFrame {
                    stream,
                    frame: EncodedFrame { codec, data, frame_id: self.frame_id() },
                    preload: position >= self.preload_offset,
                },
            },
            _ => self.count_frame().advance(end_time, position),
        }
    }

    /// The description that a script tag gives to this stream: none once a
    /// decoder stream is registered.
    pub open spec fn metadata_from(self, script: FlvScriptData) -> StreamMetadata {
        if self.video_stream() is Some {
            metadata_over(Seq::empty())
        } else {
            metadata_of(script.0@)
        }
    }

    /// A script tag that ends at `position`. Where the tag was never read
    /// before, gives all five numbers to a stream without a decoder stream,
    /// and names a known codec, a decoder stream is to be registered. Any
    /// other script tag is consumed.
    pub open spec fn on_script(self, end_time: i64, position: usize, script: FlvScriptData) -> TickStep {
        let metadata = self.metadata_from(script);
        if position >= self.preload_offset && metadata.is_complete() && codec_for(metadata)
            is Some {
            TickStep {
                state: StreamModel {
                    phase: TickPhase::Registration { end_time, position },
                    ..self
                },
                action: TickAction::RegisterVideoStream {
                    request: request_for(metadata, codec_for(metadata)->0),
                },
            }
        } else {
            self.advance(end_time, position)
        }
    }

    /// The next tag was read or not. Not read, the tick ends. One stamped at
    /// or after the end of the tick's time is left for a later tick, and the
    /// tick ends. Any other is handled by its kind.
    pub open spec fn on_tag(self, end_time: i64, outcome: Result<ParsedTag, FlvError>) -> TickStep {
        match outcome {
            Ok(parsed) => if parsed.tag.timestamp >= end_time || self.stream_type is None {
                self.end_tick()
            } else {
                match parsed.tag.data {
                    FlvTagData::Audio => self.advance(end_time, parsed.position),
                    FlvTagData::Video(video) => self.on_video(end_time, parsed.position, video),
                    FlvTagData::Script(script) => self.on_script(end_time, parsed.position, script),
                    FlvTagData::Invalid => self.advance(end_time, parsed.position),
                }
            },
            Err(_) => self.end_tick(),
        }
    }

    /// The decoder answered a registration: its handle is kept, if it gave
    /// one, and the script tag is consumed.
    pub open spec fn on_registered(
        self,
        end_time: i64,
        position: usize,
        handle: Option<VideoStreamHandle>,
    ) -> TickStep {
        match handle {
            Some(handle) => self.with_video_stream(handle).advance(end_time, position),
            None => self.advance(end_time, position),
        }
    }

    /// The decoder answered a frame: its picture is kept, if it gave one, and
    /// the video tag is counted and consumed.
    pub open spec fn on_decoded(self, end_time: i64, position: usize, picture: Option<BitmapInfo>) -> TickStep {
        let kept = match picture {
            Some(_) => StreamModel { last_decoded_bitmap: picture, ..self },
            None => self,
        };
        kept.count_frame().advance(end_time, position)
    }

    /// The stream after an event, and its answer. An event that the stream
    /// is not waiting for ends the tick and changes nothing else.
    pub open spec fn tick(self, event: TickEvent) -> TickStep {
        match (self.phase, event) {
            (TickPhase::Idle, TickEvent::Start { dt }) => self.start(dt),
            (TickPhase::Header { end_time }, TickEvent::Header(outcome)) => self.on_header(
                end_time,
                outcome,
            ),
            (TickPhase::Tag { end_time }, TickEvent::Tag(outcome)) => self.on_tag(
                end_time,
                outcome,
            ),
            (
                TickPhase::Registration { end_time, position },
                TickEvent::Registered(handle),
            ) => self.on_registered(end_time, position, handle),
            (TickPhase::Decode { end_time, position }, TickEvent::Decoded(picture)) => self.on_decoded(
                end_time,
                position,
                picture,
            ),
            _ => self.end_tick(),
        }
    }
}

} // verus!
