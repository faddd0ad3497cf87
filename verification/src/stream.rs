//! A stream: the bytes loaded so far, the two cursors into them, and what
//! was made of them.

use vstd::prelude::*;
use crate::codec::{VideoDeblocking, codec_from_u8};
use crate::flv::{
    FlvError, FlvScriptData, FlvTagData, FlvVideoData, FlvVideoPacket, ParsedHeader, ParsedTag,
};
use crate::manager::{StreamManager, with_paused, with_playing, with_toggled};
use crate::metadata::StreamMetadata;
use crate::tick::{NetStreamType, StreamModel, TickAction, TickEvent, TickPhase, end_time_of, has_signature};
use crate::video::{BitmapInfo, EncodedFrame, VideoStreamHandle, VideoStreamRequest};

verus! {

/// What a stream holds.
#[derive(Debug)]
pub struct NetStreamData {
    /// All data currently loaded in the stream.
    buffer: Vec<u8>,
    /// The position in the buffer of the next tag to play.
    offset: usize,
    /// The position of the first byte that was never read before. It is
    /// never less than `offset`, and it never falls. Without a container, a
    /// position above zero marks that sniffing failed for good.
    preload_offset: usize,
    /// The container of the stream, once it is known.
    stream_type: Option<NetStreamType>,
    /// The stream time that was played so far.
    stream_time: i64,
    /// The last decoded picture.
    last_decoded_bitmap: Option<BitmapInfo>,
}

/// A stream of audiovisual data that arrives piece by piece.
///
/// A loader fills its buffer, a `StreamManager` knows whether it plays, and
/// the host ticks it while it does.
#[derive(Debug)]
pub struct NetStream {
    id: u64,
    data: NetStreamData,
    phase: TickPhase,
}

impl View for NetStream {
    type V = StreamModel;

    closed spec fn view(&self) -> StreamModel {
        StreamModel {
            id: self.id,
            buffer: self.data.buffer@,
            offset: self.data.offset,
            preload_offset: self.data.preload_offset,
            stream_type: self.data.stream_type,
            stream_time: self.data.stream_time,
            last_decoded_bitmap: self.data.last_decoded_bitmap,
            phase: self.phase,
        }
    }
}

impl NetStream {
    #[verifier::type_invariant]
    spec fn kept_well_formed(&self) -> bool {
        self@.well_formed()
    }

    /// A stream with an empty buffer, known to a manager by `id`.
    pub fn new(id: u64) -> (stream: NetStream)
        ensures
            stream@ == StreamModel::fresh(id),
            stream@.well_formed(),
    {
        NetStream {
            id,
            data: NetStreamData {
                buffer: Vec::new(),
                offset: 0,
                preload_offset: 0,
                stream_type: None,
                stream_time: 0,
                last_decoded_bitmap: None,
            },
            phase: TickPhase::Idle,
        }
    }

    /// The identity of the stream.
    pub fn id(&self) -> (id: u64)
        ensures
            id == self@.id,
    {
        self.id
    }

    /// Moves the bytes of `data` to the end of the buffer.
    pub fn load_buffer(&mut self, data: &mut Vec<u8>)
        ensures
            final(self)@ == old(self)@.load(old(data)@),
            final(self)@.well_formed(),
            final(data)@ == Seq::<u8>::empty(),
    {
        proof {
            use_type_invariant(&*self);
        }
        let mut buffer: Vec<u8> = Vec::new();
        core::mem::swap(&mut self.data.buffer, &mut buffer);
        buffer.append(data);
        core::mem::swap(&mut self.data.buffer, &mut buffer);
        assert(self@.buffer == old(self)@.buffer + old(data)@);
    }

    /// Takes note of an error of the loader. Nothing is done with it yet.
    pub fn report_error(&self, _error: String) {
    }

    /// The number of bytes loaded so far.
    pub fn bytes_loaded(&self) -> (n: usize)
        ensures
            n == self@.buffer.len(),
    {
        self.data.buffer.len()
    }

    /// The number of bytes of the whole stream, as far as it is known: those
    /// loaded so far.
    pub fn bytes_total(&self) -> (n: usize)
        ensures
            n == self@.buffer.len(),
    {
        self.data.buffer.len()
    }

    /// The bytes loaded so far.
    pub fn buffer(&self) -> (buffer: &Vec<u8>)
        ensures
            buffer@ == self@.buffer,
    {
        &self.data.buffer
    }

    /// The position in the buffer of the next tag to play.
    pub fn offset(&self) -> (offset: usize)
        ensures
            offset == self@.offset,
    {
        self.data.offset
    }

    /// The position of the first byte that was never read before.
    pub fn preload_offset(&self) -> (offset: usize)
        ensures
            offset == self@.preload_offset,
    {
        self.data.preload_offset
    }

    /// The container of the stream, once it is known.
    pub fn stream_type(&self) -> (stream_type: Option<NetStreamType>)
        ensures
            stream_type == self@.stream_type,
    {
        self.data.stream_type
    }

    /// The stream time that was played so far.
    pub fn stream_time(&self) -> (time: i64)
        ensures
            time == self@.stream_time,
    {
        self.data.stream_time
    }

    /// The number of video tags consumed so far.
    pub fn frame_id(&self) -> (frame_id: u32)
        ensures
            frame_id == self@.frame_id(),
    {
        match self.data.stream_type {
            Some(NetStreamType::Flv { frame_id, .. }) => frame_id,
            None => 0,
        }
    }

    /// What the stream is waiting for.
    pub fn phase(&self) -> (phase: TickPhase)
        ensures
            phase == self@.phase,
    {
        self.phase
    }

    /// The last decoded picture.
    pub fn last_decoded_bitmap(&self) -> (picture: Option<BitmapInfo>)
        ensures
            picture == self@.last_decoded_bitmap,
    {
        self.data.last_decoded_bitmap
    }

    /// Starts playing the stream. The answer is the name of the resource
    /// that the host has to ask its loader for, if one was given; the stream
    /// plays whether or not one was.
    pub fn play(&self, manager: &mut StreamManager, name: Option<String>) -> (request: Option<String>)
        ensures
            request == name,
            final(manager).order() == with_playing(old(manager).order(), self@.id),
            final(manager)@ == old(manager)@.insert(self@.id),
    {
        manager.ensure_playing(self);
        name
    }

    /// Pauses the stream.
    pub fn pause(&self, manager: &mut StreamManager)
        ensures
            final(manager).order() == with_paused(old(manager).order(), self@.id),
            final(manager)@ == old(manager)@.remove(self@.id),
    {
        manager.ensure_paused(self);
    }

    /// Resumes the stream.
    pub fn resume(&self, manager: &mut StreamManager)
        ensures
            final(manager).order() == with_playing(old(manager).order(), self@.id),
            final(manager)@ == old(manager)@.insert(self@.id),
    {
        manager.ensure_playing(self);
    }

    /// Resumes the stream if it is paused, and pauses it otherwise.
    pub fn toggle_paused(&self, manager: &mut StreamManager)
        ensures
            final(manager).order() == with_toggled(old(manager).order(), self@.id),
            final(manager)@ == if old(manager)@.contains(self@.id) {
                old(manager)@.remove(self@.id)
            } else {
                old(manager)@.insert(self@.id)
            },
    {
        manager.toggle_paused(self);
    }

    /// The time before which a tick that begins now consumes tags.
    fn end_time(&self, dt: i64) -> (end_time: i64)
        ensures
            end_time == end_time_of(self@.stream_time, dt),
    {
        let sum: i128 = self.data.stream_time as i128 + dt as i128;
        if sum > i64::MAX as i128 {
            i64::MAX
        } else if sum < i64::MIN as i128 {
            i64::MIN
        } else {
            sum as i64
        }
    }

    /// Whether the buffer opens with the signature of the tagged container.
    fn sniff_signature(&self) -> (found: bool)
        ensures
            found == has_signature(self@.buffer),
    {
        let buffer = &self.data.buffer;
        buffer.len() >= 3 && buffer[0] == 0x46 && buffer[1] == 0x4C && buffer[2] == 0x56
    }

    /// Ends the tick.
    fn end_tick(&mut self) -> (action: TickAction)
        ensures
            final(self)@ == old(self)@.end_tick().state,
            action == old(self)@.end_tick().action,
    {
        proof {
            use_type_invariant(&*self);
        }
        self.phase = TickPhase::Idle;
        TickAction::Done
    }

    /// Consumes the tag that ends at `position` and asks for the next.
    fn advance(&mut self, end_time: i64, position: usize) -> (action: TickAction)
        requires
            old(self)@.stream_type is Some,
        ensures
            final(self)@ == old(self)@.advance(end_time, position).state,
            action == old(self)@.advance(end_time, position).action,
    {
        proof {
            use_type_invariant(&*self);
        }
        self.phase = TickPhase::Tag { end_time };
        if self.data.preload_offset < position {
            self.data.preload_offset = position;
        }
        self.data.offset = position;
        TickAction::ParseTag { offset: position }
    }

    /// Counts one more video tag.
    fn count_frame(&mut self)
        requires
            old(self)@.frame_id() < u32::MAX,
        ensures
            final(self)@ == old(self)@.count_frame(),
    {
        proof {
            use_type_invariant(&*self);
        }
        match self.data.stream_type {
            Some(NetStreamType::Flv { header, stream, frame_id }) => {
                self.data.stream_type = Some(
                    NetStreamType::Flv { header, stream, frame_id: frame_id + 1 },
                );
            },
            None => {},
        }
    }

    /// Begins a tick: sniffs the container if it is not known, and asks for
    /// the next tag if it is.
    fn start(&mut self, dt: i64) -> (action: TickAction)
        requires
            old(self)@.phase == TickPhase::Idle,
        ensures
            final(self)@ == old(self)@.start(dt).state,
            action == old(self)@.start(dt).action,
    {
        proof {
            use_type_invariant(&*self);
        }
        let end_time = self.end_time(dt);
        if self.data.stream_type.is_some() {
            self.phase = TickPhase::Tag { end_time };
            TickAction::ParseTag { offset: self.data.offset }
        } else if self.data.preload_offset > 0 || self.data.buffer.len() < 3 {
            self.end_tick()
        } else if self.sniff_signature() {
            self.phase = TickPhase::Header { end_time };
            TickAction::ParseHeader { offset: self.data.offset }
        } else {
            self.data.preload_offset = 3;
            self.end_tick()
        }
    }

    /// Takes the outcome of reading the header.
    fn on_header(&mut self, end_time: i64, outcome: Result<ParsedHeader, FlvError>) -> (action:
        TickAction)
        requires
            old(self)@.phase == (TickPhase::Header { end_time }),
        ensures
            final(self)@ == old(self)@.on_header(end_time, outcome).state,
            action == old(self)@.on_header(end_time, outcome).action,
    {
        proof {
            use_type_invariant(&*self);
        }
        match outcome {
            Ok(parsed) => {
                // The cursors may move only once the header is no longer awaited.
                self.phase = TickPhase::Idle;
                self.data.preload_offset = parsed.position;
                self.data.offset = parsed.position;
                self.data.stream_type = Some(
                    NetStreamType::Flv { header: parsed.header, stream: None, frame_id: 0 },
                );
                self.phase = TickPhase::Tag { end_time };
                TickAction::ParseTag { offset: parsed.position }
            },
            Err(FlvError::EndOfData) => self.end_tick(),
            Err(FlvError::Malformed) => {
                self.phase = TickPhase::Idle;
                self.data.preload_offset = 3;
                TickAction::Done
            },
        }
    }

    /// Takes a video tag that ends at `position`.
    fn on_video(&mut self, end_time: i64, position: usize, video: FlvVideoData) -> (action:
        TickAction)
        requires
            old(self)@.frame_id() < u32::MAX,
            old(self)@.stream_type is Some,
        ensures
            final(self)@ == old(self)@.on_video(end_time, position, video).state,
            action == old(self)@.on_video(end_time, position, video).action,
    {
        proof {
            use_type_invariant(&*self);
        }
        let video_stream = match self.data.stream_type {
            Some(NetStreamType::Flv { stream, .. }) => stream,
            None => None,
        };
        let codec = codec_from_u8(video.codec_id);
        match (video_stream, codec, video.data) {
            (Some(stream), Some(codec), FlvVideoPacket::Data(data)) => {
                let frame = EncodedFrame { codec, data, frame_id: self.frame_id() };
                let preload = position >= self.data.preload_offset;
                self.phase = TickPhase::Decode { end_time, position };
                TickAction::DecodeVideoFrame { stream, frame, preload }
            },
            _ => {
                self.count_frame();
                self.advance(end_time, position)
            },
        }
    }

    /// Takes a script tag that ends at `position`.
    fn on_script(&mut self, end_time: i64, position: usize, script: FlvScriptData) -> (action:
        TickAction)
        requires
            old(self)@.stream_type is Some,
        ensures
            final(self)@ == old(self)@.on_script(end_time, position, script).state,
            action == old(self)@.on_script(end_time, position, script).action,
    {
        proof {
            use_type_invariant(&*self);
        }
        let has_stream_already = match self.data.stream_type {
            Some(NetStreamType::Flv { stream, .. }) => stream.is_some(),
            None => false,
        };
        let metadata = if has_stream_already {
            StreamMetadata::empty()
        } else {
            StreamMetadata::read(&script.0)
        };
        if position >= self.data.preload_offset {
            match (
                metadata.width,
                metadata.height,
                metadata.video_codec_id,
                metadata.frame_rate,
                metadata.duration,
            ) {
                (Some(width), Some(height), Some(video_codec_id), Some(frame_rate), Some(duration)) => {
                    match codec_from_u8(video_codec_id.to_u8()) {
                        Some(codec) => {
                            let request = VideoStreamRequest {
                                num_frames: frame_rate.times_to_u32(&duration),
                                size: (width.to_u16(), height.to_u16()),
                                codec,
                                deblocking: VideoDeblocking::UseVideoPacketValue,
                            };
                            self.phase = TickPhase::Registration { end_time, position };
                            return TickAction::RegisterVideoStream { request };
                        },
                        None => {},
                    }
                },
                _ => {},
            }
        }
        self.advance(end_time, position)
    }

    /// Takes the outcome of reading the next tag.
    fn on_tag(&mut self, end_time: i64, outcome: Result<ParsedTag, FlvError>) -> (action:
        TickAction)
        requires
            old(self)@.frame_id() < u32::MAX,
        ensures
            final(self)@ == old(self)@.on_tag(end_time, outcome).state,
            action == old(self)@.on_tag(end_time, outcome).action,
    {
        proof {
            use_type_invariant(&*self);
        }
        match outcome {
            Ok(parsed) => {
                if parsed.tag.timestamp as i64 >= end_time || self.data.stream_type.is_none() {
                    self.end_tick()
                } else {
                    match parsed.tag.data {
                        FlvTagData::Audio => self.advance(end_time, parsed.position),
                        FlvTagData::Video(video) => self.on_video(end_time, parsed.position, video),
                        FlvTagData::Script(script) => self.on_script(
                            end_time,
                            parsed.position,
                            script,
                        ),
                        FlvTagData::Invalid => self.advance(end_time, parsed.position),
                    }
                }
            },
            Err(_) => self.end_tick(),
        }
    }

    /// Takes the decoder's answer to a registration.
    fn on_registered(&mut self, end_time: i64, position: usize, handle: Option<VideoStreamHandle>) -> (action:
        TickAction)
        requires
            old(self)@.stream_type is Some,
        ensures
            final(self)@ == old(self)@.on_registered(end_time, position, handle).state,
            action == old(self)@.on_registered(end_time, position, handle).action,
    {
        proof {
            use_type_invariant(&*self);
        }
        // The registration is no longer awaited once its answer is kept.
        self.phase = TickPhase::Tag { end_time };
        match (handle, self.data.stream_type) {
            (Some(handle), Some(NetStreamType::Flv { header, frame_id, .. })) => {
                self.data.stream_type = Some(
                    NetStreamType::Flv { header, stream: Some(handle), frame_id },
                );
            },
            _ => {},
        }
        self.advance(end_time, position)
    }

    /// Takes the decoder's answer to a frame.
    fn on_decoded(&mut self, end_time: i64, position: usize, picture: Option<BitmapInfo>) -> (action:
        TickAction)
        requires
            old(self)@.frame_id() < u32::MAX,
            old(self)@.stream_type is Some,
        ensures
            final(self)@ == old(self)@.on_decoded(end_time, position, picture).state,
            action == old(self)@.on_decoded(end_time, position, picture).action,
    {
        proof {
            use_type_invariant(&*self);
        }
        if picture.is_some() {
            self.data.last_decoded_bitmap = picture;
        }
        self.count_frame();
        self.advance(end_time, position)
    }

    /// Takes one event of a tick and answers with what the host has to do
    /// next. The host begins a tick with `TickEvent::Start`, carries out each
    /// answer and reports its outcome in the next event, until the answer is
    /// `TickAction::Done`.
    ///
    /// The frame counter must not have reached the end of its range.
    pub fn tick(&mut self, event: TickEvent) -> (action: TickAction)
        requires
            old(self)@.frame_id() < u32::MAX,
        ensures
            final(self)@ == old(self)@.tick(event).state,
            action == old(self)@.tick(event).action,
            final(self)@.well_formed(),
    {
        proof {
            use_type_invariant(&*self);
        }
        match (self.phase, event) {
            (TickPhase::Idle, TickEvent::Start { dt }) => self.start(dt),
            (TickPhase::Header { end_time }, TickEvent::Header(outcome)) => self.on_header(
                end_time,
                outcome,
            ),
            (TickPhase::Tag { end_time }, TickEvent::Tag(outcome)) => self.on_tag(
                end_time,
                outcome,
            ),
            (
                TickPhase::Registration { end_time, position },
                TickEvent::Registered(handle),
            ) => self.on_registered(end_time, position, handle),
            (TickPhase::Decode { end_time, position }, TickEvent::Decoded(picture)) => self.on_decoded(
                end_time,
                position,
                picture,
            ),
            _ => self.end_tick(),
        }
    }
}

} // verus!
