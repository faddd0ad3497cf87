//! What holds of every stream, however it is loaded and ticked.

use vstd::prelude::*;
use crate::codec::video_codec_of;
use crate::flv::{FlvError, FlvScriptData, FlvTagData, FlvVideoData, ParsedHeader, ParsedTag};
use crate::metadata::metadata_of;
use crate::tick::{
    NetStreamType, StreamModel, TickAction, TickEvent, TickPhase, codec_for, end_time_of,
    has_signature, request_for,
};
use crate::video::{BitmapInfo, VideoStreamHandle};

verus! {

/// One thing that happens to a stream: bytes are loaded, or it takes an
/// event of a tick.
pub enum StreamInput {
    Load(Seq<u8>),
    Event(TickEvent),
}

/// The stream after one input.
pub open spec fn apply(s: StreamModel, input: StreamInput) -> StreamModel {
    match input {
        StreamInput::Load(bytes) => s.load(bytes),
        StreamInput::Event(event) => s.tick(event).state,
    }
}

/// The stream after a sequence of inputs.
pub open spec fn run(s: StreamModel, inputs: Seq<StreamInput>) -> StreamModel
    decreases inputs.len(),
{
    if inputs.len() == 0 {
        s
    } else {
        apply(run(s, inputs.drop_last()), inputs.last())
    }
}

/// The bytes that a sequence of inputs loads, in their order.
pub open spec fn loaded_bytes(inputs: Seq<StreamInput>) -> Seq<u8>
    decreases inputs.len(),
{
    if inputs.len() == 0 {
        Seq::empty()
    } else {
        match inputs.last() {
            StreamInput::Load(bytes) => loaded_bytes(inputs.drop_last()) + bytes,
            StreamInput::Event(_) => loaded_bytes(inputs.drop_last()),
        }
    }
}

/// The sum of the lengths of the pieces that a sequence of inputs loads.
pub open spec fn loaded_len(inputs: Seq<StreamInput>) -> nat
    decreases inputs.len(),
{
    if inputs.len() == 0 {
        0
    } else {
        match inputs.last() {
            StreamInput::Load(bytes) => loaded_len(inputs.drop_last()) + bytes.len(),
            StreamInput::Event(_) => loaded_len(inputs.drop_last()),
        }
    }
}

/// Whether a stream decodes the frame of a video tag, rather than only
/// counting the tag.
pub open spec fn decodes(s: StreamModel, video: FlvVideoData) -> bool {
    s.video_stream() is Some && video_codec_of(video.codec_id) is Some && video.data
        is Data
}

/// Whether an event completes a video tag: a video tag arrives before the
/// end of the tick's time and has no frame to decode, or the decoder
/// answers for one that has.
pub open spec fn completes_video_tag(s: StreamModel, event: TickEvent) -> bool {
    match (s.phase, event) {
        (TickPhase::Tag { end_time }, TickEvent::Tag(Ok(parsed))) => {
            &&& parsed.tag.timestamp < end_time
            &&& s.stream_type is Some
            &&& parsed.tag.data matches FlvTagData::Video(video) && !decodes(s, video)
        },
        (TickPhase::Decode { .. }, TickEvent::Decoded(_)) => true,
        _ => false,
    }
}

/// The number of video tags that a sequence of inputs completes.
pub open spec fn video_tags_completed(s: StreamModel, inputs: Seq<StreamInput>) -> nat
    decreases inputs.len(),
{
    if inputs.len() == 0 {
        0
    } else {
        let before = video_tags_completed(s, inputs.drop_last());
        match inputs.last() {
            StreamInput::Event(event) => if completes_video_tag(
                run(s, inputs.drop_last()),
                event,
            ) {
                before + 1
            } else {
                before
            },
            StreamInput::Load(_) => before,
        }
    }
}

/// A fresh stream is well formed.
pub proof fn lemma_fresh_is_well_formed(id: u64)
    ensures
        StreamModel::fresh(id).well_formed(),
{
}

/// Loading keeps a stream well formed and changes nothing but the buffer.
pub proof fn lemma_load_keeps_all_but_buffer(s: StreamModel, bytes: Seq<u8>)
    ensures
        s.load(bytes) == (StreamModel { buffer: s.buffer + bytes, ..s }),
        s.well_formed() ==> s.load(bytes).well_formed(),
{
}

/// An event keeps a stream well formed. It changes neither the identity,
/// the buffer nor the stream time, and the high-water mark never falls.
pub proof fn lemma_tick_keeps_well_formed(s: StreamModel, event: TickEvent)
    requires
        s.well_formed(),
    ensures
        s.tick(event).state.well_formed(),
        s.tick(event).state.id == s.id,
        s.tick(event).state.buffer == s.buffer,
        s.tick(event).state.stream_time == s.stream_time,
        s.tick(event).state.preload_offset >= s.preload_offset,
        s.tick(event).state.offset <= s.tick(event).state.preload_offset,
{
}

/// Whatever is loaded and ticked, a well-formed stream stays well formed,
/// and its high-water mark never falls.
pub proof fn lemma_run_keeps_well_formed(s: StreamModel, inputs: Seq<StreamInput>)
    requires
        s.well_formed(),
    ensures
        run(s, inputs).well_formed(),
        run(s, inputs).id == s.id,
        run(s, inputs).preload_offset >= s.preload_offset,
    decreases inputs.len(),
{
    if inputs.len() > 0 {
        lemma_run_keeps_well_formed(s, inputs.drop_last());
        let before = run(s, inputs.drop_last());
        match inputs.last() {
            StreamInput::Load(bytes) => lemma_load_keeps_all_but_buffer(before, bytes),
            StreamInput::Event(event) => lemma_tick_keeps_well_formed(before, event),
        }
    }
}

/// Whatever is loaded and ticked, the buffer is what it was, followed by the
/// loaded pieces in their order, and its length has grown by the sum of
/// their lengths.
pub proof fn lemma_buffer_is_what_was_loaded(s: StreamModel, inputs: Seq<StreamInput>)
    ensures
        run(s, inputs).buffer == s.buffer + loaded_bytes(inputs),
        loaded_bytes(inputs).len() == loaded_len(inputs),
        run(s, inputs).buffer.len() == s.buffer.len() + loaded_len(inputs),
    decreases inputs.len(),
{
    if inputs.len() == 0 {
        assert(s.buffer + Seq::<u8>::empty() =~= s.buffer);
    } else {
        lemma_buffer_is_what_was_loaded(s, inputs.drop_last());
        let before = run(s, inputs.drop_last());
        match inputs.last() {
            StreamInput::Load(bytes) => {
                assert((s.buffer + loaded_bytes(inputs.drop_last())) + bytes =~= s.buffer + (
                loaded_bytes(inputs.drop_last()) + bytes));
            },
            StreamInput::Event(event) => {},
        }
    }
}

/// With fewer than three bytes in the buffer, the beginning of a tick
/// changes nothing in a stream that has sniffed nothing yet, and ends the
/// tick.
pub proof fn lemma_short_buffer_is_left_alone(s: StreamModel, dt: i64)
    requires
        s.phase == TickPhase::Idle,
        s.stream_type is None,
        s.buffer.len() < 3,
    ensures
        s.tick(TickEvent::Start { dt }).state == s,
        s.tick(TickEvent::Start { dt }).action == TickAction::Done,
{
}

/// With three or more bytes that do not open with the signature, the
/// beginning of a tick sets the high-water mark of a stream that has sniffed
/// nothing yet to 3, leaves it without a container, and ends the tick.
pub proof fn lemma_wrong_signature_fails(s: StreamModel, dt: i64)
    requires
        s.phase == TickPhase::Idle,
        s.stream_type is None,
        s.preload_offset == 0,
        s.buffer.len() >= 3,
        !has_signature(s.buffer),
    ensures
        s.tick(TickEvent::Start { dt }).state == (StreamModel { preload_offset: 3, ..s }),
        s.tick(TickEvent::Start { dt }).action == TickAction::Done,
        s.tick(TickEvent::Start { dt }).state.sniff_failed(),
{
}

/// A header that is malformed behind a good signature fails the sniffing in
/// the same way; one that the end of the buffer cuts short does not.
pub proof fn lemma_header_outcomes(s: StreamModel, end_time: i64)
    requires
        s.phase == (TickPhase::Header { end_time }),
    ensures
        s.tick(TickEvent::Header(Err(FlvError::Malformed))).state == (StreamModel {
            preload_offset: 3,
            phase: TickPhase::Idle,
            ..s
        }),
        s.tick(TickEvent::Header(Err(FlvError::Malformed))).action == TickAction::Done,
        s.tick(TickEvent::Header(Err(FlvError::EndOfData))).state == (StreamModel {
            phase: TickPhase::Idle,
            ..s
        }),
        s.tick(TickEvent::Header(Err(FlvError::EndOfData))).action == TickAction::Done,
{
}

/// Once sniffing has failed, no event changes the stream, and each is
/// answered by the end of the tick.
pub proof fn lemma_failed_sniff_ignores_events(s: StreamModel, event: TickEvent)
    requires
        s.well_formed(),
        s.sniff_failed(),
    ensures
        s.tick(event).state == s,
        s.tick(event).action == TickAction::Done,
{
}

/// Once sniffing has failed it has failed for good: whatever is loaded and
/// ticked afterwards, the stream stays without a container, and its cursors
/// stay where they are.
pub proof fn lemma_failed_sniff_is_permanent(s: StreamModel, inputs: Seq<StreamInput>)
    requires
        s.well_formed(),
        s.sniff_failed(),
    ensures
        run(s, inputs) == (StreamModel { buffer: s.buffer + loaded_bytes(inputs), ..s }),
        run(s, inputs).sniff_failed(),
    decreases inputs.len(),
{
    if inputs.len() == 0 {
        assert(s.buffer + Seq::<u8>::empty() =~= s.buffer);
    } else {
        lemma_failed_sniff_is_permanent(s, inputs.drop_last());
        let before = run(s, inputs.drop_last());
        match inputs.last() {
            StreamInput::Load(bytes) => {
                assert((s.buffer + loaded_bytes(inputs.drop_last())) + bytes =~= s.buffer + (
                loaded_bytes(inputs.drop_last()) + bytes));
            },
            StreamInput::Event(event) => {
                lemma_failed_sniff_ignores_events(before, event);
            },
        }
    }
}

/// A good signature and a good header: the first tick of a stream that has
/// sniffed nothing asks for the header, and with the header read the
/// container is set, without a decoder stream and with no frame counted,
/// both cursors stand behind the header, and the first tag is asked for
/// there.
pub proof fn lemma_header_sets_the_container(s: StreamModel, dt: i64, parsed: ParsedHeader)
    requires
        s.phase == TickPhase::Idle,
        s.stream_type is None,
        s.preload_offset == 0,
        has_signature(s.buffer),
    ensures
        ({
            let asked = s.tick(TickEvent::Start { dt });
            let read = asked.state.tick(TickEvent::Header(Ok(parsed)));
            &&& asked.action == TickAction::ParseHeader { offset: s.offset }
            &&& read.action == TickAction::ParseTag { offset: parsed.position }
            &&& read.state.stream_type == Some(
                NetStreamType::Flv { header: parsed.header, stream: None, frame_id: 0 },
            )
            &&& read.state.offset == parsed.position
            &&& read.state.preload_offset == parsed.position
            &&& read.state.phase == TickPhase::Tag { end_time: end_time_of(s.stream_time, dt) }
        }),
{
}

/// A tick of a stream whose container is known, with no tag to read: the
/// tick asks for the tag at the cursor, and when none can be read it ends
/// and has changed nothing.
pub proof fn lemma_tick_without_tag_changes_nothing(s: StreamModel, dt: i64, error: FlvError)
    requires
        s.phase == TickPhase::Idle,
        s.stream_type is Some,
    ensures
        ({
            let asked = s.tick(TickEvent::Start { dt });
            let ended = asked.state.tick(TickEvent::Tag(Err(error)));
            &&& asked.action == TickAction::ParseTag { offset: s.offset }
            &&& ended.action == TickAction::Done
            &&& ended.state == s
        }),
{
}

/// A tag is left for later exactly when its timestamp is not before the sum
/// of the stream time and the time passed: holding the sum to 64 bits
/// changes nothing for a timestamp.
pub proof fn lemma_end_time_is_the_sum(stream_time: i64, dt: i64, timestamp: i32)
    ensures
        timestamp >= end_time_of(stream_time, dt) <==> timestamp >= stream_time + dt,
{
}

/// A tag stamped at or after the end of a tick's time is not consumed: the
/// tick ends and the stream is as it was before the tick asked for the tag.
/// The next tick asks for the tag at the same place, and if its time reaches
/// beyond the tag, the tag is handled exactly as it would have been in the
/// first tick, had that one's time reached as far.
pub proof fn lemma_deferred_tag_is_replayed(s: StreamModel, end_time: i64, parsed: ParsedTag, dt: i64)
    requires
        s.phase == (TickPhase::Tag { end_time }),
        s.stream_type is Some,
        parsed.tag.timestamp >= end_time,
    ensures
        ({
            let deferred = s.tick(TickEvent::Tag(Ok(parsed)));
            let asked = deferred.state.tick(TickEvent::Start { dt });
            let later = end_time_of(s.stream_time, dt);
            &&& deferred.action == TickAction::Done
            &&& deferred.state == StreamModel { phase: TickPhase::Idle, ..s }
            &&& asked.action == TickAction::ParseTag { offset: s.offset }
            &&& asked.state == StreamModel { phase: TickPhase::Tag { end_time: later }, ..s }
            &&& asked.state.tick(TickEvent::Tag(Ok(parsed))) == (StreamModel {
                phase: TickPhase::Tag { end_time: later },
                ..s
            }).tick(TickEvent::Tag(Ok(parsed)))
        }),
{
}

/// A script tag that was never read before and gives all five numbers, with
/// an identifier that selects a codec, makes a stream without a decoder
/// stream ask for one, and only such a tag does.
pub proof fn lemma_metadata_asks_for_a_decoder_stream(
    s: StreamModel,
    end_time: i64,
    parsed: ParsedTag,
    script: FlvScriptData,
)
    requires
        s.phase == (TickPhase::Tag { end_time }),
        s.stream_type is Some,
        parsed.tag.timestamp < end_time,
        parsed.tag.data == FlvTagData::Script(script),
    ensures
        s.tick(TickEvent::Tag(Ok(parsed))).action is RegisterVideoStream <==> {
            &&& s.video_stream() is None
            &&& parsed.position >= s.preload_offset
            &&& metadata_of(script.0@).is_complete()
            &&& codec_for(metadata_of(script.0@)) is Some
        },
        s.tick(TickEvent::Tag(Ok(parsed))).action is RegisterVideoStream ==> s.tick(
            TickEvent::Tag(Ok(parsed)),
        ).action == (TickAction::RegisterVideoStream {
            request: request_for(metadata_of(script.0@), codec_for(metadata_of(script.0@))->0),
        }),
        !(s.tick(TickEvent::Tag(Ok(parsed))).action is RegisterVideoStream) ==> s.tick(
            TickEvent::Tag(Ok(parsed)),
        ) == s.advance(end_time, parsed.position),
{
}

/// A stream with a decoder stream asks for no other, and no event changes
/// the one it has.
pub proof fn lemma_registered_stream_stays(s: StreamModel, event: TickEvent)
    requires
        s.well_formed(),
        s.video_stream() is Some,
    ensures
        !(s.tick(event).action is RegisterVideoStream),
        s.tick(event).state.video_stream() == s.video_stream(),
{
}

/// Once a decoder stream is registered, it is the stream's decoder stream
/// for good, and the stream never asks for another, whatever is loaded and
/// ticked afterwards.
pub proof fn lemma_registered_once(s: StreamModel, inputs: Seq<StreamInput>, i: int)
    requires
        s.well_formed(),
        s.video_stream() is Some,
        0 <= i < inputs.len(),
    ensures
        run(s, inputs).video_stream() == s.video_stream(),
        inputs[i] matches StreamInput::Event(event) ==> !(run(s, inputs.take(i)).tick(
            event,
        ).action is RegisterVideoStream),
{
    lemma_registered_stays_over_run(s, inputs);
    lemma_registered_stays_over_run(s, inputs.take(i));
    match inputs[i] {
        StreamInput::Event(event) => {
            lemma_registered_stream_stays(run(s, inputs.take(i)), event);
        },
        StreamInput::Load(_) => {},
    }
}

/// Whatever is loaded and ticked, a registered decoder stream stays.
pub proof fn lemma_registered_stays_over_run(s: StreamModel, inputs: Seq<StreamInput>)
    requires
        s.well_formed(),
        s.video_stream() is Some,
    ensures
        run(s, inputs).well_formed(),
        run(s, inputs).video_stream() == s.video_stream(),
    decreases inputs.len(),
{
    if inputs.len() > 0 {
        lemma_registered_stays_over_run(s, inputs.drop_last());
        let before = run(s, inputs.drop_last());
        match inputs.last() {
            StreamInput::Load(bytes) => {},
            StreamInput::Event(event) => {
                lemma_registered_stream_stays(before, event);
                lemma_tick_keeps_well_formed(before, event);
            },
        }
    }
}

/// The last picture changes only when the decoder answers a frame with a
/// picture, and the container, once known, stays with its header.
pub proof fn lemma_picture_and_container_stay(s: StreamModel, event: TickEvent)
    requires
        s.well_formed(),
    ensures
        s.tick(event).state.last_decoded_bitmap != s.last_decoded_bitmap ==> s.phase
            is Decode && event matches TickEvent::Decoded(Some(_)),
        s.stream_type matches Some(NetStreamType::Flv { header, .. }) ==> s.tick(
            event,
        ).state.stream_type matches Some(NetStreamType::Flv { header: kept, .. }) && kept
            == header,
{
}

/// The answer of the decoder to a registration decides whether the stream
/// has a decoder stream afterwards; the script tag is consumed either way.
pub proof fn lemma_registration_outcomes(
    s: StreamModel,
    end_time: i64,
    position: usize,
    handle: Option<VideoStreamHandle>,
)
    requires
        s.well_formed(),
        s.phase == (TickPhase::Registration { end_time, position }),
    ensures
        s.tick(TickEvent::Registered(handle)).state.video_stream() == handle,
        s.tick(TickEvent::Registered(handle)).state.offset == position,
        s.tick(TickEvent::Registered(handle)).action == (TickAction::ParseTag { offset: position }),
        s.tick(TickEvent::Registered(handle)).state.frame_id() == s.frame_id(),
        s.tick(TickEvent::Registered(handle)).state.last_decoded_bitmap == s.last_decoded_bitmap,
{
}

/// The answer of the decoder to a frame: a picture replaces the last one,
/// a failure leaves it, and the video tag is counted and consumed either
/// way.
pub proof fn lemma_decode_outcomes(
    s: StreamModel,
    end_time: i64,
    position: usize,
    picture: Option<BitmapInfo>,
)
    requires
        s.well_formed(),
        s.phase == (TickPhase::Decode { end_time, position }),
        s.frame_id() < u32::MAX,
    ensures
        s.tick(TickEvent::Decoded(picture)).state.last_decoded_bitmap == if picture is Some {
            picture
        } else {
            s.last_decoded_bitmap
        },
        s.tick(TickEvent::Decoded(picture)).state.frame_id() == s.frame_id() + 1,
        s.tick(TickEvent::Decoded(picture)).state.offset == position,
        s.tick(TickEvent::Decoded(picture)).action == (TickAction::ParseTag { offset: position }),
{
}

/// A video tag whose frame is not decoded (no decoder stream, an unknown
/// codec, or a payload that is no frame) is counted and consumed, and the
/// last picture stays.
pub proof fn lemma_skipped_video_tag_is_counted(
    s: StreamModel,
    end_time: i64,
    parsed: ParsedTag,
    video: FlvVideoData,
)
    requires
        s.phase == (TickPhase::Tag { end_time }),
        s.stream_type is Some,
        s.frame_id() < u32::MAX,
        parsed.tag.timestamp < end_time,
        parsed.tag.data == FlvTagData::Video(video),
        !decodes(s, video),
    ensures
        s.tick(TickEvent::Tag(Ok(parsed))).state.frame_id() == s.frame_id() + 1,
        s.tick(TickEvent::Tag(Ok(parsed))).state.last_decoded_bitmap == s.last_decoded_bitmap,
        s.tick(TickEvent::Tag(Ok(parsed))).state.offset == parsed.position,
        s.tick(TickEvent::Tag(Ok(parsed))).action == (TickAction::ParseTag {
            offset: parsed.position,
        }),
{
}

/// An event raises the frame counter by one if it completes a video tag, and
/// leaves it otherwise.
pub proof fn lemma_frame_counter_step(s: StreamModel, event: TickEvent)
    requires
        s.well_formed(),
        s.frame_id() < u32::MAX,
    ensures
        s.tick(event).state.frame_id() == s.frame_id() + if completes_video_tag(s, event) {
            1nat
        } else {
            0nat
        },
{
}

/// Whatever is loaded and ticked, the frame counter has grown by the number
/// of video tags completed, whether or not their frames were decoded, as
/// long as it stays within its range.
pub proof fn lemma_frame_counter_counts_video_tags(s: StreamModel, inputs: Seq<StreamInput>)
    requires
        s.well_formed(),
        s.frame_id() + video_tags_completed(s, inputs) <= u32::MAX,
    ensures
        run(s, inputs).frame_id() == s.frame_id() + video_tags_completed(s, inputs),
    decreases inputs.len(),
{
    if inputs.len() > 0 {
        lemma_frame_counter_counts_video_tags(s, inputs.drop_last());
        lemma_run_keeps_well_formed(s, inputs.drop_last());
        let before = run(s, inputs.drop_last());
        match inputs.last() {
            StreamInput::Load(bytes) => {},
            StreamInput::Event(event) => {
                if before.frame_id() < u32::MAX {
                    lemma_frame_counter_step(before, event);
                } else {
                    assert(!completes_video_tag(before, event));
                }
            },
        }
    }
}

} // verus!
