//! What a stream reads of the records of the tagged container: the header
//! that follows the signature, and the tags with their payloads. The host
//! parses the bytes; these types carry the outcome.

use vstd::prelude::*;
use crate::number::Number;

verus! {

/// Why a header or a tag could not be read.
#[derive(Clone, Copy, Debug, PartialEq, Eq, Structural)]
pub enum FlvError {
    /// The buffer ends before the record does: more bytes may complete it.
    EndOfData,
    /// The bytes are there and do not form the record.
    Malformed,
}

/// The header of the container.
#[derive(Clone, Copy, Debug, PartialEq, Eq, Structural)]
pub struct FlvHeader {
    pub version: u8,
    pub has_audio: bool,
    pub has_video: bool,
    pub data_offset: u32,
}

/// A header that was read, and the position of the first byte after it.
#[derive(Clone, Copy, Debug, PartialEq, Eq)]
pub struct ParsedHeader {
    pub header: FlvHeader,
    pub position: usize,
}

/// A named member of a compound script value. Where the member's value is a
/// number, `number` holds it.
#[derive(Clone, Debug, PartialEq, Eq)]
pub struct FlvField {
    pub name: Vec<u8>,
    pub number: Option<Number>,
}

/// The value of a script variable.
#[derive(Clone, Debug, PartialEq, Eq)]
pub enum FlvValue {
    Number(Number),
    Object(Vec<FlvField>),
    EcmaArray(Vec<FlvField>),
    StrictArray(Vec<FlvField>),
    /// A value of any other kind.
    Other,
}

/// A named value of a script record.
#[derive(Clone, Debug, PartialEq, Eq)]
pub struct FlvVariable {
    pub name: Vec<u8>,
    pub data: FlvValue,
}

/// The payload of a script tag.
#[derive(Clone, Debug, PartialEq, Eq)]
pub struct FlvScriptData(pub Vec<FlvVariable>);

/// What a video tag carries after its codec identifier.
#[derive(Clone, Debug, PartialEq, Eq)]
pub enum FlvVideoPacket {
    /// One encoded frame.
    Data(Vec<u8>),
    CommandFrame,
    AvcSequenceHeader,
    AvcNalu,
    AvcEndOfSequence,
}

/// The payload of a video tag.
#[derive(Clone, Debug, PartialEq, Eq)]
pub struct FlvVideoData {
    pub codec_id: u8,
    pub data: FlvVideoPacket,
}

/// The payload of a tag.
#[derive(Clone, Debug, PartialEq, Eq)]
pub enum FlvTagData {
    Audio,
    Video(FlvVideoData),
    Script(FlvScriptData),
    /// A payload that could not be read, in a tag whose extent is known.
    Invalid,
}

/// One record of the container.
#[derive(Clone, Debug, PartialEq, Eq)]
pub struct FlvTag {
    pub timestamp: i32,
    pub stream_id: u32,
    pub data: FlvTagData,
}

/// A tag that was read, and the position of the first byte after it.
#[derive(Clone, Debug, PartialEq, Eq)]
pub struct ParsedTag {
    pub tag: FlvTag,
    pub position: usize,
}

} // verus!
