//! Incremental demultiplexing and playback scheduling for media streams.
//!
//! A stream's bytes arrive in pieces. A host drives each playing stream once
//! per frame: the stream decides what has to happen next (sniff the container,
//! read a tag, register a decoder, decode a frame) and the host carries it
//! out and reports what came of it.

pub mod codec;
pub mod number;
pub mod flv;
pub mod video;
pub mod metadata;
pub mod tick;
pub mod stream;
pub mod manager;
pub mod laws;
