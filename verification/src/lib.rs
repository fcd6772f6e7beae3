//! A push-mode, streaming demultiplexer for the FLV (Flash Video) container.
//!
//! The host appends arbitrarily fragmented bytes and polls a single entry
//! point; the demuxer answers with one event per poll: *need more data*, *try
//! again*, stream announcements, or a sample buffer annotated with timestamps
//! and a keyframe flag.

pub mod adapter;
pub mod amf;
pub mod bytes;
pub mod fbits;
pub mod events;
pub mod format;
pub mod demux;
pub mod laws;
pub mod machine;
pub mod tags;
pub mod utf8check;

use vstd::prelude::*;

verus! {

/// Stream identifier used for every audio sample buffer.
pub const AUDIO_STREAM_ID: u32 = 0;

/// Stream identifier used for every video sample buffer.
pub const VIDEO_STREAM_ID: u32 = 1;

} // verus!
