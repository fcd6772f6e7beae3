//! What the demuxer hands its host: sample buffers with timestamps and
//! flags, stream descriptions, and the one-per-poll event.

use vstd::prelude::*;
use crate::format::{AudioCaps, AudioCapsModel, VideoCaps, VideoCapsModel};

verus! {

/// An output sample buffer: the payload bytes, presentation and decode
/// timestamps in nanoseconds, and whether the sample is a delta unit (not
/// independently decodable).
#[derive(Debug)]
pub struct Buffer {
    pub data: Vec<u8>,
    pub pts: Option<u64>,
    pub dts: Option<u64>,
    pub delta_unit: bool,
}

/// Mathematical image of [`Buffer`].
#[verifier::ext_equal]
pub struct BufferModel {
    pub data: Seq<u8>,
    pub pts: Option<u64>,
    pub dts: Option<u64>,
    pub delta_unit: bool,
}

impl View for Buffer {
    type V = BufferModel;

    open spec fn view(&self) -> BufferModel {
        BufferModel {
            data: self.data@,
            pts: self.pts,
            dts: self.dts,
            delta_unit: self.delta_unit,
        }
    }
}

/// A caps description: the kind says whether the stream is audio or video.
#[derive(Debug)]
pub enum Caps {
    Audio(AudioCaps),
    Video(VideoCaps),
}

/// Mathematical image of [`Caps`].
pub enum CapsModel {
    Audio(AudioCapsModel),
    Video(VideoCapsModel),
}

impl View for Caps {
    type V = CapsModel;

    open spec fn view(&self) -> CapsModel {
        match self {
            Caps::Audio(c) => CapsModel::Audio(c@),
            Caps::Video(c) => CapsModel::Video(c@),
        }
    }
}

/// An announced stream: its fixed identifier and its caps description.
#[derive(Debug)]
pub struct Stream {
    pub id: u32,
    pub caps: Caps,
}

/// Mathematical image of [`Stream`].
#[verifier::ext_equal]
pub struct StreamModel {
    pub id: u32,
    pub caps: CapsModel,
}

impl View for Stream {
    type V = StreamModel;

    open spec fn view(&self) -> StreamModel {
        StreamModel { id: self.id, caps: self.caps@ }
    }
}

/// The view of a list of streams.
pub open spec fn streams_view(ss: Seq<Stream>) -> Seq<StreamModel> {
    ss.map_values(|s: Stream| s@)
}

/// What one poll of the event loop answers.
#[derive(Debug)]
pub enum HandleBufferResult {
    /// Nothing can happen until more bytes are pushed.
    NeedMoreData,
    /// Progress was made; poll again without pushing.
    Again,
    /// A new stream appeared.
    StreamAdded(Stream),
    /// An existing stream's description changed.
    StreamChanged(Stream),
    /// One or more existing streams were reconfigured by metadata.
    StreamsChanged(Vec<Stream>),
    /// Every stream the file header advertised has been announced.
    HaveAllStreams,
    /// A sample buffer for the given stream.
    BufferForStream(u32, Buffer),
}

/// Mathematical image of [`HandleBufferResult`].
pub enum EventModel {
    NeedMoreData,
    Again,
    StreamAdded(StreamModel),
    StreamChanged(StreamModel),
    StreamsChanged(Seq<StreamModel>),
    HaveAllStreams,
    BufferForStream(u32, BufferModel),
}

impl View for HandleBufferResult {
    type V = EventModel;

    open spec fn view(&self) -> EventModel {
        match self {
            HandleBufferResult::NeedMoreData => EventModel::NeedMoreData,
            HandleBufferResult::Again => EventModel::Again,
            HandleBufferResult::StreamAdded(s) => EventModel::StreamAdded(s@),
            HandleBufferResult::StreamChanged(s) => EventModel::StreamChanged(s@),
            HandleBufferResult::StreamsChanged(ss) => EventModel::StreamsChanged(
                streams_view(ss@),
            ),
            HandleBufferResult::HaveAllStreams => EventModel::HaveAllStreams,
            HandleBufferResult::BufferForStream(id, b) => EventModel::BufferForStream(*id, b@),
        }
    }
}

/// A fatal parse failure while streaming: the record at the head of the
/// buffer is malformed and the demuxer cannot resynchronize.
#[derive(Clone, Copy, Debug, PartialEq, Eq, Structural)]
pub enum FlowError {
    BadTagHeader,
    BadAudioDataHeader,
    BadVideoDataHeader,
    BadAacPacketHeader,
    BadAvcPacketHeader,
}

/// A lifecycle error.
#[derive(Clone, Copy, Debug, PartialEq, Eq, Structural)]
pub enum ErrorMessage {
    /// The operation is not supported by this container.
    Unsupported,
}

/// What a seek request would answer if seeking were supported; this
/// demuxer's seek always fails instead.
#[derive(Clone, Copy, Debug, PartialEq, Eq, Structural)]
pub enum SeekResult {
    TooEarly,
    Seeked(u64),
    Eos,
}

/// The view of a poll result, errors passed through.
pub open spec fn result_view(r: &Result<HandleBufferResult, FlowError>) -> Result<
    EventModel,
    FlowError,
> {
    match r {
        Ok(ev) => Ok(ev@),
        Err(e) => Err(*e),
    }
}

} // verus!
