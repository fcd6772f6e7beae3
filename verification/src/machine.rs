//! The demuxer's state machine, as one mathematical step function.
//!
//! [`step`] says exactly what one poll of the event loop does to a demuxer
//! model: which bytes are consumed, how the streaming state changes, and
//! which event comes out. The executable demuxer is verified against it,
//! and the library's laws are proved about it.

use vstd::prelude::*;
use crate::tags::{
    TagType, TagHeader, AudioDataHeader, VideoDataHeader, SoundFormat, CodecId, FrameType,
    AacPacketType, AvcPacketType, FileHeader, spec_parse_file_header, spec_parse_tag_header,
    spec_parse_audio_data_header, spec_parse_video_data_header, spec_parse_aac_packet_type,
    spec_parse_avc_packet_header,
};
use crate::format::{
    AudioFormatModel, VideoFormatModel, MetadataModel, audio_format_of, video_format_of,
    audio_same, video_same, audio_caps_of, video_caps_of, metadata_of_props, key_on_meta_data,
};
use crate::events::{EventModel, StreamModel, BufferModel, CapsModel, FlowError};
use crate::amf::{spec_parse_script, ScriptArgsModel, AmfPropertyModel};
use crate::{AUDIO_STREAM_ID, VIDEO_STREAM_ID};

verus! {

/// The top-level parsing state.
#[derive(Clone, Copy, Debug, PartialEq, Eq, Structural)]
pub enum State {
    /// Initial and terminal: the host must call `start` first.
    Stopped,
    /// Searching the byte stream for the 9-byte file header.
    NeedHeader,
    /// Discarding the bytes between the file header and the first tag.
    Skipping { audio: bool, video: bool, skip_left: u32 },
    /// The tag loop is active.
    Streaming,
}

/// The streaming sub-state: what has been discovered so far.
#[verifier::ext_equal]
pub struct StreamingModel {
    pub audio: Option<AudioFormatModel>,
    pub expect_audio: bool,
    pub video: Option<VideoFormatModel>,
    pub expect_video: bool,
    pub got_all_streams: bool,
    pub last_position: Option<u64>,
    pub metadata: Option<MetadataModel>,
    pub aac_sequence_header: Option<Seq<u8>>,
    pub avc_sequence_header: Option<Seq<u8>>,
}

/// The whole demuxer: parsing state, streaming sub-state, and the bytes
/// waiting in the adapter.
#[verifier::ext_equal]
pub struct DemuxModel {
    pub state: State,
    pub streaming: Option<StreamingModel>,
    pub buf: Seq<u8>,
}

/// While the tag loop is active the streaming sub-state exists.
pub open spec fn wf(m: DemuxModel) -> bool {
    (m.state is Streaming) ==> (m.streaming is Some)
}

/// What one poll does: the demuxer afterwards, and the answer.
#[verifier::ext_equal]
pub struct StepRes {
    pub post: DemuxModel,
    pub out: Result<EventModel, FlowError>,
}

/// A fresh streaming sub-state, knowing only which streams the file header
/// advertised.
pub open spec fn init_streaming(audio: bool, video: bool) -> StreamingModel {
    StreamingModel {
        audio: None,
        expect_audio: audio,
        video: None,
        expect_video: video,
        got_all_streams: false,
        last_position: None,
        metadata: None,
        aac_sequence_header: None,
        avc_sequence_header: None,
    }
}

/// Searches the buffer for a file header: how many garbage bytes precede it,
/// and the header if one is found before the buffer runs short of 9 bytes.
pub open spec fn scan_header(buf: Seq<u8>) -> (nat, Option<FileHeader>)
    decreases buf.len(),
{
    if buf.len() < 9 {
        (0nat, None)
    } else {
        match spec_parse_file_header(buf.subrange(0, 9)) {
            Some(h) => (0nat, Some(h)),
            None => {
                let r = scan_header(buf.skip(1));
                ((r.0 + 1) as nat, r.1)
            },
        }
    }
}

/// Latches `got_all_streams` once the audio side is published and the video
/// side is published or not expected.
pub open spec fn latch_audio(ss: StreamingModel) -> (StreamingModel, Option<EventModel>) {
    if !ss.got_all_streams && ss.audio is Some && (ss.expect_video ==> ss.video is Some) {
        (StreamingModel { got_all_streams: true, ..ss }, Some(EventModel::HaveAllStreams))
    } else {
        (ss, None)
    }
}

/// Latches `got_all_streams` once the video side is published and the audio
/// side is published or not expected.
pub open spec fn latch_video(ss: StreamingModel) -> (StreamingModel, Option<EventModel>) {
    if !ss.got_all_streams && ss.video is Some && (ss.expect_audio ==> ss.audio is Some) {
        (StreamingModel { got_all_streams: true, ..ss }, Some(EventModel::HaveAllStreams))
    } else {
        (ss, None)
    }
}

/// Reconciles a prospective audio format against the published one: a
/// different format is published when caps can be synthesized (announcing a
/// new or changed stream), or unpublished when they cannot; then the
/// all-streams latch is checked.
pub open spec fn update_audio(ss: StreamingModel, nf: AudioFormatModel) -> (
    StreamingModel,
    Option<EventModel>,
) {
    let differs = match ss.audio {
        Some(a) => !audio_same(a, nf),
        None => true,
    };
    if differs {
        match audio_caps_of(nf) {
            Some(c) => {
                let stream = StreamModel { id: AUDIO_STREAM_ID, caps: CapsModel::Audio(c) };
                let ss2 = StreamingModel { audio: Some(nf), ..ss };
                if ss.audio is None {
                    (ss2, Some(EventModel::StreamAdded(stream)))
                } else {
                    (ss2, Some(EventModel::StreamChanged(stream)))
                }
            },
            None => latch_audio(StreamingModel { audio: None, ..ss }),
        }
    } else {
        latch_audio(ss)
    }
}

/// The video counterpart of [`update_audio`].
pub open spec fn update_video(ss: StreamingModel, nf: VideoFormatModel) -> (
    StreamingModel,
    Option<EventModel>,
) {
    let differs = match ss.video {
        Some(v) => !video_same(v, nf),
        None => true,
    };
    if differs {
        match video_caps_of(nf) {
            Some(c) => {
                let stream = StreamModel { id: VIDEO_STREAM_ID, caps: CapsModel::Video(c) };
                let ss2 = StreamingModel { video: Some(nf), ..ss };
                if ss.video is None {
                    (ss2, Some(EventModel::StreamAdded(stream)))
                } else {
                    (ss2, Some(EventModel::StreamChanged(stream)))
                }
            },
            None => latch_video(StreamingModel { video: None, ..ss }),
        }
    } else {
        latch_video(ss)
    }
}

/// The audio payload offset past the codec byte: one extra byte for the AAC
/// packet type.
pub open spec fn audio_offset(f: SoundFormat) -> u32 {
    if f == SoundFormat::Aac {
        1
    } else {
        0
    }
}

/// The video payload offset past the codec byte: one extra byte for VP6's
/// alpha offset, four for H.264's packet type and composition time.
pub open spec fn video_offset(f: CodecId) -> u32 {
    if f == CodecId::Vp6 || f == CodecId::Vp6a {
        1
    } else if f == CodecId::H264 {
        4
    } else {
        0
    }
}

/// The generic audio payload path, after the AAC special case: unresolved
/// formats flush the tag; otherwise the payload past the codec byte and
/// offset becomes a buffer stamped with the tag's timestamp.
pub open spec fn audio_generic_step(m: DemuxModel, th: TagHeader) -> StepRes
    recommends
        wf(m),
        m.state is Streaming,
        m.buf.len() >= 15 + th.data_size,
{
    let ss = m.streaming.unwrap();
    let ds = th.data_size as int;
    if ss.audio is None {
        StepRes {
            post: DemuxModel { buf: m.buf.skip(15 + ds), ..m },
            out: Ok(EventModel::Again),
        }
    } else {
        let fmt = ss.audio.unwrap();
        let offset = audio_offset(fmt.format) as int;
        if ds == 0 {
            StepRes { post: DemuxModel { buf: m.buf.skip(16), ..m }, out: Ok(EventModel::Again) }
        } else if ds < offset {
            StepRes {
                post: DemuxModel { buf: m.buf.skip(16 + ds - 1), ..m },
                out: Ok(EventModel::Again),
            }
        } else if ds == offset {
            // The payload would be negative-sized: absorb the tag.
            StepRes {
                post: DemuxModel { buf: m.buf.skip(15 + ds), ..m },
                out: Ok(EventModel::Again),
            }
        } else {
            let payload = m.buf.subrange(16 + offset, 15 + ds);
            let buffer = BufferModel {
                data: payload,
                pts: Some((th.timestamp * 1000000) as u64),
                dts: None,
                delta_unit: false,
            };
            StepRes {
                post: DemuxModel { buf: m.buf.skip(15 + ds), ..m },
                out: Ok(EventModel::BufferForStream(AUDIO_STREAM_ID, buffer)),
            }
        }
    }
}

/// The audio payload path: the AAC special case (caching a setup blob,
/// rejecting short packets, failing on a bad packet type), then the generic
/// path.
pub open spec fn audio_payload_step(m: DemuxModel, th: TagHeader, dh: AudioDataHeader) -> StepRes
    recommends
        wf(m),
        m.state is Streaming,
        m.buf.len() >= 15 + th.data_size,
{
    let ss = m.streaming.unwrap();
    let ds = th.data_size as int;
    if dh.sound_format == SoundFormat::Aac {
        if th.data_size < 2 {
            StepRes {
                post: DemuxModel { buf: m.buf.skip(15 + ds), ..m },
                out: Ok(EventModel::Again),
            }
        } else {
            match spec_parse_aac_packet_type(m.buf[16]) {
                None => StepRes { post: m, out: Err(FlowError::BadAacPacketHeader) },
                Some(AacPacketType::SequenceHeader) => {
                    let blob = m.buf.subrange(17, 15 + ds);
                    StepRes {
                        post: DemuxModel {
                            streaming: Some(
                                StreamingModel { aac_sequence_header: Some(blob), ..ss },
                            ),
                            buf: m.buf.skip(15 + ds),
                            ..m
                        },
                        out: Ok(EventModel::Again),
                    }
                },
                Some(AacPacketType::Raw) => audio_generic_step(m, th),
            }
        }
    } else {
        audio_generic_step(m, th)
    }
}

/// One audio tag: reconcile the format (possibly announcing a stream), then
/// wait for the whole tag, then extract the payload.
pub open spec fn audio_tag_step(m: DemuxModel, th: TagHeader, dh: AudioDataHeader) -> StepRes
    recommends
        wf(m),
        m.state is Streaming,
        m.buf.len() >= 16,
{
    let ss = m.streaming.unwrap();
    let nf = audio_format_of(dh, ss.metadata, ss.aac_sequence_header);
    let up = update_audio(ss, nf);
    let m1 = DemuxModel { streaming: Some(up.0), ..m };
    match up.1 {
        Some(ev) => StepRes { post: m1, out: Ok(ev) },
        None => {
            if m.buf.len() < 15 + th.data_size {
                StepRes { post: m1, out: Ok(EventModel::NeedMoreData) }
            } else {
                audio_payload_step(m1, th, dh)
            }
        },
    }
}

/// The generic video payload path, after the AVC special case: like the
/// audio one, but stamping both timestamps (the presentation time offset by
/// `cts`, clamped at zero) and the delta-unit flag for non-keyframes.
pub open spec fn video_generic_step(m: DemuxModel, th: TagHeader, dh: VideoDataHeader, cts: i32) -> StepRes
    recommends
        wf(m),
        m.state is Streaming,
        m.buf.len() >= 15 + th.data_size,
{
    let ss = m.streaming.unwrap();
    let ds = th.data_size as int;
    if ss.video is None {
        StepRes {
            post: DemuxModel { buf: m.buf.skip(15 + ds), ..m },
            out: Ok(EventModel::Again),
        }
    } else {
        let fmt = ss.video.unwrap();
        let offset = video_offset(fmt.format) as int;
        if ds == 0 {
            StepRes { post: DemuxModel { buf: m.buf.skip(16), ..m }, out: Ok(EventModel::Again) }
        } else if ds < offset {
            StepRes {
                post: DemuxModel { buf: m.buf.skip(16 + ds - 1), ..m },
                out: Ok(EventModel::Again),
            }
        } else if ds == offset {
            // The payload would be negative-sized: absorb the tag.
            StepRes {
                post: DemuxModel { buf: m.buf.skip(15 + ds), ..m },
                out: Ok(EventModel::Again),
            }
        } else {
            let payload = m.buf.subrange(16 + offset, 15 + ds);
            let pts_ms = if cts < 0 && th.timestamp < (-cts) as u32 {
                0int
            } else {
                th.timestamp + cts
            };
            let buffer = BufferModel {
                data: payload,
                pts: Some((pts_ms * 1000000) as u64),
                dts: Some((th.timestamp * 1000000) as u64),
                delta_unit: !(dh.frame_type == FrameType::Key),
            };
            StepRes {
                post: DemuxModel { buf: m.buf.skip(15 + ds), ..m },
                out: Ok(EventModel::BufferForStream(VIDEO_STREAM_ID, buffer)),
            }
        }
    }
}

/// The video payload path: the AVC special case (caching a setup blob,
/// skipping end-of-sequence packets, taking the composition time from a
/// NALU, failing on a bad packet type), then the generic path.
pub open spec fn video_payload_step(m: DemuxModel, th: TagHeader, dh: VideoDataHeader) -> StepRes
    recommends
        wf(m),
        m.state is Streaming,
        m.buf.len() >= 15 + th.data_size,
{
    let ss = m.streaming.unwrap();
    let ds = th.data_size as int;
    if dh.codec_id == CodecId::H264 {
        if th.data_size < 5 {
            StepRes {
                post: DemuxModel { buf: m.buf.skip(15 + ds), ..m },
                out: Ok(EventModel::Again),
            }
        } else {
            match spec_parse_avc_packet_header(m.buf.subrange(16, 20)) {
                None => StepRes { post: m, out: Err(FlowError::BadAvcPacketHeader) },
                Some(ph) => match ph.packet_type {
                    AvcPacketType::SequenceHeader => {
                        let blob = m.buf.subrange(20, 15 + ds);
                        StepRes {
                            post: DemuxModel {
                                streaming: Some(
                                    StreamingModel { avc_sequence_header: Some(blob), ..ss },
                                ),
                                buf: m.buf.skip(15 + ds),
                                ..m
                            },
                            out: Ok(EventModel::Again),
                        }
                    },
                    AvcPacketType::EndOfSequence => StepRes {
                        post: DemuxModel { buf: m.buf.skip(15 + ds), ..m },
                        out: Ok(EventModel::Again),
                    },
                    AvcPacketType::Nalu => video_generic_step(m, th, dh, ph.composition_time),
                },
            }
        }
    } else {
        video_generic_step(m, th, dh, 0)
    }
}

/// One video tag: reconcile the format, wait for the whole tag, extract the
/// payload.
pub open spec fn video_tag_step(m: DemuxModel, th: TagHeader, dh: VideoDataHeader) -> StepRes
    recommends
        wf(m),
        m.state is Streaming,
        m.buf.len() >= 16,
{
    let ss = m.streaming.unwrap();
    let nf = video_format_of(dh, ss.metadata, ss.avc_sequence_header);
    let up = update_video(ss, nf);
    let m1 = DemuxModel { streaming: Some(up.0), ..m };
    match up.1 {
        Some(ev) => StepRes { post: m1, out: Ok(ev) },
        None => {
            if m.buf.len() < 15 + th.data_size {
                StepRes { post: m1, out: Ok(EventModel::NeedMoreData) }
            } else {
                video_payload_step(m1, th, dh)
            }
        },
    }
}

/// The audio format after metadata refreshed its bitrate, and whether that
/// was a change.
pub open spec fn audio_after_metadata(a: Option<AudioFormatModel>, md: MetadataModel) -> (
    Option<AudioFormatModel>,
    bool,
) {
    match a {
        Some(f) => (
            Some(AudioFormatModel { bitrate: md.audio_bitrate, ..f }),
            f.bitrate != md.audio_bitrate,
        ),
        None => (None, false),
    }
}

/// The video format after metadata refreshed its size, aspect ratio,
/// framerate and bitrate, and whether any of them changed.
pub open spec fn video_after_metadata(v: Option<VideoFormatModel>, md: MetadataModel) -> (
    Option<VideoFormatModel>,
    bool,
) {
    match v {
        Some(f) => (
            Some(
                VideoFormatModel {
                    width: md.video_width,
                    height: md.video_height,
                    pixel_aspect_ratio: md.video_pixel_aspect_ratio,
                    framerate: md.video_framerate,
                    bitrate: md.video_bitrate,
                    ..f
                },
            ),
            !(f.width == md.video_width && f.height == md.video_height && f.pixel_aspect_ratio
                == md.video_pixel_aspect_ratio && f.framerate == md.video_framerate && f.bitrate
                == md.video_bitrate),
        ),
        None => (None, false),
    }
}

/// The streams announced by a `StreamsChanged` event: each changed side for
/// which caps can be synthesized.
pub open spec fn changed_streams(
    audio: Option<AudioFormatModel>,
    a_changed: bool,
    video: Option<VideoFormatModel>,
    v_changed: bool,
) -> Seq<StreamModel> {
    let a_part: Seq<StreamModel> = if a_changed {
        match audio {
            Some(f) => match audio_caps_of(f) {
                Some(c) => seq![
                    StreamModel { id: AUDIO_STREAM_ID, caps: CapsModel::Audio(c) },
                ],
                None => Seq::empty(),
            },
            None => Seq::empty(),
        }
    } else {
        Seq::empty()
    };
    let v_part: Seq<StreamModel> = if v_changed {
        match video {
            Some(f) => match video_caps_of(f) {
                Some(c) => seq![
                    StreamModel { id: VIDEO_STREAM_ID, caps: CapsModel::Video(c) },
                ],
                None => Seq::empty(),
            },
            None => Seq::empty(),
        }
    } else {
        Seq::empty()
    };
    a_part + v_part
}

/// The properties carried by a script record: those of an object or ECMA
/// array argument, none otherwise.
pub open spec fn record_props(args: ScriptArgsModel) -> Seq<AmfPropertyModel> {
    match args {
        ScriptArgsModel::Props(ps) => ps,
        ScriptArgsModel::Flat => Seq::empty(),
    }
}

/// One script tag: wait for the whole tag, consume it, and on a well-formed
/// `onMetaData` record merge the metadata into the published formats,
/// announcing the sides whose description changed. Anything else (another
/// record name, or a malformed record) is ignored.
pub open spec fn script_tag_step(m: DemuxModel, th: TagHeader) -> StepRes
    recommends
        wf(m),
        m.state is Streaming,
        m.buf.len() >= 16,
{
    let ds = th.data_size as int;
    if m.buf.len() < 15 + th.data_size {
        StepRes { post: m, out: Ok(EventModel::NeedMoreData) }
    } else {
        let data = m.buf.subrange(15, 15 + ds);
        let consumed = DemuxModel { buf: m.buf.skip(15 + ds), ..m };
        match spec_parse_script(data) {
            Some(rec) => {
                if rec.name == key_on_meta_data() {
                    let md = metadata_of_props(record_props(rec.args));
                    let ss = m.streaming.unwrap();
                    let au = audio_after_metadata(ss.audio, md);
                    let vu = video_after_metadata(ss.video, md);
                    let ss2 = StreamingModel {
                        audio: au.0,
                        video: vu.0,
                        metadata: Some(md),
                        ..ss
                    };
                    let post = DemuxModel { streaming: Some(ss2), ..consumed };
                    if au.1 || vu.1 {
                        StepRes {
                            post,
                            out: Ok(
                                EventModel::StreamsChanged(
                                    changed_streams(au.0, au.1, vu.0, vu.1),
                                ),
                            ),
                        }
                    } else {
                        StepRes { post, out: Ok(EventModel::Again) }
                    }
                } else {
                    StepRes { post: consumed, out: Ok(EventModel::Again) }
                }
            },
            None => StepRes { post: consumed, out: Ok(EventModel::Again) },
        }
    }
}

/// Raises the monotonic position to an emitted buffer's presentation
/// timestamp (or decode timestamp when there is none).
pub open spec fn bump_position(m: DemuxModel, b: BufferModel) -> DemuxModel {
    match m.streaming {
        Some(ss) => {
            let ts = match b.pts {
                Some(p) => Some(p),
                None => b.dts,
            };
            match ts {
                Some(t) => DemuxModel {
                    streaming: Some(
                        StreamingModel {
                            last_position: match ss.last_position {
                                Some(lp) => if lp >= t {
                                    Some(lp)
                                } else {
                                    Some(t)
                                },
                                None => Some(t),
                            },
                            ..ss
                        },
                    ),
                    ..m
                },
                None => m,
            }
        },
        None => m,
    }
}

/// One tag of the streaming loop: peek 16 bytes, dispatch on the tag type,
/// and raise the position when a buffer came out. A malformed tag header or
/// data header is fatal.
pub open spec fn streaming_step(m: DemuxModel) -> StepRes
    recommends
        wf(m),
        m.state is Streaming,
{
    if m.buf.len() < 16 {
        StepRes { post: m, out: Ok(EventModel::NeedMoreData) }
    } else {
        match spec_parse_tag_header(m.buf.subrange(4, 15)) {
            None => StepRes { post: m, out: Err(FlowError::BadTagHeader) },
            Some(th) => {
                let r = match th.tag_type {
                    TagType::Script => script_tag_step(m, th),
                    TagType::Audio => match spec_parse_audio_data_header(m.buf[15]) {
                        None => StepRes { post: m, out: Err(FlowError::BadAudioDataHeader) },
                        Some(dh) => audio_tag_step(m, th, dh),
                    },
                    TagType::Video => match spec_parse_video_data_header(m.buf[15]) {
                        None => StepRes { post: m, out: Err(FlowError::BadVideoDataHeader) },
                        Some(dh) => video_tag_step(m, th, dh),
                    },
                };
                match r.out {
                    Ok(EventModel::BufferForStream(id, b)) => StepRes {
                        post: bump_position(r.post, b),
                        out: r.out,
                    },
                    _ => r,
                }
            },
        }
    }
}

/// One poll of the event loop. In `NeedHeader` the buffer is scanned
/// byte-by-byte for a file header; in `Skipping` declared padding is
/// discarded; in `Streaming` one tag is handled. Exactly one event comes
/// out per poll.
pub open spec fn step(m: DemuxModel) -> StepRes
    recommends
        wf(m),
        !(m.state is Stopped),
{
    match m.state {
        State::Stopped => StepRes { post: m, out: Ok(EventModel::NeedMoreData) },
        State::NeedHeader => {
            let sc = scan_header(m.buf);
            match sc.1 {
                None => StepRes {
                    post: DemuxModel { buf: m.buf.skip(sc.0 as int), ..m },
                    out: Ok(EventModel::NeedMoreData),
                },
                Some(h) => StepRes {
                    post: DemuxModel {
                        state: State::Skipping {
                            audio: h.audio,
                            video: h.video,
                            skip_left: if h.offset < 9 {
                                0u32
                            } else {
                                (h.offset - 9) as u32
                            },
                        },
                        streaming: m.streaming,
                        buf: m.buf.skip(sc.0 as int + 9),
                    },
                    out: Ok(EventModel::Again),
                },
            }
        },
        State::Skipping { audio, video, skip_left } => {
            if skip_left == 0 {
                StepRes {
                    post: DemuxModel {
                        state: State::Streaming,
                        streaming: Some(init_streaming(audio, video)),
                        buf: m.buf,
                    },
                    out: Ok(EventModel::Again),
                }
            } else {
                let k = if m.buf.len() < skip_left {
                    m.buf.len() as int
                } else {
                    skip_left as int
                };
                StepRes {
                    post: DemuxModel {
                        state: State::Skipping {
                            audio,
                            video,
                            skip_left: (skip_left - k) as u32,
                        },
                        streaming: m.streaming,
                        buf: m.buf.skip(k),
                    },
                    out: Ok(EventModel::Again),
                }
            }
        },
        State::Streaming => streaming_step(m),
    }
}

} // verus!
