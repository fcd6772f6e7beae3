//! Laws of the demuxer, proved about the step function of
//! [`crate::machine`].

use vstd::prelude::*;
use crate::machine::{
    DemuxModel, State, StepRes, StreamingModel, audio_generic_step, audio_tag_step, scan_header,
    step, update_audio, update_video, video_generic_step, video_tag_step, video_offset,
    audio_offset, wf,
};
use crate::format::{
    AudioFormatModel, VideoFormatModel, AudioCapsModel, AudioCapsKindModel, VideoCapsModel,
    VideoCapsKindModel, audio_format_of, video_format_of, audio_same, video_same,
    metadata_of_props, metadata_scan, apply_prop, init_scan, MetaScan, key_duration,
    key_aspect_ratio_x, key_aspect_ratio_y,
};
use crate::fbits::spec_f64_seconds_to_ns;
use crate::events::{EventModel, StreamModel, CapsModel, FlowError};
use crate::tags::{TagHeader, AudioDataHeader, VideoDataHeader, FrameType};
use crate::amf::{AmfPropertyModel, AmfValueModel};
use crate::{AUDIO_STREAM_ID, VIDEO_STREAM_ID};

verus! {

/// Ordering on optional positions: absent counts as the least value.
pub open spec fn pos_le(a: Option<u64>, b: Option<u64>) -> bool {
    match a {
        None => true,
        Some(x) => match b {
            Some(y) => x <= y,
            None => false,
        },
    }
}

/// The monotonic-position law: while streaming, one step never lowers the
/// reported position.
pub proof fn lemma_monotonic_position(m: DemuxModel)
    requires
        wf(m),
        m.state is Streaming,
    ensures
        step(m).post.streaming is Some,
        pos_le(
            m.streaming.unwrap().last_position,
            step(m).post.streaming.unwrap().last_position,
        ),
{
}

/// Two audio formats that differ only in their bitrate are the same stream.
pub proof fn lemma_audio_bitrate_ignored(f: AudioFormatModel, bitrate: Option<u32>)
    ensures
        audio_same(f, AudioFormatModel { bitrate, ..f }),
{
}

/// Two video formats that differ only in their bitrate are the same stream.
pub proof fn lemma_video_bitrate_ignored(f: VideoFormatModel, bitrate: Option<u32>)
    ensures
        video_same(f, VideoFormatModel { bitrate, ..f }),
{
}

/// The bitrate-only-silence law: an audio tag whose prospective format is
/// the published one up to bitrate announces no added or changed stream.
pub proof fn lemma_bitrate_only_change_is_silent(m: DemuxModel, th: TagHeader, dh: AudioDataHeader)
    requires
        wf(m),
        m.state is Streaming,
        ({
            let ss = m.streaming.unwrap();
            match ss.audio {
                Some(a) => audio_same(
                    a,
                    audio_format_of(dh, ss.metadata, ss.aac_sequence_header),
                ),
                None => false,
            }
        }),
    ensures
        !(audio_tag_step(m, th, dh).out matches Ok(EventModel::StreamAdded(_))),
        !(audio_tag_step(m, th, dh).out matches Ok(EventModel::StreamChanged(_))),
{
}

/// The setup-before-announcement law for AAC: an announced audio stream
/// whose caps carry an AAC setup blob can only have taken it from the cached
/// sequence header, which therefore had been seen.
pub proof fn lemma_aac_setup_before_announcement(
    m: DemuxModel,
    th: TagHeader,
    dh: AudioDataHeader,
    s: StreamModel,
    c: AudioCapsModel,
    blob: Seq<u8>,
)
    requires
        wf(m),
        m.state is Streaming,
        audio_tag_step(m, th, dh).out == Ok::<EventModel, FlowError>(EventModel::StreamAdded(s))
            || audio_tag_step(m, th, dh).out == Ok::<EventModel, FlowError>(
            EventModel::StreamChanged(s),
        ),
        s.caps == CapsModel::Audio(c),
        c.kind == (AudioCapsKindModel::AacFramedRaw { codec_data: blob }),
    ensures
        m.streaming.unwrap().aac_sequence_header == Some(blob),
{
}

/// The setup-before-announcement law for H.264: an announced video stream
/// whose caps carry an AVC setup blob can only have taken it from the cached
/// sequence header.
pub proof fn lemma_avc_setup_before_announcement(
    m: DemuxModel,
    th: TagHeader,
    dh: VideoDataHeader,
    s: StreamModel,
    c: VideoCapsModel,
    blob: Seq<u8>,
)
    requires
        wf(m),
        m.state is Streaming,
        video_tag_step(m, th, dh).out == Ok::<EventModel, FlowError>(EventModel::StreamAdded(s))
            || video_tag_step(m, th, dh).out == Ok::<EventModel, FlowError>(
            EventModel::StreamChanged(s),
        ),
        s.caps == CapsModel::Video(c),
        c.kind == (VideoCapsKindModel::H264Avc { codec_data: blob }),
    ensures
        m.streaming.unwrap().avc_sequence_header == Some(blob),
{
}

/// The timestamp, keyframe and payload-offset laws for video: a buffer
/// emitted by the generic video path decodes at `t` milliseconds and
/// presents at `t + c`, clamped at zero; non-keyframes carry the delta-unit
/// flag; and the payload drops the tag preamble, the codec byte, and the
/// codec's extra offset.
pub proof fn lemma_video_buffer_facts(m: DemuxModel, th: TagHeader, dh: VideoDataHeader, cts: i32)
    requires
        wf(m),
        m.state is Streaming,
        m.buf.len() >= 15 + th.data_size,
        th.data_size <= 0xffffff,
        -0x800000 <= cts <= 0x7fffff,
    ensures
        ({
            let r = video_generic_step(m, th, dh, cts);
            match r.out {
                Ok(EventModel::BufferForStream(id, b)) => {
                    let fmt = m.streaming.unwrap().video.unwrap().format;
                    let offset = video_offset(fmt) as int;
                    &&& id == VIDEO_STREAM_ID
                    &&& b.dts == Some((th.timestamp * 1000000) as u64)
                    &&& (cts >= 0 || th.timestamp + cts >= 0 ==> th.timestamp + cts >= 0 && (
                    th.timestamp + cts) * 1000000 <= u64::MAX && b.pts == Some(
                        ((th.timestamp + cts) * 1000000) as u64,
                    ))
                    &&& (cts < 0 && th.timestamp + cts < 0 ==> b.pts == Some(0u64))
                    &&& b.delta_unit == (dh.frame_type != FrameType::Key)
                    &&& b.data == m.buf.subrange(16 + offset, 15 + th.data_size)
                    &&& b.data.len() == th.data_size - 1 - offset
                },
                _ => true,
            }
        }),
{
}

/// The payload-offset law for audio: a buffer emitted by the generic audio
/// path drops the tag preamble, the codec byte, and one more byte for AAC
/// (its packet type); it presents at the tag's timestamp.
pub proof fn lemma_audio_buffer_facts(m: DemuxModel, th: TagHeader)
    requires
        wf(m),
        m.state is Streaming,
        m.buf.len() >= 15 + th.data_size,
        th.data_size <= 0xffffff,
    ensures
        ({
            let r = audio_generic_step(m, th);
            match r.out {
                Ok(EventModel::BufferForStream(id, b)) => {
                    let fmt = m.streaming.unwrap().audio.unwrap().format;
                    let offset = audio_offset(fmt) as int;
                    &&& id == AUDIO_STREAM_ID
                    &&& b.pts == Some((th.timestamp * 1000000) as u64)
                    &&& b.dts is None
                    &&& b.delta_unit == false
                    &&& b.data == m.buf.subrange(16 + offset, 15 + th.data_size)
                    &&& b.data.len() == th.data_size - 1 - offset
                },
                _ => true,
            }
        }),
{
}

/// The raw bits of the last number-valued `duration` property, if any.
pub open spec fn last_duration_bits(props: Seq<AmfPropertyModel>) -> Option<u64>
    decreases props.len(),
{
    if props.len() == 0 {
        None
    } else {
        let last = props.last();
        match last.value {
            AmfValueModel::Number(bits) => if last.name == key_duration() {
                Some(bits)
            } else {
                last_duration_bits(props.drop_last())
            },
            _ => last_duration_bits(props.drop_last()),
        }
    }
}

/// Scanning properties leaves the duration at the last `duration` number,
/// or at what it already was.
proof fn lemma_scan_duration(props: Seq<AmfPropertyModel>, st: MetaScan)
    ensures
        metadata_scan(props, st).md.duration == (match last_duration_bits(props) {
            Some(b) => Some(spec_f64_seconds_to_ns(b)),
            None => st.md.duration,
        }),
    decreases props.len(),
{
    if props.len() == 0 {
    } else {
        let shorter = props.drop_last();
        let last = props.last();
        assert(props =~= shorter.push(last));
        crate::format::lemma_scan_snoc(shorter, st, last);
        lemma_scan_duration(shorter, st);
    }
}

/// The duration law: the metadata read from `onMetaData` properties reports
/// `round(d * 10^9)` nanoseconds for the last duration value `d`, and no
/// duration when the key never appears with a number.
pub proof fn lemma_duration_metadata(props: Seq<AmfPropertyModel>)
    ensures
        metadata_of_props(props).duration == (match last_duration_bits(props) {
            Some(b) => Some(spec_f64_seconds_to_ns(b)),
            None => None::<u64>,
        }),
{
    lemma_scan_duration(props, init_scan());
}

/// Whether some property is a number named `AspectRatioX`.
pub open spec fn has_par_x(props: Seq<AmfPropertyModel>) -> bool {
    exists|i: int|
        0 <= i < props.len() && props[i].name == key_aspect_ratio_x() && props[i].value is Number
}

/// Whether some property is a number named `AspectRatioY`.
pub open spec fn has_par_y(props: Seq<AmfPropertyModel>) -> bool {
    exists|i: int|
        0 <= i < props.len() && props[i].name == key_aspect_ratio_y() && props[i].value is Number
}

/// Without an `AspectRatioX` number the scan never sets the numerator half.
proof fn lemma_scan_par_n(props: Seq<AmfPropertyModel>, st: MetaScan)
    requires
        !has_par_x(props),
    ensures
        metadata_scan(props, st).par_n == st.par_n,
    decreases props.len(),
{
    if props.len() == 0 {
    } else {
        assert(!(props[0].name == key_aspect_ratio_x() && props[0].value is Number));
        assert(!has_par_x(props.drop_first())) by {
            if has_par_x(props.drop_first()) {
                let i = choose|i: int|
                    0 <= i < props.drop_first().len() && props.drop_first()[i].name
                        == key_aspect_ratio_x() && props.drop_first()[i].value is Number;
                assert(props[i + 1].name == key_aspect_ratio_x() && props[i + 1].value is Number);
            }
        }
        lemma_scan_par_n(props.drop_first(), apply_prop(st, props[0]));
    }
}

/// Without an `AspectRatioY` number the scan never sets the denominator
/// half.
proof fn lemma_scan_par_d(props: Seq<AmfPropertyModel>, st: MetaScan)
    requires
        !has_par_y(props),
    ensures
        metadata_scan(props, st).par_d == st.par_d,
    decreases props.len(),
{
    if props.len() == 0 {
    } else {
        assert(!(props[0].name == key_aspect_ratio_y() && props[0].value is Number));
        assert(!has_par_y(props.drop_first())) by {
            if has_par_y(props.drop_first()) {
                let i = choose|i: int|
                    0 <= i < props.drop_first().len() && props.drop_first()[i].name
                        == key_aspect_ratio_y() && props.drop_first()[i].value is Number;
                assert(props[i + 1].name == key_aspect_ratio_y() && props[i + 1].value is Number);
            }
        }
        lemma_scan_par_d(props.drop_first(), apply_prop(st, props[0]));
    }
}

/// Reading properties never touches the combined pixel-aspect-ratio field:
/// only the final combination of both halves can set it.
proof fn lemma_scan_keeps_par_field(props: Seq<AmfPropertyModel>, st: MetaScan)
    ensures
        metadata_scan(props, st).md.video_pixel_aspect_ratio
            == st.md.video_pixel_aspect_ratio,
    decreases props.len(),
{
    if props.len() == 0 {
    } else {
        lemma_scan_keeps_par_field(props.drop_first(), apply_prop(st, props[0]));
    }
}

/// The aspect-ratio gating law: metadata carrying only one of
/// `AspectRatioX`/`AspectRatioY` publishes no pixel aspect ratio.
pub proof fn lemma_par_gating(props: Seq<AmfPropertyModel>)
    requires
        !has_par_x(props) || !has_par_y(props),
    ensures
        metadata_of_props(props).video_pixel_aspect_ratio is None,
{
    lemma_scan_keeps_par_field(props, init_scan());
    if !has_par_x(props) {
        lemma_scan_par_n(props, init_scan());
    } else {
        lemma_scan_par_d(props, init_scan());
    }
}

/// When the header scan gives up, fewer than 9 bytes are left past the
/// flushed prefix.
proof fn lemma_scan_none_short(buf: Seq<u8>)
    requires
        scan_header(buf).1 is None,
    ensures
        buf.len() - scan_header(buf).0 < 9,
        scan_header(buf).0 <= buf.len(),
    decreases buf.len(),
{
    if buf.len() < 9 {
    } else {
        lemma_scan_none_short(buf.skip(1));
    }
}

/// A reconcile that announced nothing neither changed what the next
/// reconcile reads nor will announce next time: the fields the prospective
/// format is built from are untouched, and reconciling again is a no-op.
proof fn lemma_update_audio_idempotent(ss: StreamingModel, nf: AudioFormatModel)
    requires
        update_audio(ss, nf).1 is None,
    ensures
        ({
            let ss1 = update_audio(ss, nf).0;
            &&& ss1.metadata == ss.metadata
            &&& ss1.aac_sequence_header == ss.aac_sequence_header
            &&& ss1.avc_sequence_header == ss.avc_sequence_header
            &&& update_audio(ss1, nf).0 == ss1
            &&& update_audio(ss1, nf).1 is None
        }),
{
    let ss1 = update_audio(ss, nf).0;
    assert(update_audio(ss1, nf).0 =~= ss1);
}

/// The video counterpart of [`lemma_update_audio_idempotent`].
proof fn lemma_update_video_idempotent(ss: StreamingModel, nf: VideoFormatModel)
    requires
        update_video(ss, nf).1 is None,
    ensures
        ({
            let ss1 = update_video(ss, nf).0;
            &&& ss1.metadata == ss.metadata
            &&& ss1.aac_sequence_header == ss.aac_sequence_header
            &&& ss1.avc_sequence_header == ss.avc_sequence_header
            &&& update_video(ss1, nf).0 == ss1
            &&& update_video(ss1, nf).1 is None
        }),
{
    let ss1 = update_video(ss, nf).0;
    assert(update_video(ss1, nf).0 =~= ss1);
}

/// The idempotent-polling law: a poll that answered `NeedMoreData` leaves
/// the demuxer where polling again, with no new bytes, answers
/// `NeedMoreData` again and changes nothing.
#[verifier::rlimit(60)]
pub proof fn lemma_idempotent_polling(m: DemuxModel)
    requires
        wf(m),
        !(m.state is Stopped),
        step(m).out == Ok::<EventModel, FlowError>(EventModel::NeedMoreData),
    ensures
        step(step(m).post).post == step(m).post,
        step(step(m).post).out == Ok::<EventModel, FlowError>(EventModel::NeedMoreData),
{
    let p = step(m).post;
    match m.state {
        State::Stopped => {},
        State::NeedHeader => {
            lemma_scan_none_short(m.buf);
            assert(p.buf =~= m.buf.skip(scan_header(m.buf).0 as int));
            assert(p.buf.len() < 9);
            assert(p.buf.skip(0) =~= p.buf);
            assert(step(p).post =~= p);
        },
        State::Skipping { .. } => {},
        State::Streaming => {
            if m.buf.len() < 16 {
                assert(step(p).post =~= p);
            } else {
                match crate::tags::spec_parse_tag_header(m.buf.subrange(4, 15)) {
                    None => {},
                    Some(th) => {
                        match th.tag_type {
                            crate::tags::TagType::Script => {
                                assert(step(p).post =~= p);
                            },
                            crate::tags::TagType::Audio => {
                                match crate::tags::spec_parse_audio_data_header(m.buf[15]) {
                                    None => {},
                                    Some(dh) => {
                                        let ss = m.streaming.unwrap();
                                        let nf = audio_format_of(
                                            dh,
                                            ss.metadata,
                                            ss.aac_sequence_header,
                                        );
                                        lemma_update_audio_idempotent(ss, nf);
                                        assert(step(p).post =~= p);
                                    },
                                }
                            },
                            crate::tags::TagType::Video => {
                                match crate::tags::spec_parse_video_data_header(m.buf[15]) {
                                    None => {},
                                    Some(dh) => {
                                        let ss = m.streaming.unwrap();
                                        let nf = video_format_of(
                                            dh,
                                            ss.metadata,
                                            ss.avc_sequence_header,
                                        );
                                        lemma_update_video_idempotent(ss, nf);
                                        assert(step(p).post =~= p);
                                    },
                                }
                            },
                        }
                    },
                }
            }
        },
    }
}

/// The demuxer with more bytes pushed behind the buffered ones.
pub open spec fn with_more(m: DemuxModel, ext: Seq<u8>) -> DemuxModel {
    DemuxModel { buf: m.buf + ext, ..m }
}

/// A found header stays found, at the same place, when bytes are appended.
proof fn lemma_scan_extend_found(buf: Seq<u8>, ext: Seq<u8>)
    requires
        scan_header(buf).1 is Some,
    ensures
        scan_header(buf + ext) == scan_header(buf),
        scan_header(buf).0 + 9 <= buf.len(),
    decreases buf.len(),
{
    assert(buf.len() >= 9);
    assert((buf + ext).subrange(0, 9) =~= buf.subrange(0, 9));
    match crate::tags::spec_parse_file_header(buf.subrange(0, 9)) {
        Some(_) => {},
        None => {
            assert((buf + ext).skip(1) =~= buf.skip(1) + ext);
            lemma_scan_extend_found(buf.skip(1), ext);
        },
    }
}

/// When the header scan gave up, appending bytes resumes it exactly where
/// it stopped: the flushed prefixes add up and the verdict is that of the
/// remainder with the new bytes behind it.
proof fn lemma_scan_extend_none(buf: Seq<u8>, ext: Seq<u8>)
    requires
        scan_header(buf).1 is None,
    ensures
        ({
            let k = scan_header(buf).0;
            let cont = scan_header(buf.skip(k as int) + ext);
            scan_header(buf + ext).0 == k + cont.0 && scan_header(buf + ext).1 == cont.1
        }),
    decreases buf.len(),
{
    lemma_scan_none_short(buf);
    if buf.len() < 9 {
        assert(buf.skip(0) =~= buf);
    } else {
        assert((buf + ext).subrange(0, 9) =~= buf.subrange(0, 9));
        assert((buf + ext).skip(1) =~= buf.skip(1) + ext);
        lemma_scan_extend_none(buf.skip(1), ext);
        assert(buf.skip(1).skip(scan_header(buf.skip(1)).0 as int) =~= buf.skip(
            1 + scan_header(buf.skip(1)).0 as int,
        ));
        assert(buf.skip(scan_header(buf).0 as int) =~= buf.skip(1).skip(
            scan_header(buf.skip(1)).0 as int,
        ));
    }
}

/// The chunk-boundary law for the tag loop: when a poll answered
/// `NeedMoreData` mid-tag (or stopped at a fatal record), feeding more
/// bytes and polling does exactly what one poll would have done had all the
/// bytes been there from the start. The aborted poll's only effect — an
/// already-reconciled stream format — changes nothing, because reconciling
/// is idempotent.
#[verifier::rlimit(100)]
pub proof fn lemma_stalled_poll_resumes(m: DemuxModel, ext: Seq<u8>)
    requires
        wf(m),
        m.state is Streaming,
        step(m).out == Ok::<EventModel, FlowError>(EventModel::NeedMoreData) || step(
            m,
        ).out is Err,
    ensures
        step(with_more(step(m).post, ext)) == step(with_more(m, ext)),
{
    if m.buf.len() < 16 {
    } else {
        let e = with_more(m, ext);
        let p = step(m).post;
        let pe = with_more(p, ext);
        assert(pe.buf =~= e.buf);
        match crate::tags::spec_parse_tag_header(m.buf.subrange(4, 15)) {
            None => {},
            Some(th) => {
                assert(e.buf.subrange(4, 15) =~= m.buf.subrange(4, 15));
                assert(e.buf[15] == m.buf[15]);
                match th.tag_type {
                    crate::tags::TagType::Script => {},
                    crate::tags::TagType::Audio => {
                        match crate::tags::spec_parse_audio_data_header(m.buf[15]) {
                            None => {},
                            Some(dh) => {
                                let ss = m.streaming.unwrap();
                                let nf = audio_format_of(dh, ss.metadata, ss.aac_sequence_header);
                                lemma_update_audio_idempotent(ss, nf);
                                assert(step(pe) =~= step(e));
                            },
                        }
                    },
                    crate::tags::TagType::Video => {
                        match crate::tags::spec_parse_video_data_header(m.buf[15]) {
                            None => {},
                            Some(dh) => {
                                let ss = m.streaming.unwrap();
                                let nf = video_format_of(dh, ss.metadata, ss.avc_sequence_header);
                                lemma_update_video_idempotent(ss, nf);
                                assert(step(pe) =~= step(e));
                            },
                        }
                    },
                }
            },
        }
    }
}

/// The chunking-independence law, for the streaming tag loop and the header
/// search: a poll that made progress (anything but `NeedMoreData`) does
/// exactly the same with more bytes buffered behind — same event, same
/// consumption, same state, the extra bytes untouched. Together with the
/// idempotent-polling law this says the tag loop's decisions depend only on
/// the bytes it consumes, never on how they arrived.
#[verifier::rlimit(100)]
pub proof fn lemma_step_extend(m: DemuxModel, ext: Seq<u8>)
    requires
        wf(m),
        m.state is NeedHeader || m.state is Streaming,
        !(step(m).out == Ok::<EventModel, FlowError>(EventModel::NeedMoreData)),
    ensures
        step(with_more(m, ext)) == (StepRes {
            post: with_more(step(m).post, ext),
            out: step(m).out,
        }),
{
    let e = with_more(m, ext);
    if m.state is NeedHeader {
        lemma_scan_extend_found(m.buf, ext);
        assert((m.buf + ext).skip(scan_header(m.buf).0 as int + 9) =~= m.buf.skip(
            scan_header(m.buf).0 as int + 9,
        ) + ext);
        assert(step(e) =~= (StepRes { post: with_more(step(m).post, ext), out: step(m).out }));
    } else {
        assert(m.buf.len() >= 16);
        assert(e.buf.subrange(4, 15) =~= m.buf.subrange(4, 15));
        assert(e.buf[15] == m.buf[15]);
        match crate::tags::spec_parse_tag_header(m.buf.subrange(4, 15)) {
            None => {
                assert(step(e) =~= (StepRes {
                    post: with_more(step(m).post, ext),
                    out: step(m).out,
                }));
            },
            Some(th) => {
                let ds = th.data_size as int;
                if m.buf.len() >= 15 + ds {
                    assert(e.buf.subrange(15, 15 + ds) =~= m.buf.subrange(15, 15 + ds));
                    assert(e.buf.skip(15 + ds) =~= m.buf.skip(15 + ds) + ext);
                    assert(e.buf.skip(16) =~= m.buf.skip(16) + ext);
                    assert(e.buf.skip(16 + ds - 1) =~= m.buf.skip(16 + ds - 1) + ext);
                    if m.buf.len() >= 17 {
                        assert(e.buf[16] == m.buf[16]);
                    }
                    if ds >= 2 && m.buf.len() >= 17 {
                        assert(e.buf.subrange(17, 15 + ds) =~= m.buf.subrange(17, 15 + ds));
                    }
                    if m.buf.len() >= 20 {
                        assert(e.buf.subrange(16, 20) =~= m.buf.subrange(16, 20));
                    }
                    if ds >= 5 && m.buf.len() >= 20 {
                        assert(e.buf.subrange(20, 15 + ds) =~= m.buf.subrange(20, 15 + ds));
                    }
                    if ds >= 1 {
                        assert(e.buf.subrange(16, 15 + ds) =~= m.buf.subrange(16, 15 + ds));
                    }
                }
                assert(step(e) =~= (StepRes {
                    post: with_more(step(m).post, ext),
                    out: step(m).out,
                }));
            },
        }
    }
}

/// What driving the event loop to quiescence yields: the events emitted (in
/// order, `Again` contributing none), the demuxer afterwards, and whether
/// quiescence — a `NeedMoreData`, a fatal error, or an `Again` that made no
/// progress — was reached before the fuel ran out.
#[verifier::ext_equal]
pub struct RunRes {
    pub events: Seq<EventModel>,
    pub post: DemuxModel,
    pub done: bool,
}

/// Polls repeatedly, collecting events, until quiescence or out of fuel.
pub open spec fn run(m: DemuxModel, fuel: nat) -> RunRes
    decreases fuel,
{
    let s = step(m);
    match s.out {
        Ok(ev) => if ev is NeedMoreData || (ev is Again && s.post == m) {
            RunRes { events: Seq::<EventModel>::empty(), post: s.post, done: true }
        } else if fuel == 0 {
            RunRes { events: Seq::<EventModel>::empty(), post: m, done: false }
        } else {
            let rest = run(s.post, (fuel - 1) as nat);
            RunRes {
                events: (if ev is Again {
                    Seq::<EventModel>::empty()
                } else {
                    seq![ev]
                }) + rest.events,
                post: rest.post,
                done: rest.done,
            }
        },
        Err(_) => RunRes { events: Seq::<EventModel>::empty(), post: s.post, done: true },
    }
}

/// Once a run reached quiescence, more fuel changes nothing.
proof fn lemma_run_fuel_mono(m: DemuxModel, f: nat, g: nat)
    requires
        run(m, f).done,
        f <= g,
    ensures
        run(m, g) == run(m, f),
    decreases f,
{
    let s = step(m);
    match s.out {
        Ok(ev) => {
            if ev is NeedMoreData || (ev is Again && s.post == m) {
            } else {
                lemma_run_fuel_mono(s.post, (f - 1) as nat, (g - 1) as nat);
                assert(run(m, g) =~= run(m, f));
            }
        },
        Err(_) => {},
    }
}

/// A poll of the streaming state stays in it.
proof fn lemma_streaming_step_stays(m: DemuxModel)
    requires
        wf(m),
        m.state is Streaming,
    ensures
        step(m).post.state is Streaming,
        wf(step(m).post),
{
}

/// Two demuxers whose next polls are equal run to the same quiescence.
proof fn lemma_run_congruence(a: DemuxModel, b: DemuxModel, fa: nat, fb: nat)
    requires
        step(a) == step(b),
        run(b, fb).done,
        fb < fa,
    ensures
        run(a, fa) == run(b, fb),
{
    let s = step(a);
    match s.out {
        Ok(ev) => {
            if ev is NeedMoreData {
            } else if ev is Again && s.post == a && s.post == b {
            } else if ev is Again && s.post == b {
                // `b` stops without progress; `a` takes one step to `b` and
                // then stops there the same way.
                assert(run(s.post, (fa - 1) as nat) =~= run(b, fb));
                assert(run(a, fa) =~= run(b, fb));
            } else if ev is Again && s.post == a {
                // `a` stops without progress; `b` takes one step to `a` and
                // then stops there the same way.
                assert(run(b, fb).done);
                assert(run(s.post, (fb - 1) as nat) =~= run(a, fa));
                assert(run(b, fb) =~= run(a, fa));
            } else {
                // both step to the same state; fuel does not matter past
                // quiescence
                lemma_run_fuel_mono(s.post, (fb - 1) as nat, (fa - 1) as nat);
                assert(run(a, fa) =~= run(b, fb));
            }
        },
        Err(_) => {},
    }
}

/// The chunking-independence law for the tag loop: splitting the input at
/// any point changes nothing. Driving the loop to quiescence on some bytes
/// and then, with more bytes behind them, driving it to quiescence again
/// yields exactly the events — in order — and the state of driving it once
/// with all the bytes buffered from the start.
pub proof fn lemma_chunking_independence(m: DemuxModel, ext: Seq<u8>, f1: nat, f2: nat)
    requires
        wf(m),
        m.state is Streaming,
        run(m, f1).done,
        run(with_more(run(m, f1).post, ext), f2).done,
    ensures
        ({
            let r1 = run(m, f1);
            let r2 = run(with_more(r1.post, ext), f2);
            let rw = run(with_more(m, ext), (f1 + f2 + 1) as nat);
            rw.events == r1.events + r2.events && rw.post == r2.post && rw.done
        }),
    decreases f1,
{
    let s = step(m);
    let r1 = run(m, f1);
    let r2 = run(with_more(r1.post, ext), f2);
    let e = with_more(m, ext);
    match s.out {
        Ok(ev) => {
            if ev is NeedMoreData {
                lemma_stalled_poll_resumes(m, ext);
                lemma_run_congruence(e, with_more(s.post, ext), (f1 + f2 + 1) as nat, f2);
                assert(run(e, (f1 + f2 + 1) as nat).events =~= r1.events + r2.events);
            } else if ev is Again && s.post == m {
                assert(with_more(s.post, ext) == e);
                lemma_run_fuel_mono(e, f2, (f1 + f2 + 1) as nat);
                assert(run(e, (f1 + f2 + 1) as nat).events =~= r1.events + r2.events);
            } else {
                lemma_step_extend(m, ext);
                lemma_streaming_step_stays(m);
                lemma_chunking_independence(s.post, ext, (f1 - 1) as nat, f2);
                let rest1 = run(s.post, (f1 - 1) as nat);
                let restw = run(with_more(s.post, ext), (f1 + f2) as nat);
                assert(run(e, (f1 + f2 + 1) as nat).events =~= (if ev is Again {
                    Seq::<EventModel>::empty()
                } else {
                    seq![ev]
                }) + restw.events);
                assert((if ev is Again {
                    Seq::<EventModel>::empty()
                } else {
                    seq![ev]
                }) + (rest1.events + r2.events) =~= r1.events + r2.events);
            }
        },
        Err(_) => {
            lemma_stalled_poll_resumes(m, ext);
            lemma_run_congruence(e, with_more(s.post, ext), (f1 + f2 + 1) as nat, f2);
            assert(run(e, (f1 + f2 + 1) as nat).events =~= r1.events + r2.events);
        },
    }
}

/// The padding phase converges: once all declared padding bytes are
/// buffered, two polls reach the streaming state with a fresh sub-state and
/// the padding consumed — wherever the chunk boundaries fell before.
pub proof fn lemma_skipping_converges(m: DemuxModel, audio: bool, video: bool, skip_left: u32)
    requires
        wf(m),
        m.state == (State::Skipping { audio, video, skip_left }),
        skip_left > 0,
        m.buf.len() >= skip_left,
    ensures
        step(m).out == Ok::<EventModel, FlowError>(EventModel::Again),
        step(m).post.buf == m.buf.skip(skip_left as int),
        step(step(m).post).post == (DemuxModel {
            state: State::Streaming,
            streaming: Some(crate::machine::init_streaming(audio, video)),
            buf: m.buf.skip(skip_left as int),
        }),
        step(step(m).post).out == Ok::<EventModel, FlowError>(EventModel::Again),
{
}

} // verus!
