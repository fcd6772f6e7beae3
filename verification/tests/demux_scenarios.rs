//! End-to-end byte scripts against the demuxer.

use flvdemux::demux::FlvDemux;
use flvdemux::events::{Caps, ErrorMessage, FlowError, HandleBufferResult};
use flvdemux::format::{AudioCapsKind, VideoCapsKind};

fn flv_file_header(audio: bool, video: bool, offset: u32) -> Vec<u8> {
    let mut v = vec![0x46u8, 0x4c, 0x56, 0x01];
    let mut flags = 0u8;
    if audio {
        flags |= 0x04;
    }
    if video {
        flags |= 0x01;
    }
    v.push(flags);
    v.extend_from_slice(&offset.to_be_bytes());
    v
}

fn flv_tag(tag_type: u8, timestamp: u32, payload: &[u8]) -> Vec<u8> {
    let mut v = vec![0u8, 0, 0, 0];
    v.push(tag_type);
    let ds = payload.len() as u32;
    v.extend_from_slice(&ds.to_be_bytes()[1..4]);
    v.extend_from_slice(&timestamp.to_be_bytes()[1..4]);
    v.push((timestamp >> 24) as u8);
    v.extend_from_slice(&[0, 0, 0]);
    v.extend_from_slice(payload);
    v
}

/// Pushes bytes (if any) and polls until `NeedMoreData`, collecting every
/// event other than the flow-control answers. While padding is being
/// skipped with an empty buffer the demuxer keeps answering `Again`, so a
/// long run of polls also counts as quiescence.
fn pump(d: &mut FlvDemux, bytes: Option<Vec<u8>>) -> Vec<HandleBufferResult> {
    let mut events = Vec::new();
    let mut arg = bytes;
    for _ in 0..1000 {
        match d.handle_buffer(arg.take()) {
            Ok(HandleBufferResult::NeedMoreData) => return events,
            Ok(HandleBufferResult::Again) => {}
            Ok(ev) => events.push(ev),
            Err(e) => panic!("fatal parse failure: {:?}", e),
        }
    }
    events
}


fn fingerprint(ev: &HandleBufferResult) -> String {
    match ev {
        HandleBufferResult::NeedMoreData => "need-more".to_string(),
        HandleBufferResult::Again => "again".to_string(),
        HandleBufferResult::StreamAdded(s) => format!("added:{}:{}", s.id, caps_fp(&s.caps)),
        HandleBufferResult::StreamChanged(s) => format!("changed:{}:{}", s.id, caps_fp(&s.caps)),
        HandleBufferResult::StreamsChanged(ss) => {
            let parts: Vec<String> =
                ss.iter().map(|s| format!("{}:{}", s.id, caps_fp(&s.caps))).collect();
            format!("streams-changed:[{}]", parts.join(","))
        }
        HandleBufferResult::HaveAllStreams => "have-all".to_string(),
        HandleBufferResult::BufferForStream(id, b) => format!(
            "buffer:{}:len={}:pts={:?}:dts={:?}:delta={}",
            id,
            b.data.len(),
            b.pts,
            b.dts,
            b.delta_unit
        ),
    }
}

fn caps_fp(c: &Caps) -> String {
    match c {
        Caps::Audio(a) => format!(
            "audio:{}:rate={:?}:ch={:?}",
            match &a.kind {
                AudioCapsKind::MpegV1Layer3 => "mp3".to_string(),
                AudioCapsKind::RawInterleaved(l) => format!("raw-{:?}", l),
                AudioCapsKind::AdpcmSwf => "adpcm".to_string(),
                AudioCapsKind::Nellymoser => "nelly".to_string(),
                AudioCapsKind::Alaw => "alaw".to_string(),
                AudioCapsKind::Mulaw => "mulaw".to_string(),
                AudioCapsKind::AacFramedRaw { codec_data } =>
                    format!("aac-cd{}", codec_data.len()),
            },
            a.rate,
            a.channels
        ),
        Caps::Video(v) => format!(
            "video:{}:dim={:?}:par={:?}:fps={:?}",
            match &v.kind {
                VideoCapsKind::FlashVideoV1 => "flv1".to_string(),
                VideoCapsKind::FlashScreen => "screen".to_string(),
                VideoCapsKind::Vp6Flash => "vp6".to_string(),
                VideoCapsKind::Vp6FlashAlpha => "vp6a".to_string(),
                VideoCapsKind::FlashScreen2 => "screen2".to_string(),
                VideoCapsKind::H264Avc { codec_data } => format!("h264-cd{}", codec_data.len()),
                VideoCapsKind::H263 => "h263".to_string(),
                VideoCapsKind::Mpeg4Part2 => "mpeg4p2".to_string(),
            },
            v.dimensions,
            v.pixel_aspect_ratio,
            v.framerate
        ),
    }
}

fn started() -> FlvDemux {
    let mut d = FlvDemux::new();
    d.start(None, false).unwrap();
    d
}

#[test]
fn header_then_empty_stream() {
    let mut d = started();
    let events = pump(&mut d, Some(flv_file_header(true, true, 9)));
    assert!(events.is_empty());
    assert_eq!(d.get_position(), None);
}

#[test]
fn header_with_padding_offset_13() {
    let mut d = started();
    let mut bytes = flv_file_header(true, true, 13);
    bytes.extend_from_slice(&[0xde, 0xad, 0xbe, 0xef]);
    assert_eq!(bytes.len(), 13);
    let events = pump(&mut d, Some(bytes));
    assert!(events.is_empty());
}

#[test]
fn garbage_before_header_resyncs() {
    let mut d = started();
    let mut bytes = vec![9u8, 8, 7];
    bytes.extend_from_slice(&flv_file_header(true, false, 9));
    let mp3 = 0x2fu8;
    let mut payload = vec![mp3];
    payload.extend_from_slice(&[1, 2, 3, 4]);
    bytes.extend_from_slice(&flv_tag(8, 0, &payload));
    let events = pump(&mut d, Some(bytes));
    assert_eq!(events.len(), 3);
    assert!(matches!(events[0], HandleBufferResult::StreamAdded(_)));
}

#[test]
fn raw_mp3_audio_only_stream() {
    let mut d = started();
    let mut bytes = flv_file_header(true, false, 9);
    // format MP3 (2), rate 44 kHz (3), 16-bit (1), stereo (1)
    let mut payload = vec![0x2fu8];
    let sample = [7u8; 11];
    payload.extend_from_slice(&sample);
    bytes.extend_from_slice(&flv_tag(8, 0, &payload));
    let events = pump(&mut d, Some(bytes));
    let fps: Vec<String> = events.iter().map(fingerprint).collect();
    assert_eq!(fps.len(), 3);
    assert_eq!(fps[0], "added:0:audio:mp3:rate=Some(44100):ch=Some(2)");
    assert_eq!(fps[1], "have-all");
    assert_eq!(fps[2], "buffer:0:len=11:pts=Some(0):dts=None:delta=false");
    assert_eq!(d.get_position(), Some(0));
}

#[test]
fn aac_setup_then_sample() {
    let mut d = started();
    let mut bytes = flv_file_header(true, false, 9);
    // format AAC (10), 44 kHz, 16-bit, stereo; packet type 0: sequence header
    let mut setup = vec![0xafu8, 0x00];
    setup.extend_from_slice(&[0x11, 0x22, 0x33, 0x44, 0x55]);
    bytes.extend_from_slice(&flv_tag(8, 0, &setup));
    // packet type 1: raw sample, 20 bytes, at 23 ms
    let mut raw = vec![0xafu8, 0x01];
    raw.extend_from_slice(&[3u8; 20]);
    bytes.extend_from_slice(&flv_tag(8, 23, &raw));
    let events = pump(&mut d, Some(bytes));
    let fps: Vec<String> = events.iter().map(fingerprint).collect();
    assert_eq!(fps.len(), 3);
    assert_eq!(fps[0], "added:0:audio:aac-cd5:rate=Some(44100):ch=Some(2)");
    assert_eq!(fps[1], "have-all");
    assert_eq!(fps[2], "buffer:0:len=20:pts=Some(23000000):dts=None:delta=false");
    if let HandleBufferResult::StreamAdded(s) = &events[0] {
        if let Caps::Audio(a) = &s.caps {
            if let AudioCapsKind::AacFramedRaw { codec_data } = &a.kind {
                assert_eq!(codec_data, &vec![0x11, 0x22, 0x33, 0x44, 0x55]);
            } else {
                panic!("wrong audio caps kind");
            }
        } else {
            panic!("wrong caps side");
        }
    }
}

#[test]
fn h264_with_negative_composition_time() {
    let mut d = started();
    let mut bytes = flv_file_header(false, true, 9);
    // keyframe (1), H.264 (7); AVC sequence header, 7-byte config
    let mut setup = vec![0x17u8, 0x00, 0x00, 0x00, 0x00];
    setup.extend_from_slice(&[9u8; 7]);
    bytes.extend_from_slice(&flv_tag(9, 0, &setup));
    // inter frame (2), H.264; NALU, cts = -40 ms, 300-byte payload, at 100 ms
    let mut nalu = vec![0x27u8, 0x01, 0xff, 0xff, 0xd8];
    nalu.extend_from_slice(&[5u8; 300]);
    bytes.extend_from_slice(&flv_tag(9, 100, &nalu));
    let events = pump(&mut d, Some(bytes));
    let fps: Vec<String> = events.iter().map(fingerprint).collect();
    assert_eq!(fps.len(), 3);
    assert_eq!(fps[0], "added:1:video:h264-cd7:dim=None:par=None:fps=None");
    assert_eq!(fps[1], "have-all");
    assert_eq!(fps[2], "buffer:1:len=300:pts=Some(60000000):dts=Some(100000000):delta=true");
    assert_eq!(d.get_position(), Some(60000000));
}

fn amf_string(s: &str) -> Vec<u8> {
    let mut v = (s.len() as u16).to_be_bytes().to_vec();
    v.extend_from_slice(s.as_bytes());
    v
}

fn on_meta_data_tag(props: &[(&str, f64)]) -> Vec<u8> {
    let mut payload = vec![0x02u8];
    payload.extend_from_slice(&amf_string("onMetaData"));
    payload.push(0x08);
    payload.extend_from_slice(&(props.len() as u32).to_be_bytes());
    for (name, value) in props {
        payload.extend_from_slice(&amf_string(name));
        payload.push(0x00);
        payload.extend_from_slice(&value.to_bits().to_be_bytes());
    }
    payload.extend_from_slice(&[0x00, 0x00, 0x09]);
    flv_tag(18, 0, &payload)
}

#[test]
fn metadata_after_stream_announcement() {
    let mut d = started();
    let mut bytes = flv_file_header(true, false, 9);
    let mut payload = vec![0x2fu8];
    payload.extend_from_slice(&[1u8; 4]);
    bytes.extend_from_slice(&flv_tag(8, 0, &payload));
    let first = pump(&mut d, Some(bytes));
    assert_eq!(first.len(), 3);
    // Now metadata whose only effect on the audio format is its bitrate.
    let second = pump(&mut d, Some(on_meta_data_tag(&[("audiodatarate", 128.0)])));
    let fps: Vec<String> = second.iter().map(fingerprint).collect();
    assert_eq!(fps, vec!["streams-changed:[0:audio:mp3:rate=Some(44100):ch=Some(2)]"]);
}

#[test]
fn duration_metadata_reported_in_nanoseconds() {
    let mut d = started();
    let mut bytes = flv_file_header(true, false, 9);
    bytes.extend_from_slice(&on_meta_data_tag(&[("duration", 1.5)]));
    let events = pump(&mut d, Some(bytes));
    assert!(events.is_empty());
    assert_eq!(d.get_duration(), Some(1_500_000_000));
}

#[test]
fn bitrate_only_metadata_then_same_audio_is_silent() {
    // After metadata changed only the bitrate, further audio tags of the
    // same shape announce nothing new.
    let mut d = started();
    let mut bytes = flv_file_header(true, false, 9);
    let mut payload = vec![0x2fu8];
    payload.extend_from_slice(&[1u8; 4]);
    bytes.extend_from_slice(&flv_tag(8, 0, &payload));
    bytes.extend_from_slice(&on_meta_data_tag(&[("audiodatarate", 128.0)]));
    bytes.extend_from_slice(&flv_tag(8, 10, &{
        let mut p = vec![0x2fu8];
        p.extend_from_slice(&[2u8; 4]);
        p
    }));
    let events = pump(&mut d, Some(bytes));
    let fps: Vec<String> = events.iter().map(fingerprint).collect();
    assert_eq!(fps.len(), 5);
    assert!(fps[0].starts_with("added:0"));
    assert_eq!(fps[1], "have-all");
    assert!(fps[2].starts_with("buffer:0"));
    assert!(fps[3].starts_with("streams-changed"));
    // The audio tag after the bitrate-only change emits only its buffer.
    assert!(fps[4].starts_with("buffer:0"));
}

#[test]
fn chunking_independence_byte_by_byte() {
    let mut whole = flv_file_header(true, true, 13);
    whole.extend_from_slice(&[0, 0, 0, 0]);
    let mut setup = vec![0x17u8, 0x00, 0x00, 0x00, 0x00];
    setup.extend_from_slice(&[9u8; 7]);
    whole.extend_from_slice(&flv_tag(9, 0, &setup));
    let mut nalu = vec![0x27u8, 0x01, 0xff, 0xff, 0xd8];
    nalu.extend_from_slice(&[5u8; 64]);
    whole.extend_from_slice(&flv_tag(9, 100, &nalu));
    let mut audio = vec![0x2fu8];
    audio.extend_from_slice(&[1u8; 8]);
    whole.extend_from_slice(&flv_tag(8, 120, &audio));

    let mut d1 = started();
    let events1: Vec<String> = pump(&mut d1, Some(whole.clone())).iter().map(fingerprint).collect();

    let mut d2 = started();
    let mut events2: Vec<String> = Vec::new();
    for b in &whole {
        events2.extend(pump(&mut d2, Some(vec![*b])).iter().map(fingerprint));
    }
    assert_eq!(events1, events2);
    assert_eq!(d1.get_position(), d2.get_position());
}

#[test]
fn idempotent_polling_after_need_more_data() {
    let mut d = started();
    let _ = pump(&mut d, Some(flv_file_header(true, false, 9)));
    let p = d.get_position();
    for _ in 0..5 {
        assert!(matches!(d.handle_buffer(None), Ok(HandleBufferResult::NeedMoreData)));
        assert_eq!(d.get_position(), p);
    }
}

#[test]
fn monotonic_position_with_decreasing_timestamps() {
    let mut d = started();
    let mut bytes = flv_file_header(true, false, 9);
    for (ts, fill) in [(100u32, 1u8), (40, 2), (150, 3)] {
        let mut p = vec![0x2fu8];
        p.extend_from_slice(&[fill; 4]);
        bytes.extend_from_slice(&flv_tag(8, ts, &p));
    }
    let mut first_arg = Some(bytes);
    let mut last = 0u64;
    for _ in 0..10000 {
        match d.handle_buffer(first_arg.take()) {
            Ok(HandleBufferResult::NeedMoreData) => break,
            Ok(_) => {
                if let Some(p) = d.get_position() {
                    assert!(p >= last);
                    last = p;
                }
            }
            Err(e) => panic!("fatal: {:?}", e),
        }
    }
    assert_eq!(d.get_position(), Some(150_000_000));
}

#[test]
fn speex_audio_has_no_caps_and_emits_nothing() {
    let mut d = started();
    let mut bytes = flv_file_header(true, false, 9);
    // format Speex (11)
    let mut p = vec![0xbfu8];
    p.extend_from_slice(&[1u8; 4]);
    bytes.extend_from_slice(&flv_tag(8, 0, &p));
    let events = pump(&mut d, Some(bytes));
    assert!(events.is_empty());
}

#[test]
fn h264_positive_composition_time_and_extended_timestamp() {
    let mut d = started();
    let mut bytes = flv_file_header(false, true, 9);
    let mut setup = vec![0x17u8, 0x00, 0x00, 0x00, 0x00];
    setup.extend_from_slice(&[9u8; 7]);
    bytes.extend_from_slice(&flv_tag(9, 0, &setup));
    // keyframe at 2^24 + 100 ms (the extension byte carries the high bits),
    // presented 25 ms later
    let ts: u32 = (1 << 24) + 100;
    let mut nalu = vec![0x17u8, 0x01, 0x00, 0x00, 0x19];
    nalu.extend_from_slice(&[5u8; 16]);
    bytes.extend_from_slice(&flv_tag(9, ts, &nalu));
    let events = pump(&mut d, Some(bytes));
    let fps: Vec<String> = events.iter().map(fingerprint).collect();
    assert_eq!(fps.len(), 3);
    assert_eq!(
        fps[2],
        format!(
            "buffer:1:len=16:pts=Some({}):dts=Some({}):delta=false",
            (ts as u64 + 25) * 1_000_000,
            ts as u64 * 1_000_000
        )
    );
}

#[test]
fn vp6_video_drops_codec_byte_and_alpha_offset() {
    let mut d = started();
    let mut bytes = flv_file_header(false, true, 9);
    // keyframe (1), VP6 (4), then the offset byte and 30 payload bytes
    let mut p = vec![0x14u8, 0x00];
    p.extend_from_slice(&[8u8; 30]);
    bytes.extend_from_slice(&flv_tag(9, 5, &p));
    let events = pump(&mut d, Some(bytes));
    let fps: Vec<String> = events.iter().map(fingerprint).collect();
    assert_eq!(fps.len(), 3);
    assert_eq!(fps[0], "added:1:video:vp6:dim=None:par=None:fps=None");
    assert_eq!(fps[1], "have-all");
    assert_eq!(fps[2], "buffer:1:len=30:pts=Some(5000000):dts=Some(5000000):delta=false");
}

#[test]
fn vp6_tag_of_one_byte_is_absorbed() {
    // A VP6 tag whose whole body is the codec byte leaves no room for the
    // alpha-offset byte: the tag is absorbed without a buffer.
    let mut d = started();
    let mut bytes = flv_file_header(false, true, 9);
    bytes.extend_from_slice(&flv_tag(9, 0, &[0x14u8]));
    let mut p = vec![0x14u8, 0x00];
    p.extend_from_slice(&[8u8; 6]);
    bytes.extend_from_slice(&flv_tag(9, 7, &p));
    let events = pump(&mut d, Some(bytes));
    let fps: Vec<String> = events.iter().map(fingerprint).collect();
    assert_eq!(fps.len(), 3);
    assert!(fps[0].starts_with("added:1:video:vp6"));
    assert_eq!(fps[1], "have-all");
    // only the second tag yields a sample
    assert_eq!(fps[2], "buffer:1:len=6:pts=Some(7000000):dts=Some(7000000):delta=false");
}

#[test]
fn bad_tag_type_is_fatal() {
    let mut d = started();
    let mut bytes = flv_file_header(true, true, 9);
    bytes.extend_from_slice(&flv_tag(7, 0, &[0u8; 4]));
    let mut first_arg = Some(bytes);
    let mut err = None;
    for _ in 0..100 {
        match d.handle_buffer(first_arg.take()) {
            Ok(HandleBufferResult::NeedMoreData) => break,
            Ok(_) => {}
            Err(e) => {
                err = Some(e);
                break;
            }
        }
    }
    assert_eq!(err, Some(FlowError::BadTagHeader));
}

#[test]
fn bad_audio_data_header_is_fatal() {
    let mut d = started();
    let mut bytes = flv_file_header(true, true, 9);
    // reserved sound format 9
    bytes.extend_from_slice(&flv_tag(8, 0, &[0x9fu8, 0, 0]));
    let mut first_arg = Some(bytes);
    let mut err = None;
    for _ in 0..100 {
        match d.handle_buffer(first_arg.take()) {
            Ok(HandleBufferResult::NeedMoreData) => break,
            Ok(_) => {}
            Err(e) => {
                err = Some(e);
                break;
            }
        }
    }
    assert_eq!(err, Some(FlowError::BadAudioDataHeader));
}

#[test]
fn bad_video_data_header_is_fatal() {
    let mut d = started();
    let mut bytes = flv_file_header(true, true, 9);
    // frame type 0 is reserved
    bytes.extend_from_slice(&flv_tag(9, 0, &[0x07u8, 0, 0]));
    let mut first_arg = Some(bytes);
    let mut err = None;
    for _ in 0..100 {
        match d.handle_buffer(first_arg.take()) {
            Ok(HandleBufferResult::NeedMoreData) => break,
            Ok(_) => {}
            Err(e) => {
                err = Some(e);
                break;
            }
        }
    }
    assert_eq!(err, Some(FlowError::BadVideoDataHeader));
}

#[test]
fn bad_aac_packet_type_is_fatal() {
    let mut d = started();
    let mut bytes = flv_file_header(true, false, 9);
    bytes.extend_from_slice(&flv_tag(8, 0, &[0xafu8, 0x02, 0, 0]));
    let mut first_arg = Some(bytes);
    let mut err = None;
    for _ in 0..100 {
        match d.handle_buffer(first_arg.take()) {
            Ok(HandleBufferResult::NeedMoreData) => break,
            Ok(_) => {}
            Err(e) => {
                err = Some(e);
                break;
            }
        }
    }
    assert_eq!(err, Some(FlowError::BadAacPacketHeader));
}

#[test]
fn bad_avc_packet_type_is_fatal() {
    let mut d = started();
    let mut bytes = flv_file_header(false, true, 9);
    bytes.extend_from_slice(&flv_tag(9, 0, &[0x17u8, 0x03, 0, 0, 0, 0]));
    let mut first_arg = Some(bytes);
    let mut err = None;
    for _ in 0..100 {
        match d.handle_buffer(first_arg.take()) {
            Ok(HandleBufferResult::NeedMoreData) => break,
            Ok(_) => {}
            Err(e) => {
                err = Some(e);
                break;
            }
        }
    }
    assert_eq!(err, Some(FlowError::BadAvcPacketHeader));
}

#[test]
fn seek_is_unsupported_and_stop_clears() {
    let mut d = started();
    assert!(!d.is_seekable());
    assert_eq!(d.seek(0, None), Err(ErrorMessage::Unsupported));
    let mut bytes = flv_file_header(true, false, 9);
    let mut p = vec![0x2fu8];
    p.extend_from_slice(&[1u8; 4]);
    bytes.extend_from_slice(&flv_tag(8, 44, &p));
    let _ = pump(&mut d, Some(bytes));
    assert_eq!(d.get_position(), Some(44_000_000));
    d.stop().unwrap();
    assert_eq!(d.get_position(), None);
    assert_eq!(d.get_duration(), None);
}

#[test]
fn boxed_demuxer_works() {
    let mut d = FlvDemux::new_boxed();
    d.start(None, false).unwrap();
    assert!(d.end_of_stream().is_ok());
    assert!(pump(&mut d, Some(flv_file_header(true, true, 9))).is_empty());
}
