//! Unit tests of the demuxer's parts: the byte adapter, the wire-format
//! parsers, the AMF0 reader, the binary64 conversions, and the caps
//! mapping.

use flvdemux::adapter::Adapter;
use flvdemux::amf::{parse_script, skip_amf_value, AmfValue, ScriptArgs};
use flvdemux::bytes::{read_be_i24, read_be_u16, read_be_u24, read_be_u32, read_be_u64};
use flvdemux::fbits::{bits_to_fraction, bits_to_ns, bits_to_u32_floor};
use flvdemux::format::{AudioFormat, Metadata, PcmLayout, VideoFormat, AudioCapsKind,
    VideoCapsKind};
use flvdemux::tags::{
    parse_aac_packet_type, parse_audio_data_header, parse_avc_packet_header, parse_file_header,
    parse_tag_header, parse_video_data_header, AacPacketType, AvcPacketType, CodecId, FrameType,
    SoundFormat, SoundRate, SoundSize, SoundType, TagType,
};
use flvdemux::utf8check::is_valid_utf8_range;

#[test]
fn adapter_push_peek_flush_take() {
    let mut a = Adapter::new();
    assert_eq!(a.available(), 0);
    a.push(vec![1, 2, 3]);
    a.push(vec![4, 5]);
    assert_eq!(a.available(), 5);
    assert_eq!(a.peek(4), vec![1, 2, 3, 4]);
    a.flush(2);
    assert_eq!(a.available(), 3);
    assert_eq!(a.take(2), vec![3, 4]);
    a.push(vec![6]);
    assert_eq!(a.peek(2), vec![5, 6]);
    a.clear();
    assert_eq!(a.available(), 0);
}

#[test]
fn big_endian_readers() {
    let v = vec![0x12u8, 0x34, 0x56, 0x78, 0x9a, 0xbc, 0xde, 0xf0];
    assert_eq!(read_be_u16(&v, 0), 0x1234);
    assert_eq!(read_be_u24(&v, 1), 0x345678);
    assert_eq!(read_be_u32(&v, 2), 0x56789abc);
    assert_eq!(read_be_u64(&v, 0), 0x123456789abcdef0);
    assert_eq!(read_be_i24(&v, 0), 0x123456);
    let neg = vec![0xffu8, 0xff, 0xd8];
    assert_eq!(read_be_i24(&neg, 0), -40);
}

#[test]
fn file_header_parsing() {
    let good = vec![0x46u8, 0x4c, 0x56, 0x01, 0x05, 0, 0, 0, 9];
    let h = parse_file_header(&good, 0).unwrap();
    assert!(h.audio && h.video);
    assert_eq!(h.version, 1);
    assert_eq!(h.offset, 9);
    let bad = vec![0x46u8, 0x4c, 0x57, 0x01, 0x05, 0, 0, 0, 9];
    assert!(parse_file_header(&bad, 0).is_none());
}

#[test]
fn tag_header_parsing_with_timestamp_extension() {
    // type 9, size 0x000102, timestamp 0x030405 with extension 0x06
    let v = vec![9u8, 0x00, 0x01, 0x02, 0x03, 0x04, 0x05, 0x06, 0, 0, 0];
    let th = parse_tag_header(&v, 0).unwrap();
    assert_eq!(th.tag_type, TagType::Video);
    assert_eq!(th.data_size, 0x0102);
    assert_eq!(th.timestamp, 0x06030405);
    assert_eq!(th.stream_id, 0);
    let bad = vec![7u8, 0, 0, 0, 0, 0, 0, 0, 0, 0, 0];
    assert!(parse_tag_header(&bad, 0).is_none());
}

#[test]
fn audio_and_video_data_header_parsing() {
    let a = parse_audio_data_header(&vec![0x2f], 0).unwrap();
    assert_eq!(a.sound_format, SoundFormat::Mp3);
    assert_eq!(a.sound_rate, SoundRate::Rate44khz);
    assert_eq!(a.sound_size, SoundSize::Snd16bit);
    assert_eq!(a.sound_type, SoundType::SndStereo);
    assert!(parse_audio_data_header(&vec![0x90], 0).is_none());
    let v = parse_video_data_header(&vec![0x27], 0).unwrap();
    assert_eq!(v.frame_type, FrameType::Inter);
    assert_eq!(v.codec_id, CodecId::H264);
    assert!(parse_video_data_header(&vec![0x07], 0).is_none());
    assert!(parse_video_data_header(&vec![0x1a], 0).is_none());
}

#[test]
fn packet_header_parsing() {
    assert_eq!(parse_aac_packet_type(&vec![0], 0), Some(AacPacketType::SequenceHeader));
    assert_eq!(parse_aac_packet_type(&vec![1], 0), Some(AacPacketType::Raw));
    assert_eq!(parse_aac_packet_type(&vec![2], 0), None);
    let ph = parse_avc_packet_header(&vec![1, 0xff, 0xff, 0xd8], 0).unwrap();
    assert_eq!(ph.packet_type, AvcPacketType::Nalu);
    assert_eq!(ph.composition_time, -40);
    assert!(parse_avc_packet_header(&vec![3, 0, 0, 0], 0).is_none());
}

#[test]
fn utf8_validation() {
    let ok = "päiväys".as_bytes().to_vec();
    assert!(is_valid_utf8_range(&ok, 0, ok.len()));
    let bad = vec![0x61u8, 0xc3, 0x28];
    assert!(!is_valid_utf8_range(&bad, 0, bad.len()));
    let overlong = vec![0xc0u8, 0xaf];
    assert!(!is_valid_utf8_range(&overlong, 0, overlong.len()));
}

fn amf_str(s: &str) -> Vec<u8> {
    let mut v = vec![];
    v.extend_from_slice(&(s.len() as u16).to_be_bytes());
    v.extend_from_slice(s.as_bytes());
    v
}

#[test]
fn script_record_parsing() {
    let mut v = vec![0x02u8];
    v.extend_from_slice(&amf_str("onMetaData"));
    v.push(0x03);
    v.extend_from_slice(&amf_str("duration"));
    v.push(0x00);
    v.extend_from_slice(&2.5f64.to_bits().to_be_bytes());
    v.extend_from_slice(&amf_str("title"));
    v.push(0x02);
    v.extend_from_slice(&amf_str("hi"));
    // a nested strict array value, to be skipped
    v.extend_from_slice(&amf_str("list"));
    v.push(0x0a);
    v.extend_from_slice(&2u32.to_be_bytes());
    v.push(0x05);
    v.push(0x01);
    v.push(0x01);
    v.extend_from_slice(&[0x00, 0x00, 0x09]);
    let rec = parse_script(&v).unwrap();
    assert_eq!(rec.name, b"onMetaData".to_vec());
    match rec.args {
        ScriptArgs::Props(props) => {
            assert_eq!(props.len(), 3);
            assert_eq!(props[0].name, b"duration".to_vec());
            assert!(matches!(props[0].value, AmfValue::Number(b) if b == 2.5f64.to_bits()));
            assert!(matches!(&props[1].value, AmfValue::Utf8(s) if s == &b"hi".to_vec()));
            assert!(matches!(props[2].value, AmfValue::Other));
        }
        ScriptArgs::Flat => panic!("expected properties"),
    }
}

#[test]
fn script_record_rejects_malformed_data() {
    // wrong leading marker
    assert!(parse_script(&vec![0x03, 0x00, 0x00]).is_none());
    // truncated value
    let mut v = vec![0x02u8];
    v.extend_from_slice(&amf_str("onMetaData"));
    v.push(0x00);
    v.extend_from_slice(&[0, 0, 0]);
    assert!(parse_script(&v).is_none());
    // invalid UTF-8 in a property name
    let mut v = vec![0x02u8];
    v.extend_from_slice(&amf_str("onMetaData"));
    v.push(0x03);
    v.extend_from_slice(&[0x00, 0x02, 0xc3, 0x28]);
    v.push(0x05);
    v.extend_from_slice(&[0x00, 0x00, 0x09]);
    assert!(parse_script(&v).is_none());
}

#[test]
fn amf_value_skipping() {
    // a date value: marker, 8-byte time, 2-byte offset
    let mut v = vec![0x0bu8];
    v.extend_from_slice(&[0u8; 10]);
    assert_eq!(skip_amf_value(&v, 0), Some(11));
    // an ECMA array with one boolean property
    let mut v = vec![0x08u8];
    v.extend_from_slice(&1u32.to_be_bytes());
    v.extend_from_slice(&amf_str("x"));
    v.push(0x01);
    v.push(0x01);
    v.extend_from_slice(&[0x00, 0x00, 0x09]);
    assert_eq!(skip_amf_value(&v, 0), Some(v.len()));
    // an unknown marker
    assert_eq!(skip_amf_value(&vec![0x0d, 0, 0], 0), None);
}

#[test]
fn seconds_to_nanoseconds_is_exact() {
    assert_eq!(bits_to_ns(1.5f64.to_bits()), 1_500_000_000);
    assert_eq!(bits_to_ns(0.0f64.to_bits()), 0);
    assert_eq!(bits_to_ns((-1.0f64).to_bits()), 0);
    assert_eq!(bits_to_ns(f64::NAN.to_bits()), 0);
    assert_eq!(bits_to_ns(f64::INFINITY.to_bits()), u64::MAX);
    // 1/2^30 seconds is 0.93132... ns and rounds up
    let tiny = 1.0f64 / ((1u64 << 30) as f64);
    assert_eq!(bits_to_ns(tiny.to_bits()), 1);
    assert_eq!(bits_to_ns(86400.0f64.to_bits()), 86_400_000_000_000);
}

#[test]
fn scaled_truncation_matches_the_float_casts() {
    assert_eq!(bits_to_u32_floor(128.0f64.to_bits(), 10), 131072);
    assert_eq!(bits_to_u32_floor(1.9f64.to_bits(), 0), 1);
    assert_eq!(bits_to_u32_floor((-2.0f64).to_bits(), 0), 0);
    assert_eq!(bits_to_u32_floor(f64::NAN.to_bits(), 0), 0);
    assert_eq!(bits_to_u32_floor(1.0e20f64.to_bits(), 0), u32::MAX);
    assert_eq!(bits_to_u32_floor(640.0f64.to_bits(), 0), 640);
    assert_eq!(bits_to_u32_floor(0.125f64.to_bits(), 10), 128);
}

#[test]
fn fractions_from_metadata_numbers() {
    assert_eq!(bits_to_fraction(30.0f64.to_bits()), Some((30, 1)));
    assert_eq!(bits_to_fraction(0.5f64.to_bits()), Some((1, 2)));
    assert_eq!(bits_to_fraction(2.25f64.to_bits()), Some((9, 4)));
    assert_eq!(bits_to_fraction(0.0f64.to_bits()), Some((0, 1)));
    assert_eq!(bits_to_fraction((-0.0f64).to_bits()), Some((0, 1)));
    assert_eq!(bits_to_fraction((-1.0f64).to_bits()), None);
    assert_eq!(bits_to_fraction(f64::NAN.to_bits()), None);
    assert_eq!(bits_to_fraction(f64::INFINITY.to_bits()), None);
    // tiny values approximate to zero
    assert_eq!(bits_to_fraction(1.0e-40f64.to_bits()), Some((0, 1)));
    // a non-dyadic value gets a faithful small fraction
    let (n, d) = bits_to_fraction((1.0f64 / 3.0).to_bits()).unwrap();
    assert_eq!((n, d), (1, 3));
}

fn number_prop(name: &str, value: f64) -> flvdemux::amf::AmfProperty {
    flvdemux::amf::AmfProperty {
        name: name.as_bytes().to_vec(),
        value: AmfValue::Number(value.to_bits()),
    }
}

#[test]
fn metadata_recognized_keys() {
    let props = vec![
        number_prop("duration", 1.5),
        number_prop("audiodatarate", 128.0),
        number_prop("width", 640.0),
        number_prop("height", 360.0),
        number_prop("framerate", 30.0),
        number_prop("videodatarate", 500.0),
        flvdemux::amf::AmfProperty {
            name: b"title".to_vec(),
            value: AmfValue::Utf8(b"x".to_vec()),
        },
    ];
    let md = Metadata::new(&props);
    assert_eq!(md.duration, Some(1_500_000_000));
    assert_eq!(md.audio_bitrate, Some(131072));
    assert_eq!(md.video_width, Some(640));
    assert_eq!(md.video_height, Some(360));
    assert_eq!(md.video_framerate, Some((30, 1)));
    assert_eq!(md.video_bitrate, Some(512000));
    assert_eq!(md.title, Some(b"x".to_vec()));
    assert_eq!(md.video_pixel_aspect_ratio, None);
}

#[test]
fn metadata_last_duration_wins_and_wrong_types_are_ignored() {
    let props = vec![
        number_prop("duration", 1.0),
        flvdemux::amf::AmfProperty {
            name: b"duration".to_vec(),
            value: AmfValue::Utf8(b"9".to_vec()),
        },
        number_prop("duration", 2.0),
    ];
    let md = Metadata::new(&props);
    assert_eq!(md.duration, Some(2_000_000_000));
}

#[test]
fn pixel_aspect_ratio_needs_both_halves() {
    let only_x = vec![number_prop("AspectRatioX", 4.0)];
    assert_eq!(Metadata::new(&only_x).video_pixel_aspect_ratio, None);
    let only_y = vec![number_prop("AspectRatioY", 3.0)];
    assert_eq!(Metadata::new(&only_y).video_pixel_aspect_ratio, None);
    let both = vec![number_prop("AspectRatioX", 4.0), number_prop("AspectRatioY", 3.0)];
    assert_eq!(Metadata::new(&both).video_pixel_aspect_ratio, Some((4, 3)));
}

#[test]
fn negative_framerate_is_dropped() {
    let props = vec![number_prop("framerate", -25.0)];
    assert_eq!(Metadata::new(&props).video_framerate, None);
    let props = vec![number_prop("framerate", f64::NAN)];
    assert_eq!(Metadata::new(&props).video_framerate, None);
}

#[test]
fn audio_caps_mapping() {
    let base = AudioFormat {
        format: SoundFormat::Mp3,
        rate: 44100,
        width: 16,
        channels: 2,
        bitrate: None,
        aac_sequence_header: None,
    };
    assert!(matches!(base.to_caps().unwrap().kind, AudioCapsKind::MpegV1Layer3));
    let pcm = AudioFormat { format: SoundFormat::PcmNe, width: 8, ..base_clone(&base) };
    assert!(matches!(
        pcm.to_caps().unwrap().kind,
        AudioCapsKind::RawInterleaved(PcmLayout::Unsigned8)
    ));
    let pcm0 = AudioFormat { format: SoundFormat::PcmLe, rate: 0, ..base_clone(&base) };
    assert!(pcm0.to_caps().is_none());
    let aac = AudioFormat { format: SoundFormat::Aac, ..base_clone(&base) };
    assert!(aac.to_caps().is_none());
    let aac2 = AudioFormat {
        format: SoundFormat::Aac,
        aac_sequence_header: Some(vec![1, 2]),
        ..base_clone(&base)
    };
    assert!(matches!(aac2.to_caps().unwrap().kind, AudioCapsKind::AacFramedRaw { .. }));
    let speex = AudioFormat { format: SoundFormat::Speex, ..base_clone(&base) };
    assert!(speex.to_caps().is_none());
}

fn base_clone(f: &AudioFormat) -> AudioFormat {
    AudioFormat {
        format: f.format,
        rate: f.rate,
        width: f.width,
        channels: f.channels,
        bitrate: f.bitrate,
        aac_sequence_header: f.aac_sequence_header.clone(),
    }
}

#[test]
fn video_caps_mapping_and_overlays() {
    let base = VideoFormat {
        format: CodecId::SorensonH263,
        width: Some(320),
        height: Some(240),
        pixel_aspect_ratio: Some((0, 1)),
        framerate: Some((30, 0)),
        bitrate: None,
        avc_sequence_header: None,
    };
    let caps = base.to_caps().unwrap();
    assert!(matches!(caps.kind, VideoCapsKind::FlashVideoV1));
    assert_eq!(caps.dimensions, Some((320, 240)));
    // zero components are withheld
    assert_eq!(caps.pixel_aspect_ratio, None);
    assert_eq!(caps.framerate, None);
    let jpeg = VideoFormat { format: CodecId::Jpeg, ..video_clone(&base) };
    assert!(jpeg.to_caps().is_none());
    let h264 = VideoFormat { format: CodecId::H264, ..video_clone(&base) };
    assert!(h264.to_caps().is_none());
}

fn video_clone(f: &VideoFormat) -> VideoFormat {
    VideoFormat {
        format: f.format,
        width: f.width,
        height: f.height,
        pixel_aspect_ratio: f.pixel_aspect_ratio,
        framerate: f.framerate,
        bitrate: f.bitrate,
        avc_sequence_header: f.avc_sequence_header.clone(),
    }
}

#[test]
fn format_updates_with_metadata() {
    let mut a = AudioFormat {
        format: SoundFormat::Mp3,
        rate: 44100,
        width: 16,
        channels: 2,
        bitrate: None,
        aac_sequence_header: None,
    };
    let md = Metadata::new(&vec![number_prop("audiodatarate", 128.0)]);
    assert!(a.update_with_metadata(&md));
    assert_eq!(a.bitrate, Some(131072));
    assert!(!a.update_with_metadata(&md));
    let mut v = video_clone(&VideoFormat {
        format: CodecId::H264,
        width: None,
        height: None,
        pixel_aspect_ratio: None,
        framerate: None,
        bitrate: None,
        avc_sequence_header: None,
    });
    let md2 = Metadata::new(&vec![number_prop("width", 640.0), number_prop("height", 360.0)]);
    assert!(v.update_with_metadata(&md2));
    assert_eq!(v.width, Some(640));
    assert_eq!(v.height, Some(360));
    assert!(!v.update_with_metadata(&md2));
}
