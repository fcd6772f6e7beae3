//! The fixed-size records of the FLV container: the file header, the tag
//! header, the one-byte audio and video data headers, and the AAC and AVC
//! packet headers. Each parser has a byte-exact specification.

use vstd::prelude::*;
use crate::bytes::{be_u24, be_u32, be_i24};

verus! {

/// Kind of an FLV tag.
#[derive(Clone, Copy, Debug, PartialEq, Eq, Structural)]
pub enum TagType {
    Audio,
    Video,
    Script,
}

/// Audio codec advertised by an audio data header.
#[derive(Clone, Copy, Debug, PartialEq, Eq, Structural)]
pub enum SoundFormat {
    PcmNe,
    Adpcm,
    Mp3,
    PcmLe,
    Nellymoser16khzMono,
    Nellymoser8khzMono,
    Nellymoser,
    PcmAlaw,
    PcmUlaw,
    Aac,
    Speex,
    Mp38khz,
    DeviceSpecific,
}

/// Nominal sample-rate field of an audio data header.
#[derive(Clone, Copy, Debug, PartialEq, Eq, Structural)]
pub enum SoundRate {
    Rate5_5khz,
    Rate11khz,
    Rate22khz,
    Rate44khz,
}

/// Sample-width field of an audio data header.
#[derive(Clone, Copy, Debug, PartialEq, Eq, Structural)]
pub enum SoundSize {
    Snd8bit,
    Snd16bit,
}

/// Channel-count field of an audio data header.
#[derive(Clone, Copy, Debug, PartialEq, Eq, Structural)]
pub enum SoundType {
    SndMono,
    SndStereo,
}

/// Video codec advertised by a video data header.
#[derive(Clone, Copy, Debug, PartialEq, Eq, Structural)]
pub enum CodecId {
    Jpeg,
    SorensonH263,
    Screen,
    Vp6,
    Vp6a,
    Screen2,
    H264,
    H263,
    Mpeg4Part2,
}

/// Frame-kind field of a video data header.
#[derive(Clone, Copy, Debug, PartialEq, Eq, Structural)]
pub enum FrameType {
    Key,
    Inter,
    DisposableInter,
    Generated,
    Command,
}

/// Kind of an AAC audio packet.
#[derive(Clone, Copy, Debug, PartialEq, Eq, Structural)]
pub enum AacPacketType {
    SequenceHeader,
    Raw,
}

/// Kind of an AVC video packet.
#[derive(Clone, Copy, Debug, PartialEq, Eq, Structural)]
pub enum AvcPacketType {
    SequenceHeader,
    Nalu,
    EndOfSequence,
}

/// The 9-byte FLV file header.
#[derive(Clone, Copy, Debug, PartialEq, Eq, Structural)]
pub struct FileHeader {
    pub version: u8,
    pub audio: bool,
    pub video: bool,
    pub offset: u32,
}

/// The 11-byte tag header. `timestamp` already includes the extension byte
/// as its high 8 bits and is in milliseconds.
#[derive(Clone, Copy, Debug, PartialEq, Eq, Structural)]
pub struct TagHeader {
    pub tag_type: TagType,
    pub data_size: u32,
    pub timestamp: u32,
    pub stream_id: u32,
}

/// The 1-byte audio data header.
#[derive(Clone, Copy, Debug, PartialEq, Eq, Structural)]
pub struct AudioDataHeader {
    pub sound_format: SoundFormat,
    pub sound_rate: SoundRate,
    pub sound_size: SoundSize,
    pub sound_type: SoundType,
}

/// The 1-byte video data header.
#[derive(Clone, Copy, Debug, PartialEq, Eq, Structural)]
pub struct VideoDataHeader {
    pub frame_type: FrameType,
    pub codec_id: CodecId,
}

/// The AVC packet header: packet type plus a signed 24-bit composition-time
/// offset in milliseconds.
#[derive(Clone, Copy, Debug, PartialEq, Eq, Structural)]
pub struct AvcPacketHeader {
    pub packet_type: AvcPacketType,
    pub composition_time: i32,
}

/// What a 9-byte window parses to as an FLV file header: the `"FLV"` magic,
/// a version byte, the audio/video presence bits, and the data offset.
pub open spec fn spec_parse_file_header(s: Seq<u8>) -> Option<FileHeader>
    recommends
        s.len() == 9,
{
    if s[0] == 0x46 && s[1] == 0x4c && s[2] == 0x56 {
        Some(
            FileHeader {
                version: s[3],
                audio: s[4] & 0x04 == 0x04,
                video: s[4] & 0x01 == 0x01,
                offset: be_u32(s.subrange(5, 9)),
            },
        )
    } else {
        None
    }
}

/// What an 11-byte window parses to as a tag header. Tag types other than
/// audio (8), video (9) and script (18) are rejected.
pub open spec fn spec_parse_tag_header(s: Seq<u8>) -> Option<TagHeader>
    recommends
        s.len() == 11,
{
    let tag_type = if s[0] == 8 {
        Some(TagType::Audio)
    } else if s[0] == 9 {
        Some(TagType::Video)
    } else if s[0] == 18 {
        Some(TagType::Script)
    } else {
        None
    };
    match tag_type {
        Some(t) => Some(
            TagHeader {
                tag_type: t,
                data_size: be_u24(s.subrange(1, 4)),
                timestamp: (s[7] as int * 0x1000000 + be_u24(s.subrange(4, 7)) as int) as u32,
                stream_id: be_u24(s.subrange(8, 11)),
            },
        ),
        None => None,
    }
}

/// The audio codec a format nibble stands for; reserved nibbles are rejected.
pub open spec fn spec_sound_format(n: u8) -> Option<SoundFormat> {
    if n == 0 {
        Some(SoundFormat::PcmNe)
    } else if n == 1 {
        Some(SoundFormat::Adpcm)
    } else if n == 2 {
        Some(SoundFormat::Mp3)
    } else if n == 3 {
        Some(SoundFormat::PcmLe)
    } else if n == 4 {
        Some(SoundFormat::Nellymoser16khzMono)
    } else if n == 5 {
        Some(SoundFormat::Nellymoser8khzMono)
    } else if n == 6 {
        Some(SoundFormat::Nellymoser)
    } else if n == 7 {
        Some(SoundFormat::PcmAlaw)
    } else if n == 8 {
        Some(SoundFormat::PcmUlaw)
    } else if n == 10 {
        Some(SoundFormat::Aac)
    } else if n == 11 {
        Some(SoundFormat::Speex)
    } else if n == 14 {
        Some(SoundFormat::Mp38khz)
    } else if n == 15 {
        Some(SoundFormat::DeviceSpecific)
    } else {
        None
    }
}

/// What the audio data header byte parses to: format, rate, width, channels.
pub open spec fn spec_parse_audio_data_header(b: u8) -> Option<AudioDataHeader> {
    match spec_sound_format(b / 16) {
        Some(f) => Some(
            AudioDataHeader {
                sound_format: f,
                sound_rate: {
                    let r = (b / 4) % 4;
                    if r == 0 {
                        SoundRate::Rate5_5khz
                    } else if r == 1 {
                        SoundRate::Rate11khz
                    } else if r == 2 {
                        SoundRate::Rate22khz
                    } else {
                        SoundRate::Rate44khz
                    }
                },
                sound_size: if (b / 2) % 2 == 0 {
                    SoundSize::Snd8bit
                } else {
                    SoundSize::Snd16bit
                },
                sound_type: if b % 2 == 0 {
                    SoundType::SndMono
                } else {
                    SoundType::SndStereo
                },
            },
        ),
        None => None,
    }
}

/// The video codec a codec nibble stands for; reserved nibbles are rejected.
pub open spec fn spec_codec_id(n: u8) -> Option<CodecId> {
    if n == 1 {
        Some(CodecId::Jpeg)
    } else if n == 2 {
        Some(CodecId::SorensonH263)
    } else if n == 3 {
        Some(CodecId::Screen)
    } else if n == 4 {
        Some(CodecId::Vp6)
    } else if n == 5 {
        Some(CodecId::Vp6a)
    } else if n == 6 {
        Some(CodecId::Screen2)
    } else if n == 7 {
        Some(CodecId::H264)
    } else if n == 8 {
        Some(CodecId::H263)
    } else if n == 9 {
        Some(CodecId::Mpeg4Part2)
    } else {
        None
    }
}

/// The frame kind a frame-type nibble stands for.
pub open spec fn spec_frame_type(n: u8) -> Option<FrameType> {
    if n == 1 {
        Some(FrameType::Key)
    } else if n == 2 {
        Some(FrameType::Inter)
    } else if n == 3 {
        Some(FrameType::DisposableInter)
    } else if n == 4 {
        Some(FrameType::Generated)
    } else if n == 5 {
        Some(FrameType::Command)
    } else {
        None
    }
}

/// What the video data header byte parses to: frame kind and codec.
pub open spec fn spec_parse_video_data_header(b: u8) -> Option<VideoDataHeader> {
    match (spec_frame_type(b / 16), spec_codec_id(b % 16)) {
        (Some(ft), Some(ci)) => Some(VideoDataHeader { frame_type: ft, codec_id: ci }),
        _ => None,
    }
}

/// What the AAC packet-type byte parses to.
pub open spec fn spec_parse_aac_packet_type(b: u8) -> Option<AacPacketType> {
    if b == 0 {
        Some(AacPacketType::SequenceHeader)
    } else if b == 1 {
        Some(AacPacketType::Raw)
    } else {
        None
    }
}

/// What a 4-byte window parses to as an AVC packet header: packet type and
/// composition time.
pub open spec fn spec_parse_avc_packet_header(s: Seq<u8>) -> Option<AvcPacketHeader>
    recommends
        s.len() == 4,
{
    let packet_type = if s[0] == 0 {
        Some(AvcPacketType::SequenceHeader)
    } else if s[0] == 1 {
        Some(AvcPacketType::Nalu)
    } else if s[0] == 2 {
        Some(AvcPacketType::EndOfSequence)
    } else {
        None
    };
    match packet_type {
        Some(t) => Some(
            AvcPacketHeader { packet_type: t, composition_time: be_i24(s.subrange(1, 4)) },
        ),
        None => None,
    }
}

/// Parses the FLV file header from the 9 bytes at `off`.
pub fn parse_file_header(v: &Vec<u8>, off: usize) -> (r: Option<FileHeader>)
    requires
        off + 9 <= v.len(),
    ensures
        r == spec_parse_file_header(v@.subrange(off as int, off as int + 9)),
{
    let ghost s = v@.subrange(off as int, off as int + 9);
    if v[off] == 0x46 && v[off + 1] == 0x4c && v[off + 2] == 0x56 {
        let offset = crate::bytes::read_be_u32(v, off + 5);
        proof {
            assert(v@.subrange(off + 5 as int, off + 5 + 4 as int) =~= s.subrange(5, 9));
        }
        Some(
            FileHeader {
                version: v[off + 3],
                audio: v[off + 4] & 0x04 == 0x04,
                video: v[off + 4] & 0x01 == 0x01,
                offset,
            },
        )
    } else {
        None
    }
}

/// Parses the tag header from the 11 bytes at `off`.
pub fn parse_tag_header(v: &Vec<u8>, off: usize) -> (r: Option<TagHeader>)
    requires
        off + 11 <= v.len(),
    ensures
        r == spec_parse_tag_header(v@.subrange(off as int, off as int + 11)),
{
    let ghost s = v@.subrange(off as int, off as int + 11);
    let t = v[off];
    let tag_type = if t == 8 {
        TagType::Audio
    } else if t == 9 {
        TagType::Video
    } else if t == 18 {
        TagType::Script
    } else {
        return None;
    };
    let data_size = crate::bytes::read_be_u24(v, off + 1);
    let ts_low = crate::bytes::read_be_u24(v, off + 4);
    let ts_ext = v[off + 7];
    let stream_id = crate::bytes::read_be_u24(v, off + 8);
    proof {
        assert(v@.subrange(off + 1 as int, off + 1 + 3 as int) =~= s.subrange(1, 4));
        assert(v@.subrange(off + 4 as int, off + 4 + 3 as int) =~= s.subrange(4, 7));
        assert(v@.subrange(off + 8 as int, off + 8 + 3 as int) =~= s.subrange(8, 11));
    }
    Some(
        TagHeader {
            tag_type,
            data_size,
            timestamp: (ts_ext as u32) * 0x1000000 + ts_low,
            stream_id,
        },
    )
}

/// Parses the audio data header from the byte at `off`.
pub fn parse_audio_data_header(v: &Vec<u8>, off: usize) -> (r: Option<AudioDataHeader>)
    requires
        off < v.len(),
    ensures
        r == spec_parse_audio_data_header(v@[off as int]),
{
    let b = v[off];
    let n = b / 16;
    let format = if n == 0 {
        SoundFormat::PcmNe
    } else if n == 1 {
        SoundFormat::Adpcm
    } else if n == 2 {
        SoundFormat::Mp3
    } else if n == 3 {
        SoundFormat::PcmLe
    } else if n == 4 {
        SoundFormat::Nellymoser16khzMono
    } else if n == 5 {
        SoundFormat::Nellymoser8khzMono
    } else if n == 6 {
        SoundFormat::Nellymoser
    } else if n == 7 {
        SoundFormat::PcmAlaw
    } else if n == 8 {
        SoundFormat::PcmUlaw
    } else if n == 10 {
        SoundFormat::Aac
    } else if n == 11 {
        SoundFormat::Speex
    } else if n == 14 {
        SoundFormat::Mp38khz
    } else if n == 15 {
        SoundFormat::DeviceSpecific
    } else {
        return None;
    };
    let r = (b / 4) % 4;
    let sound_rate = if r == 0 {
        SoundRate::Rate5_5khz
    } else if r == 1 {
        SoundRate::Rate11khz
    } else if r == 2 {
        SoundRate::Rate22khz
    } else {
        SoundRate::Rate44khz
    };
    let sound_size = if (b / 2) % 2 == 0 {
        SoundSize::Snd8bit
    } else {
        SoundSize::Snd16bit
    };
    let sound_type = if b % 2 == 0 {
        SoundType::SndMono
    } else {
        SoundType::SndStereo
    };
    Some(AudioDataHeader { sound_format: format, sound_rate, sound_size, sound_type })
}

/// Parses the video data header from the byte at `off`.
pub fn parse_video_data_header(v: &Vec<u8>, off: usize) -> (r: Option<VideoDataHeader>)
    requires
        off < v.len(),
    ensures
        r == spec_parse_video_data_header(v@[off as int]),
{
    let b = v[off];
    let ft = b / 16;
    let frame_type = if ft == 1 {
        FrameType::Key
    } else if ft == 2 {
        FrameType::Inter
    } else if ft == 3 {
        FrameType::DisposableInter
    } else if ft == 4 {
        FrameType::Generated
    } else if ft == 5 {
        FrameType::Command
    } else {
        return None;
    };
    let ci = b % 16;
    let codec_id = if ci == 1 {
        CodecId::Jpeg
    } else if ci == 2 {
        CodecId::SorensonH263
    } else if ci == 3 {
        CodecId::Screen
    } else if ci == 4 {
        CodecId::Vp6
    } else if ci == 5 {
        CodecId::Vp6a
    } else if ci == 6 {
        CodecId::Screen2
    } else if ci == 7 {
        CodecId::H264
    } else if ci == 8 {
        CodecId::H263
    } else if ci == 9 {
        CodecId::Mpeg4Part2
    } else {
        return None;
    };
    Some(VideoDataHeader { frame_type, codec_id })
}

/// Parses the AAC packet type from the byte at `off`.
pub fn parse_aac_packet_type(v: &Vec<u8>, off: usize) -> (r: Option<AacPacketType>)
    requires
        off < v.len(),
    ensures
        r == spec_parse_aac_packet_type(v@[off as int]),
{
    let b = v[off];
    if b == 0 {
        Some(AacPacketType::SequenceHeader)
    } else if b == 1 {
        Some(AacPacketType::Raw)
    } else {
        None
    }
}

/// Parses the AVC packet header from the 4 bytes at `off`.
pub fn parse_avc_packet_header(v: &Vec<u8>, off: usize) -> (r: Option<AvcPacketHeader>)
    requires
        off + 4 <= v.len(),
    ensures
        r == spec_parse_avc_packet_header(v@.subrange(off as int, off as int + 4)),
{
    let ghost s = v@.subrange(off as int, off as int + 4);
    let b = v[off];
    let packet_type = if b == 0 {
        AvcPacketType::SequenceHeader
    } else if b == 1 {
        AvcPacketType::Nalu
    } else if b == 2 {
        AvcPacketType::EndOfSequence
    } else {
        return None;
    };
    let composition_time = crate::bytes::read_be_i24(v, off + 1);
    proof {
        assert(v@.subrange(off + 1 as int, off + 1 + 3 as int) =~= s.subrange(1, 4));
    }
    Some(AvcPacketHeader { packet_type, composition_time })
}

} // verus!
