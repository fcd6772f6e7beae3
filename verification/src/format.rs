//! Discovered stream shapes and their caps descriptions.
//!
//! An [`AudioFormat`] or [`VideoFormat`] is what the demuxer currently
//! believes about a stream; a caps description is the pure function of such
//! a format that a downstream decoder is configured from, and is `None`
//! exactly when no decoder could be configured yet. Format equality
//! deliberately ignores the bitrate, so a bitrate-only change never makes a
//! "new stream".

use vstd::prelude::*;
use crate::tags::{AudioDataHeader, SoundFormat, SoundRate, SoundSize, SoundType, VideoDataHeader,
    CodecId};
use crate::amf::{AmfProperty, AmfPropertyModel, AmfValue, AmfValueModel, props_view};
use crate::fbits::{spec_f64_seconds_to_ns, spec_f64_floor_u32, spec_bits_to_fraction, f64_is_nan,
    f64_sign, f64_exp, f64_frac, bits_to_ns, bits_to_u32_floor, bits_to_fraction};
use crate::bytes::copy_range;

verus! {

/// Clones a byte vector.
pub fn clone_bytes(v: &Vec<u8>) -> (r: Vec<u8>)
    ensures
        r@ == v@,
{
    let r = copy_range(v, 0, v.len());
    proof {
        assert(v@.subrange(0, v.len() as int) =~= v@);
    }
    r
}

/// Clones an optional byte vector.
pub fn clone_opt_bytes(v: &Option<Vec<u8>>) -> (r: Option<Vec<u8>>)
    ensures
        opt_bytes_view(&r) == opt_bytes_view(v),
{
    match v {
        Some(b) => Some(clone_bytes(b)),
        None => None,
    }
}

/// View of an optional byte vector.
pub open spec fn opt_bytes_view(v: &Option<Vec<u8>>) -> Option<Seq<u8>> {
    match v {
        Some(b) => Some(b@),
        None => None,
    }
}

/// Whether two byte vectors hold the same bytes.
pub fn bytes_eq(a: &Vec<u8>, b: &Vec<u8>) -> (r: bool)
    ensures
        r == (a@ == b@),
{
    if a.len() != b.len() {
        return false;
    }
    let n = a.len();
    let mut i: usize = 0;
    while i < n
        invariant
            0 <= i <= n,
            n == a.len() == b.len(),
            forall|j: int| 0 <= j < i ==> a@[j] == b@[j],
        decreases n - i,
    {
        if a[i] != b[i] {
            return false;
        }
        i += 1;
    }
    proof {
        assert(a@ =~= b@);
    }
    true
}

/// Whether two optional byte vectors hold the same bytes.
pub fn opt_bytes_eq(a: &Option<Vec<u8>>, b: &Option<Vec<u8>>) -> (r: bool)
    ensures
        r == (opt_bytes_view(a) == opt_bytes_view(b)),
{
    match (a, b) {
        (Some(x), Some(y)) => bytes_eq(x, y),
        (None, None) => true,
        _ => false,
    }
}

/// Whether two optional integers are equal.
pub fn opt_u32_eq(a: &Option<u32>, b: &Option<u32>) -> (r: bool)
    ensures
        r == (*a == *b),
{
    match (a, b) {
        (Some(x), Some(y)) => *x == *y,
        (None, None) => true,
        _ => false,
    }
}

/// Whether two optional fractions are equal.
pub fn opt_pair_eq(a: &Option<(u32, u32)>, b: &Option<(u32, u32)>) -> (r: bool)
    ensures
        r == (*a == *b),
{
    match (a, b) {
        (Some(x), Some(y)) => x.0 == y.0 && x.1 == y.1,
        (None, None) => true,
        _ => false,
    }
}

/// The file-wide metadata read from an `onMetaData` script record.
/// `duration` is in nanoseconds, bitrates in bits per second; string values
/// keep the raw AMF0 string bytes.
pub struct Metadata {
    pub duration: Option<u64>,
    pub creation_date: Option<Vec<u8>>,
    pub creator: Option<Vec<u8>>,
    pub title: Option<Vec<u8>>,
    pub metadata_creator: Option<Vec<u8>>,
    pub audio_bitrate: Option<u32>,
    pub video_width: Option<u32>,
    pub video_height: Option<u32>,
    pub video_pixel_aspect_ratio: Option<(u32, u32)>,
    pub video_framerate: Option<(u32, u32)>,
    pub video_bitrate: Option<u32>,
}

/// Mathematical image of [`Metadata`].
#[verifier::ext_equal]
pub struct MetadataModel {
    pub duration: Option<u64>,
    pub creation_date: Option<Seq<u8>>,
    pub creator: Option<Seq<u8>>,
    pub title: Option<Seq<u8>>,
    pub metadata_creator: Option<Seq<u8>>,
    pub audio_bitrate: Option<u32>,
    pub video_width: Option<u32>,
    pub video_height: Option<u32>,
    pub video_pixel_aspect_ratio: Option<(u32, u32)>,
    pub video_framerate: Option<(u32, u32)>,
    pub video_bitrate: Option<u32>,
}

impl View for Metadata {
    type V = MetadataModel;

    open spec fn view(&self) -> MetadataModel {
        MetadataModel {
            duration: self.duration,
            creation_date: opt_bytes_view(&self.creation_date),
            creator: opt_bytes_view(&self.creator),
            title: opt_bytes_view(&self.title),
            metadata_creator: opt_bytes_view(&self.metadata_creator),
            audio_bitrate: self.audio_bitrate,
            video_width: self.video_width,
            video_height: self.video_height,
            video_pixel_aspect_ratio: self.video_pixel_aspect_ratio,
            video_framerate: self.video_framerate,
            video_bitrate: self.video_bitrate,
        }
    }
}

/// View of an optional metadata record.
pub open spec fn opt_meta_view(v: &Option<Metadata>) -> Option<MetadataModel> {
    match v {
        Some(m) => Some(m@),
        None => None,
    }
}

/// The record name that carries file-wide metadata: `"onMetaData"`.
pub open spec fn key_on_meta_data() -> Seq<u8> {
    seq![111u8, 110, 77, 101, 116, 97, 68, 97, 116, 97]
}

/// `"duration"`.
pub open spec fn key_duration() -> Seq<u8> {
    seq![100u8, 117, 114, 97, 116, 105, 111, 110]
}

/// `"creationdate"`.
pub open spec fn key_creationdate() -> Seq<u8> {
    seq![99u8, 114, 101, 97, 116, 105, 111, 110, 100, 97, 116, 101]
}

/// `"creator"`.
pub open spec fn key_creator() -> Seq<u8> {
    seq![99u8, 114, 101, 97, 116, 111, 114]
}

/// `"title"`.
pub open spec fn key_title() -> Seq<u8> {
    seq![116u8, 105, 116, 108, 101]
}

/// `"metadatacreator"`.
pub open spec fn key_metadatacreator() -> Seq<u8> {
    seq![109u8, 101, 116, 97, 100, 97, 116, 97, 99, 114, 101, 97, 116, 111, 114]
}

/// `"audiodatarate"`.
pub open spec fn key_audiodatarate() -> Seq<u8> {
    seq![97u8, 117, 100, 105, 111, 100, 97, 116, 97, 114, 97, 116, 101]
}

/// `"width"`.
pub open spec fn key_width() -> Seq<u8> {
    seq![119u8, 105, 100, 116, 104]
}

/// `"height"`.
pub open spec fn key_height() -> Seq<u8> {
    seq![104u8, 101, 105, 103, 104, 116]
}

/// `"framerate"`.
pub open spec fn key_framerate() -> Seq<u8> {
    seq![102u8, 114, 97, 109, 101, 114, 97, 116, 101]
}

/// `"AspectRatioX"`.
pub open spec fn key_aspect_ratio_x() -> Seq<u8> {
    seq![65u8, 115, 112, 101, 99, 116, 82, 97, 116, 105, 111, 88]
}

/// `"AspectRatioY"`.
pub open spec fn key_aspect_ratio_y() -> Seq<u8> {
    seq![65u8, 115, 112, 101, 99, 116, 82, 97, 116, 105, 111, 89]
}

/// `"videodatarate"`.
pub open spec fn key_videodatarate() -> Seq<u8> {
    seq![118u8, 105, 100, 101, 111, 100, 97, 116, 97, 114, 97, 116, 101]
}

/// Whether a metadata number is at least zero (the `>= 0.0` comparison):
/// false for NaN and negative values, true for either zero.
pub open spec fn f64_ge_zero(b: u64) -> bool {
    !f64_is_nan(b) && (!f64_sign(b) || (f64_exp(b) == 0 && f64_frac(b) == 0))
}

/// Intermediate state while reading metadata properties: the record built so
/// far plus the two pixel-aspect-ratio halves, which are only combined when
/// both are present.
pub struct MetaScan {
    pub md: MetadataModel,
    pub par_n: Option<u32>,
    pub par_d: Option<u32>,
}

/// An empty metadata record.
pub open spec fn empty_metadata() -> MetadataModel {
    MetadataModel {
        duration: None,
        creation_date: None,
        creator: None,
        title: None,
        metadata_creator: None,
        audio_bitrate: None,
        video_width: None,
        video_height: None,
        video_pixel_aspect_ratio: None,
        video_framerate: None,
        video_bitrate: None,
    }
}

/// The initial scan state.
pub open spec fn init_scan() -> MetaScan {
    MetaScan { md: empty_metadata(), par_n: None, par_d: None }
}

/// Reads one property into the scan state: recognized keys with a value of
/// the right type update their field, everything else is ignored.
pub open spec fn apply_prop(st: MetaScan, p: AmfPropertyModel) -> MetaScan {
    match p.value {
        AmfValueModel::Number(bits) => {
            if p.name == key_duration() {
                MetaScan {
                    md: MetadataModel { duration: Some(spec_f64_seconds_to_ns(bits)), ..st.md },
                    ..st
                }
            } else if p.name == key_audiodatarate() {
                MetaScan {
                    md: MetadataModel {
                        audio_bitrate: Some(spec_f64_floor_u32(bits, 10)),
                        ..st.md
                    },
                    ..st
                }
            } else if p.name == key_width() {
                MetaScan {
                    md: MetadataModel { video_width: Some(spec_f64_floor_u32(bits, 0)), ..st.md },
                    ..st
                }
            } else if p.name == key_height() {
                MetaScan {
                    md: MetadataModel { video_height: Some(spec_f64_floor_u32(bits, 0)), ..st.md },
                    ..st
                }
            } else if p.name == key_framerate() {
                if f64_ge_zero(bits) {
                    match spec_bits_to_fraction(bits) {
                        Some(fr) => MetaScan {
                            md: MetadataModel { video_framerate: Some(fr), ..st.md },
                            ..st
                        },
                        None => st,
                    }
                } else {
                    st
                }
            } else if p.name == key_aspect_ratio_x() {
                MetaScan { par_n: Some(spec_f64_floor_u32(bits, 0)), ..st }
            } else if p.name == key_aspect_ratio_y() {
                MetaScan { par_d: Some(spec_f64_floor_u32(bits, 0)), ..st }
            } else if p.name == key_videodatarate() {
                MetaScan {
                    md: MetadataModel {
                        video_bitrate: Some(spec_f64_floor_u32(bits, 10)),
                        ..st.md
                    },
                    ..st
                }
            } else {
                st
            }
        },
        AmfValueModel::Utf8(s) => {
            if p.name == key_creationdate() {
                MetaScan { md: MetadataModel { creation_date: Some(s), ..st.md }, ..st }
            } else if p.name == key_creator() {
                MetaScan { md: MetadataModel { creator: Some(s), ..st.md }, ..st }
            } else if p.name == key_title() {
                MetaScan { md: MetadataModel { title: Some(s), ..st.md }, ..st }
            } else if p.name == key_metadatacreator() {
                MetaScan { md: MetadataModel { metadata_creator: Some(s), ..st.md }, ..st }
            } else {
                st
            }
        },
        AmfValueModel::Other => st,
    }
}

/// Folds the scan over a property list, first to last.
pub open spec fn metadata_scan(props: Seq<AmfPropertyModel>, st: MetaScan) -> MetaScan
    decreases props.len(),
{
    if props.len() == 0 {
        st
    } else {
        metadata_scan(props.drop_first(), apply_prop(st, props[0]))
    }
}

/// The metadata a property list yields: every recognized key read in order
/// (later occurrences win), with the pixel aspect ratio published only when
/// both halves appeared.
pub open spec fn metadata_of_props(props: Seq<AmfPropertyModel>) -> MetadataModel {
    let fin = metadata_scan(props, init_scan());
    match (fin.par_n, fin.par_d) {
        (Some(n), Some(d)) => MetadataModel {
            video_pixel_aspect_ratio: Some((n, d)),
            ..fin.md
        },
        _ => fin.md,
    }
}

/// Scanning a list and then one more property is one more application.
pub proof fn lemma_scan_snoc(props: Seq<AmfPropertyModel>, st: MetaScan, x: AmfPropertyModel)
    ensures
        metadata_scan(props.push(x), st) == apply_prop(metadata_scan(props, st), x),
    decreases props.len(),
{
    if props.len() == 0 {
        assert(props.push(x).drop_first() =~= Seq::<AmfPropertyModel>::empty());
        assert(props.push(x)[0] == x);
        assert(metadata_scan(props.push(x), st) == metadata_scan(
            Seq::<AmfPropertyModel>::empty(),
            apply_prop(st, x),
        ));
        assert(metadata_scan(Seq::<AmfPropertyModel>::empty(), apply_prop(st, x)) == apply_prop(
            st,
            x,
        ));
        assert(metadata_scan(props, st) == st);
    } else {
        assert(props.push(x).drop_first() =~= props.drop_first().push(x));
        assert(props.push(x)[0] == props[0]);
        assert(metadata_scan(props.push(x), st) == metadata_scan(
            props.drop_first().push(x),
            apply_prop(st, props[0]),
        ));
        assert(metadata_scan(props, st) == metadata_scan(
            props.drop_first(),
            apply_prop(st, props[0]),
        ));
        lemma_scan_snoc(props.drop_first(), apply_prop(st, props[0]), x);
    }
}

impl Metadata {
    /// Builds the metadata record from the properties of an `onMetaData`
    /// object or ECMA array.
    pub fn new(props: &Vec<AmfProperty>) -> (md: Metadata)
        ensures
            md@ == metadata_of_props(props_view(props@)),
    {
        let key_dur: Vec<u8> = vec![100u8, 117, 114, 97, 116, 105, 111, 110];
        let key_cda: Vec<u8> = vec![99u8, 114, 101, 97, 116, 105, 111, 110, 100, 97, 116, 101];
        let key_cre: Vec<u8> = vec![99u8, 114, 101, 97, 116, 111, 114];
        let key_tit: Vec<u8> = vec![116u8, 105, 116, 108, 101];
        let key_mdc: Vec<u8> = vec![
            109u8,
            101,
            116,
            97,
            100,
            97,
            116,
            97,
            99,
            114,
            101,
            97,
            116,
            111,
            114,
        ];
        let key_adr: Vec<u8> = vec![97u8, 117, 100, 105, 111, 100, 97, 116, 97, 114, 97, 116, 101];
        let key_wid: Vec<u8> = vec![119u8, 105, 100, 116, 104];
        let key_hei: Vec<u8> = vec![104u8, 101, 105, 103, 104, 116];
        let key_fra: Vec<u8> = vec![102u8, 114, 97, 109, 101, 114, 97, 116, 101];
        let key_arx: Vec<u8> = vec![65u8, 115, 112, 101, 99, 116, 82, 97, 116, 105, 111, 88];
        let key_ary: Vec<u8> = vec![65u8, 115, 112, 101, 99, 116, 82, 97, 116, 105, 111, 89];
        let key_vdr: Vec<u8> = vec![
            118u8,
            105,
            100,
            101,
            111,
            100,
            97,
            116,
            97,
            114,
            97,
            116,
            101,
        ];
        proof {
            assert(key_dur@ =~= key_duration());
            assert(key_cda@ =~= key_creationdate());
            assert(key_cre@ =~= key_creator());
            assert(key_tit@ =~= key_title());
            assert(key_mdc@ =~= key_metadatacreator());
            assert(key_adr@ =~= key_audiodatarate());
            assert(key_wid@ =~= key_width());
            assert(key_hei@ =~= key_height());
            assert(key_fra@ =~= key_framerate());
            assert(key_arx@ =~= key_aspect_ratio_x());
            assert(key_ary@ =~= key_aspect_ratio_y());
            assert(key_vdr@ =~= key_videodatarate());
        }
        let mut md = Metadata {
            duration: None,
            creation_date: None,
            creator: None,
            title: None,
            metadata_creator: None,
            audio_bitrate: None,
            video_width: None,
            video_height: None,
            video_pixel_aspect_ratio: None,
            video_framerate: None,
            video_bitrate: None,
        };
        let mut par_n: Option<u32> = None;
        let mut par_d: Option<u32> = None;
        let n = props.len();
        let mut i: usize = 0;
        proof {
            assert(props_view(props@).take(0) =~= Seq::<AmfPropertyModel>::empty());
        }
        while i < n
            invariant
                0 <= i <= n,
                n == props.len(),
                key_dur@ == key_duration(),
                key_cda@ == key_creationdate(),
                key_cre@ == key_creator(),
                key_tit@ == key_title(),
                key_mdc@ == key_metadatacreator(),
                key_adr@ == key_audiodatarate(),
                key_wid@ == key_width(),
                key_hei@ == key_height(),
                key_fra@ == key_framerate(),
                key_arx@ == key_aspect_ratio_x(),
                key_ary@ == key_aspect_ratio_y(),
                key_vdr@ == key_videodatarate(),
                md.video_pixel_aspect_ratio is None,
                metadata_scan(props_view(props@).take(i as int), init_scan()) == (MetaScan {
                    md: md@,
                    par_n,
                    par_d,
                }),
            decreases n - i,
        {
            let ghost pv = props_view(props@);
            let ghost st = MetaScan { md: md@, par_n, par_d };
            let p = &props[i];
            proof {
                assert(pv[i as int] == props@[i as int]@);
                assert(pv.take(i + 1 as int) =~= pv.take(i as int).push(pv[i as int]));
                lemma_scan_snoc(pv.take(i as int), init_scan(), pv[i as int]);
            }
            match &p.value {
                AmfValue::Number(bits) => {
                    let bits = *bits;
                    if bytes_eq(&p.name, &key_dur) {
                        md.duration = Some(bits_to_ns(bits));
                    } else if bytes_eq(&p.name, &key_adr) {
                        md.audio_bitrate = Some(bits_to_u32_floor(bits, 10));
                    } else if bytes_eq(&p.name, &key_wid) {
                        md.video_width = Some(bits_to_u32_floor(bits, 0));
                    } else if bytes_eq(&p.name, &key_hei) {
                        md.video_height = Some(bits_to_u32_floor(bits, 0));
                    } else if bytes_eq(&p.name, &key_fra) {
                        let nonneg = {
                            let exp = (bits / 0x10000000000000) % 0x800;
                            let frac = bits % 0x10000000000000;
                            let sign = bits / 0x8000000000000000 == 1;
                            !(exp == 0x7ff && frac != 0) && (!sign || (exp == 0 && frac == 0))
                        };
                        if nonneg {
                            match bits_to_fraction(bits) {
                                Some(fr) => {
                                    md.video_framerate = Some(fr);
                                },
                                None => {},
                            }
                        }
                    } else if bytes_eq(&p.name, &key_arx) {
                        par_n = Some(bits_to_u32_floor(bits, 0));
                    } else if bytes_eq(&p.name, &key_ary) {
                        par_d = Some(bits_to_u32_floor(bits, 0));
                    } else if bytes_eq(&p.name, &key_vdr) {
                        md.video_bitrate = Some(bits_to_u32_floor(bits, 10));
                    }
                },
                AmfValue::Utf8(s) => {
                    if bytes_eq(&p.name, &key_cda) {
                        md.creation_date = Some(clone_bytes(s));
                    } else if bytes_eq(&p.name, &key_cre) {
                        md.creator = Some(clone_bytes(s));
                    } else if bytes_eq(&p.name, &key_tit) {
                        md.title = Some(clone_bytes(s));
                    } else if bytes_eq(&p.name, &key_mdc) {
                        md.metadata_creator = Some(clone_bytes(s));
                    }
                },
                AmfValue::Other => {},
            }
            proof {
                assert(MetaScan { md: md@, par_n, par_d } == apply_prop(st, pv[i as int]));
            }
            i += 1;
        }
        proof {
            assert(props_view(props@).take(n as int) =~= props_view(props@));
        }
        match (par_n, par_d) {
            (Some(pn), Some(pd)) => {
                md.video_pixel_aspect_ratio = Some((pn, pd));
            },
            _ => {},
        }
        md
    }
}

/// Sample layout of raw PCM caps: unsigned 8-bit, or signed 16-bit
/// little-endian. A stream marked "native endian" is read as little-endian,
/// there being no way to know the producing machine's endianness.
#[derive(Clone, Copy, Debug, PartialEq, Eq, Structural)]
pub enum PcmLayout {
    Unsigned8,
    Signed16Le,
}

/// The encoding-identifying part of an audio caps description.
#[derive(Debug)]
pub enum AudioCapsKind {
    /// MPEG audio, version 1, layer 3.
    MpegV1Layer3,
    /// Raw interleaved PCM.
    RawInterleaved(PcmLayout),
    /// ADPCM in SWF layout.
    AdpcmSwf,
    Nellymoser,
    Alaw,
    Mulaw,
    /// MPEG-4 audio, framed, raw stream format, with the decoder setup blob.
    AacFramedRaw { codec_data: Vec<u8> },
}

/// An audio caps description: the encoding plus the sample rate and channel
/// count when known.
#[derive(Debug)]
pub struct AudioCaps {
    pub kind: AudioCapsKind,
    pub rate: Option<u32>,
    pub channels: Option<u32>,
}

/// Mathematical image of [`AudioCapsKind`].
pub enum AudioCapsKindModel {
    MpegV1Layer3,
    RawInterleaved(PcmLayout),
    AdpcmSwf,
    Nellymoser,
    Alaw,
    Mulaw,
    AacFramedRaw { codec_data: Seq<u8> },
}

/// Mathematical image of [`AudioCaps`].
#[verifier::ext_equal]
pub struct AudioCapsModel {
    pub kind: AudioCapsKindModel,
    pub rate: Option<u32>,
    pub channels: Option<u32>,
}

impl View for AudioCapsKind {
    type V = AudioCapsKindModel;

    open spec fn view(&self) -> AudioCapsKindModel {
        match self {
            AudioCapsKind::MpegV1Layer3 => AudioCapsKindModel::MpegV1Layer3,
            AudioCapsKind::RawInterleaved(l) => AudioCapsKindModel::RawInterleaved(*l),
            AudioCapsKind::AdpcmSwf => AudioCapsKindModel::AdpcmSwf,
            AudioCapsKind::Nellymoser => AudioCapsKindModel::Nellymoser,
            AudioCapsKind::Alaw => AudioCapsKindModel::Alaw,
            AudioCapsKind::Mulaw => AudioCapsKindModel::Mulaw,
            AudioCapsKind::AacFramedRaw { codec_data } => AudioCapsKindModel::AacFramedRaw {
                codec_data: codec_data@,
            },
        }
    }
}

impl View for AudioCaps {
    type V = AudioCapsModel;

    open spec fn view(&self) -> AudioCapsModel {
        AudioCapsModel { kind: self.kind@, rate: self.rate, channels: self.channels }
    }
}

/// The encoding-identifying part of a video caps description.
#[derive(Debug)]
pub enum VideoCapsKind {
    /// Flash video version 1 (Sorenson H.263).
    FlashVideoV1,
    FlashScreen,
    Vp6Flash,
    Vp6FlashAlpha,
    FlashScreen2,
    /// H.264 in AVC stream format, with the decoder setup blob.
    H264Avc { codec_data: Vec<u8> },
    H263,
    /// MPEG-4 part 2 video, not a system stream.
    Mpeg4Part2,
}

/// A video caps description: the encoding plus dimensions, pixel aspect
/// ratio and framerate when known.
#[derive(Debug)]
pub struct VideoCaps {
    pub kind: VideoCapsKind,
    pub dimensions: Option<(u32, u32)>,
    pub pixel_aspect_ratio: Option<(u32, u32)>,
    pub framerate: Option<(u32, u32)>,
}

/// Mathematical image of [`VideoCapsKind`].
pub enum VideoCapsKindModel {
    FlashVideoV1,
    FlashScreen,
    Vp6Flash,
    Vp6FlashAlpha,
    FlashScreen2,
    H264Avc { codec_data: Seq<u8> },
    H263,
    Mpeg4Part2,
}

/// Mathematical image of [`VideoCaps`].
#[verifier::ext_equal]
pub struct VideoCapsModel {
    pub kind: VideoCapsKindModel,
    pub dimensions: Option<(u32, u32)>,
    pub pixel_aspect_ratio: Option<(u32, u32)>,
    pub framerate: Option<(u32, u32)>,
}

impl View for VideoCapsKind {
    type V = VideoCapsKindModel;

    open spec fn view(&self) -> VideoCapsKindModel {
        match self {
            VideoCapsKind::FlashVideoV1 => VideoCapsKindModel::FlashVideoV1,
            VideoCapsKind::FlashScreen => VideoCapsKindModel::FlashScreen,
            VideoCapsKind::Vp6Flash => VideoCapsKindModel::Vp6Flash,
            VideoCapsKind::Vp6FlashAlpha => VideoCapsKindModel::Vp6FlashAlpha,
            VideoCapsKind::FlashScreen2 => VideoCapsKindModel::FlashScreen2,
            VideoCapsKind::H264Avc { codec_data } => VideoCapsKindModel::H264Avc {
                codec_data: codec_data@,
            },
            VideoCapsKind::H263 => VideoCapsKindModel::H263,
            VideoCapsKind::Mpeg4Part2 => VideoCapsKindModel::Mpeg4Part2,
        }
    }
}

impl View for VideoCaps {
    type V = VideoCapsModel;

    open spec fn view(&self) -> VideoCapsModel {
        VideoCapsModel {
            kind: self.kind@,
            dimensions: self.dimensions,
            pixel_aspect_ratio: self.pixel_aspect_ratio,
            framerate: self.framerate,
        }
    }
}

/// The audio description the demuxer currently believes: codec, sample
/// rate, width, channels, the advertised bitrate, and the cached AAC setup
/// blob.
pub struct AudioFormat {
    pub format: SoundFormat,
    pub rate: u16,
    pub width: u8,
    pub channels: u8,
    pub bitrate: Option<u32>,
    pub aac_sequence_header: Option<Vec<u8>>,
}

/// Mathematical image of [`AudioFormat`].
#[verifier::ext_equal]
pub struct AudioFormatModel {
    pub format: SoundFormat,
    pub rate: u16,
    pub width: u8,
    pub channels: u8,
    pub bitrate: Option<u32>,
    pub aac_sequence_header: Option<Seq<u8>>,
}

impl View for AudioFormat {
    type V = AudioFormatModel;

    open spec fn view(&self) -> AudioFormatModel {
        AudioFormatModel {
            format: self.format,
            rate: self.rate,
            width: self.width,
            channels: self.channels,
            bitrate: self.bitrate,
            aac_sequence_header: opt_bytes_view(&self.aac_sequence_header),
        }
    }
}

/// The video description the demuxer currently believes.
pub struct VideoFormat {
    pub format: CodecId,
    pub width: Option<u32>,
    pub height: Option<u32>,
    pub pixel_aspect_ratio: Option<(u32, u32)>,
    pub framerate: Option<(u32, u32)>,
    pub bitrate: Option<u32>,
    pub avc_sequence_header: Option<Vec<u8>>,
}

/// Mathematical image of [`VideoFormat`].
#[verifier::ext_equal]
pub struct VideoFormatModel {
    pub format: CodecId,
    pub width: Option<u32>,
    pub height: Option<u32>,
    pub pixel_aspect_ratio: Option<(u32, u32)>,
    pub framerate: Option<(u32, u32)>,
    pub bitrate: Option<u32>,
    pub avc_sequence_header: Option<Seq<u8>>,
}

impl View for VideoFormat {
    type V = VideoFormatModel;

    open spec fn view(&self) -> VideoFormatModel {
        VideoFormatModel {
            format: self.format,
            width: self.width,
            height: self.height,
            pixel_aspect_ratio: self.pixel_aspect_ratio,
            framerate: self.framerate,
            bitrate: self.bitrate,
            avc_sequence_header: opt_bytes_view(&self.avc_sequence_header),
        }
    }
}

/// The audio format a data header announces, joined with the cached
/// metadata bitrate and AAC setup blob. Some codecs force their sample
/// rate; the others take it from the header's rate field.
pub open spec fn audio_format_of(
    dh: AudioDataHeader,
    md: Option<MetadataModel>,
    aac: Option<Seq<u8>>,
) -> AudioFormatModel {
    AudioFormatModel {
        format: dh.sound_format,
        rate: if dh.sound_format == SoundFormat::Nellymoser16khzMono {
            16000
        } else if dh.sound_format == SoundFormat::Nellymoser8khzMono {
            8000
        } else if dh.sound_format == SoundFormat::Mp38khz {
            8000
        } else if dh.sound_format == SoundFormat::Speex {
            16000
        } else {
            match dh.sound_rate {
                SoundRate::Rate5_5khz => 5512,
                SoundRate::Rate11khz => 11025,
                SoundRate::Rate22khz => 22050,
                SoundRate::Rate44khz => 44100,
            }
        },
        width: match dh.sound_size {
            SoundSize::Snd8bit => 8,
            SoundSize::Snd16bit => 16,
        },
        channels: match dh.sound_type {
            SoundType::SndMono => 1,
            SoundType::SndStereo => 2,
        },
        bitrate: match md {
            Some(m) => m.audio_bitrate,
            None => None,
        },
        aac_sequence_header: aac,
    }
}

/// The video format a data header announces, joined with the cached
/// metadata fields and AVC setup blob.
pub open spec fn video_format_of(
    dh: VideoDataHeader,
    md: Option<MetadataModel>,
    avc: Option<Seq<u8>>,
) -> VideoFormatModel {
    VideoFormatModel {
        format: dh.codec_id,
        width: match md {
            Some(m) => m.video_width,
            None => None,
        },
        height: match md {
            Some(m) => m.video_height,
            None => None,
        },
        pixel_aspect_ratio: match md {
            Some(m) => m.video_pixel_aspect_ratio,
            None => None,
        },
        framerate: match md {
            Some(m) => m.video_framerate,
            None => None,
        },
        bitrate: match md {
            Some(m) => m.video_bitrate,
            None => None,
        },
        avc_sequence_header: avc,
    }
}

/// Whether two audio formats are the same stream: every field but the
/// bitrate matches.
pub open spec fn audio_same(a: AudioFormatModel, b: AudioFormatModel) -> bool {
    a.format == b.format && a.rate == b.rate && a.width == b.width && a.channels == b.channels
        && a.aac_sequence_header == b.aac_sequence_header
}

/// Whether two video formats are the same stream: every field but the
/// bitrate matches.
pub open spec fn video_same(a: VideoFormatModel, b: VideoFormatModel) -> bool {
    a.format == b.format && a.width == b.width && a.height == b.height && a.pixel_aspect_ratio
        == b.pixel_aspect_ratio && a.framerate == b.framerate && a.avc_sequence_header
        == b.avc_sequence_header
}

/// The caps description of an audio format: `None` exactly when a decoder
/// cannot be configured yet (PCM without rate or channels, AAC without its
/// setup blob, Speex and device-specific streams).
pub open spec fn audio_caps_of(f: AudioFormatModel) -> Option<AudioCapsModel> {
    let kind = match f.format {
        SoundFormat::Mp3 => Some(AudioCapsKindModel::MpegV1Layer3),
        SoundFormat::Mp38khz => Some(AudioCapsKindModel::MpegV1Layer3),
        SoundFormat::PcmNe => if f.rate != 0 && f.channels != 0 {
            Some(
                AudioCapsKindModel::RawInterleaved(
                    if f.width == 8 {
                        PcmLayout::Unsigned8
                    } else {
                        PcmLayout::Signed16Le
                    },
                ),
            )
        } else {
            None
        },
        SoundFormat::PcmLe => if f.rate != 0 && f.channels != 0 {
            Some(
                AudioCapsKindModel::RawInterleaved(
                    if f.width == 8 {
                        PcmLayout::Unsigned8
                    } else {
                        PcmLayout::Signed16Le
                    },
                ),
            )
        } else {
            None
        },
        SoundFormat::Adpcm => Some(AudioCapsKindModel::AdpcmSwf),
        SoundFormat::Nellymoser16khzMono => Some(AudioCapsKindModel::Nellymoser),
        SoundFormat::Nellymoser8khzMono => Some(AudioCapsKindModel::Nellymoser),
        SoundFormat::Nellymoser => Some(AudioCapsKindModel::Nellymoser),
        SoundFormat::PcmAlaw => Some(AudioCapsKindModel::Alaw),
        SoundFormat::PcmUlaw => Some(AudioCapsKindModel::Mulaw),
        SoundFormat::Aac => match f.aac_sequence_header {
            Some(h) => Some(AudioCapsKindModel::AacFramedRaw { codec_data: h }),
            None => None,
        },
        SoundFormat::Speex => None,
        SoundFormat::DeviceSpecific => None,
    };
    match kind {
        Some(k) => Some(
            AudioCapsModel {
                kind: k,
                rate: if f.rate != 0 {
                    Some(f.rate as u32)
                } else {
                    None
                },
                channels: if f.channels != 0 {
                    Some(f.channels as u32)
                } else {
                    None
                },
            },
        ),
        None => None,
    }
}

/// The caps description of a video format: `None` exactly when a decoder
/// cannot be configured yet (H.264 without its setup blob, or the unused
/// JPEG codec id).
pub open spec fn video_caps_of(f: VideoFormatModel) -> Option<VideoCapsModel> {
    let kind = match f.format {
        CodecId::SorensonH263 => Some(VideoCapsKindModel::FlashVideoV1),
        CodecId::Screen => Some(VideoCapsKindModel::FlashScreen),
        CodecId::Vp6 => Some(VideoCapsKindModel::Vp6Flash),
        CodecId::Vp6a => Some(VideoCapsKindModel::Vp6FlashAlpha),
        CodecId::Screen2 => Some(VideoCapsKindModel::FlashScreen2),
        CodecId::H264 => match f.avc_sequence_header {
            Some(h) => Some(VideoCapsKindModel::H264Avc { codec_data: h }),
            None => None,
        },
        CodecId::H263 => Some(VideoCapsKindModel::H263),
        CodecId::Mpeg4Part2 => Some(VideoCapsKindModel::Mpeg4Part2),
        CodecId::Jpeg => None,
    };
    match kind {
        Some(k) => Some(
            VideoCapsModel {
                kind: k,
                dimensions: match (f.width, f.height) {
                    (Some(w), Some(h)) => Some((w, h)),
                    _ => None,
                },
                pixel_aspect_ratio: match f.pixel_aspect_ratio {
                    Some((n, d)) => if n != 0 && d != 0 {
                        Some((n, d))
                    } else {
                        None
                    },
                    None => None,
                },
                framerate: match f.framerate {
                    Some((n, d)) => if d != 0 {
                        Some((n, d))
                    } else {
                        None
                    },
                    None => None,
                },
            },
        ),
        None => None,
    }
}

impl AudioFormat {
    /// Builds the audio format a data header announces, joined with the
    /// cached metadata and AAC setup blob.
    pub fn new(
        data_header: &AudioDataHeader,
        metadata: &Option<Metadata>,
        aac_sequence_header: &Option<Vec<u8>>,
    ) -> (f: AudioFormat)
        ensures
            f@ == audio_format_of(
                *data_header,
                opt_meta_view(metadata),
                opt_bytes_view(aac_sequence_header),
            ),
    {
        let rate: u16 = if data_header.sound_format == SoundFormat::Nellymoser16khzMono {
            16000
        } else if data_header.sound_format == SoundFormat::Nellymoser8khzMono {
            8000
        } else if data_header.sound_format == SoundFormat::Mp38khz {
            8000
        } else if data_header.sound_format == SoundFormat::Speex {
            16000
        } else {
            match data_header.sound_rate {
                SoundRate::Rate5_5khz => 5512,
                SoundRate::Rate11khz => 11025,
                SoundRate::Rate22khz => 22050,
                SoundRate::Rate44khz => 44100,
            }
        };
        let width: u8 = match data_header.sound_size {
            SoundSize::Snd8bit => 8,
            SoundSize::Snd16bit => 16,
        };
        let channels: u8 = match data_header.sound_type {
            SoundType::SndMono => 1,
            SoundType::SndStereo => 2,
        };
        let bitrate: Option<u32> = match metadata {
            Some(m) => m.audio_bitrate,
            None => None,
        };
        AudioFormat {
            format: data_header.sound_format,
            rate,
            width,
            channels,
            bitrate,
            aac_sequence_header: clone_opt_bytes(aac_sequence_header),
        }
    }

    /// Refreshes the bitrate from new metadata; reports whether anything
    /// changed.
    pub fn update_with_metadata(&mut self, metadata: &Metadata) -> (changed: bool)
        ensures
            final(self)@ == (AudioFormatModel { bitrate: metadata@.audio_bitrate, ..old(self)@ }),
            changed == (old(self)@.bitrate != metadata@.audio_bitrate),
    {
        let mut changed = false;
        if !opt_u32_eq(&self.bitrate, &metadata.audio_bitrate) {
            self.bitrate = metadata.audio_bitrate;
            changed = true;
        }
        changed
    }

    /// Whether this format and another describe the same stream (the
    /// bitrate is ignored).
    pub fn same_stream(&self, other: &AudioFormat) -> (r: bool)
        ensures
            r == audio_same(self@, other@),
    {
        self.format == other.format && self.rate == other.rate && self.width == other.width
            && self.channels == other.channels && opt_bytes_eq(
            &self.aac_sequence_header,
            &other.aac_sequence_header,
        )
    }

    /// The caps description of this format, when a decoder could be
    /// configured from it.
    pub fn to_caps(&self) -> (r: Option<AudioCaps>)
        ensures
            ({
                let q = audio_caps_of(self@);
                match r {
                    Some(c) => q == Some(c@),
                    None => q is None,
                }
            }),
    {
        let kind: Option<AudioCapsKind> = match self.format {
            SoundFormat::Mp3 => Some(AudioCapsKind::MpegV1Layer3),
            SoundFormat::Mp38khz => Some(AudioCapsKind::MpegV1Layer3),
            SoundFormat::PcmNe | SoundFormat::PcmLe => {
                if self.rate != 0 && self.channels != 0 {
                    Some(
                        AudioCapsKind::RawInterleaved(
                            if self.width == 8 {
                                PcmLayout::Unsigned8
                            } else {
                                PcmLayout::Signed16Le
                            },
                        ),
                    )
                } else {
                    None
                }
            },
            SoundFormat::Adpcm => Some(AudioCapsKind::AdpcmSwf),
            SoundFormat::Nellymoser16khzMono
            | SoundFormat::Nellymoser8khzMono
            | SoundFormat::Nellymoser => Some(AudioCapsKind::Nellymoser),
            SoundFormat::PcmAlaw => Some(AudioCapsKind::Alaw),
            SoundFormat::PcmUlaw => Some(AudioCapsKind::Mulaw),
            SoundFormat::Aac => match &self.aac_sequence_header {
                Some(h) => Some(AudioCapsKind::AacFramedRaw { codec_data: clone_bytes(h) }),
                None => None,
            },
            SoundFormat::Speex => None,
            SoundFormat::DeviceSpecific => None,
        };
        match kind {
            Some(k) => Some(
                AudioCaps {
                    kind: k,
                    rate: if self.rate != 0 {
                        Some(self.rate as u32)
                    } else {
                        None
                    },
                    channels: if self.channels != 0 {
                        Some(self.channels as u32)
                    } else {
                        None
                    },
                },
            ),
            None => None,
        }
    }
}

impl VideoFormat {
    /// Builds the video format a data header announces, joined with the
    /// cached metadata and AVC setup blob.
    pub fn new(
        data_header: &VideoDataHeader,
        metadata: &Option<Metadata>,
        avc_sequence_header: &Option<Vec<u8>>,
    ) -> (f: VideoFormat)
        ensures
            f@ == video_format_of(
                *data_header,
                opt_meta_view(metadata),
                opt_bytes_view(avc_sequence_header),
            ),
    {
        match metadata {
            Some(m) => VideoFormat {
                format: data_header.codec_id,
                width: m.video_width,
                height: m.video_height,
                pixel_aspect_ratio: m.video_pixel_aspect_ratio,
                framerate: m.video_framerate,
                bitrate: m.video_bitrate,
                avc_sequence_header: clone_opt_bytes(avc_sequence_header),
            },
            None => VideoFormat {
                format: data_header.codec_id,
                width: None,
                height: None,
                pixel_aspect_ratio: None,
                framerate: None,
                bitrate: None,
                avc_sequence_header: clone_opt_bytes(avc_sequence_header),
            },
        }
    }

    /// Refreshes the size, aspect ratio, framerate and bitrate from new
    /// metadata; reports whether anything changed.
    pub fn update_with_metadata(&mut self, metadata: &Metadata) -> (changed: bool)
        ensures
            final(self)@ == (VideoFormatModel {
                width: metadata@.video_width,
                height: metadata@.video_height,
                pixel_aspect_ratio: metadata@.video_pixel_aspect_ratio,
                framerate: metadata@.video_framerate,
                bitrate: metadata@.video_bitrate,
                ..old(self)@
            }),
            changed == !(old(self)@.width == metadata@.video_width && old(self)@.height
                == metadata@.video_height && old(self)@.pixel_aspect_ratio
                == metadata@.video_pixel_aspect_ratio && old(self)@.framerate
                == metadata@.video_framerate && old(self)@.bitrate == metadata@.video_bitrate),
    {
        let mut changed = false;
        if !opt_u32_eq(&self.width, &metadata.video_width) {
            self.width = metadata.video_width;
            changed = true;
        }
        if !opt_u32_eq(&self.height, &metadata.video_height) {
            self.height = metadata.video_height;
            changed = true;
        }
        if !opt_pair_eq(&self.pixel_aspect_ratio, &metadata.video_pixel_aspect_ratio) {
            self.pixel_aspect_ratio = metadata.video_pixel_aspect_ratio;
            changed = true;
        }
        if !opt_pair_eq(&self.framerate, &metadata.video_framerate) {
            self.framerate = metadata.video_framerate;
            changed = true;
        }
        if !opt_u32_eq(&self.bitrate, &metadata.video_bitrate) {
            self.bitrate = metadata.video_bitrate;
            changed = true;
        }
        changed
    }

    /// Whether this format and another describe the same stream (the
    /// bitrate is ignored).
    pub fn same_stream(&self, other: &VideoFormat) -> (r: bool)
        ensures
            r == video_same(self@, other@),
    {
        self.format == other.format && opt_u32_eq(&self.width, &other.width) && opt_u32_eq(
            &self.height,
            &other.height,
        ) && opt_pair_eq(&self.pixel_aspect_ratio, &other.pixel_aspect_ratio) && opt_pair_eq(
            &self.framerate,
            &other.framerate,
        ) && opt_bytes_eq(&self.avc_sequence_header, &other.avc_sequence_header)
    }

    /// The caps description of this format, when a decoder could be
    /// configured from it.
    pub fn to_caps(&self) -> (r: Option<VideoCaps>)
        ensures
            ({
                let q = video_caps_of(self@);
                match r {
                    Some(c) => q == Some(c@),
                    None => q is None,
                }
            }),
    {
        let kind: Option<VideoCapsKind> = match self.format {
            CodecId::SorensonH263 => Some(VideoCapsKind::FlashVideoV1),
            CodecId::Screen => Some(VideoCapsKind::FlashScreen),
            CodecId::Vp6 => Some(VideoCapsKind::Vp6Flash),
            CodecId::Vp6a => Some(VideoCapsKind::Vp6FlashAlpha),
            CodecId::Screen2 => Some(VideoCapsKind::FlashScreen2),
            CodecId::H264 => match &self.avc_sequence_header {
                Some(h) => Some(VideoCapsKind::H264Avc { codec_data: clone_bytes(h) }),
                None => None,
            },
            CodecId::H263 => Some(VideoCapsKind::H263),
            CodecId::Mpeg4Part2 => Some(VideoCapsKind::Mpeg4Part2),
            CodecId::Jpeg => None,
        };
        match kind {
            Some(k) => Some(
                VideoCaps {
                    kind: k,
                    dimensions: match (self.width, self.height) {
                        (Some(w), Some(h)) => Some((w, h)),
                        _ => None,
                    },
                    pixel_aspect_ratio: match self.pixel_aspect_ratio {
                        Some((n, d)) => if n != 0 && d != 0 {
                            Some((n, d))
                        } else {
                            None
                        },
                        None => None,
                    },
                    framerate: match self.framerate {
                        Some((n, d)) => if d != 0 {
                            Some((n, d))
                        } else {
                            None
                        },
                        None => None,
                    },
                },
            ),
            None => None,
        }
    }
}

} // verus!
