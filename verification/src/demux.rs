//! The push-mode FLV demultiplexer.
//!
//! The host pushes byte buffers with [`FlvDemux::handle_buffer`] and polls it
//! until it answers `NeedMoreData`. Every poll performs exactly the step of
//! [`crate::machine::step`] on the demuxer's model.

use vstd::prelude::*;
use crate::adapter::Adapter;
use crate::events::{
    Buffer, Caps, ErrorMessage, FlowError, HandleBufferResult, SeekResult, Stream, result_view,
    streams_view,
};
use crate::format::{
    AudioFormat, Metadata, VideoFormat, opt_bytes_view, opt_meta_view, audio_format_of,
    video_format_of,
};
use crate::machine::{
    DemuxModel, State, StreamingModel, audio_after_metadata, audio_tag_step, changed_streams,
    init_streaming, record_props, scan_header, script_tag_step, step, update_audio, update_video,
    video_after_metadata, video_tag_step, wf,
};
use crate::tags::{
    AacPacketType, AudioDataHeader, AvcPacketType, CodecId, SoundFormat, TagHeader, TagType,
    VideoDataHeader, parse_aac_packet_type, parse_audio_data_header, parse_avc_packet_header,
    parse_file_header, parse_tag_header, parse_video_data_header,
};

use crate::amf::{ScriptArgs, parse_script, AmfProperty, props_view};
use crate::format::bytes_eq;
use crate::{AUDIO_STREAM_ID, VIDEO_STREAM_ID};

verus! {

/// The streaming sub-state: discovered formats, expectations from the file
/// header, the latch for `HaveAllStreams`, the monotonic position, the last
/// accepted metadata, and the cached codec-setup blobs.
pub struct StreamingState {
    pub audio: Option<AudioFormat>,
    pub expect_audio: bool,
    pub video: Option<VideoFormat>,
    pub expect_video: bool,
    pub got_all_streams: bool,
    pub last_position: Option<u64>,
    pub metadata: Option<Metadata>,
    pub aac_sequence_header: Option<Vec<u8>>,
    pub avc_sequence_header: Option<Vec<u8>>,
}

impl View for StreamingState {
    type V = StreamingModel;

    open spec fn view(&self) -> StreamingModel {
        StreamingModel {
            audio: match self.audio {
                Some(a) => Some(a@),
                None => None,
            },
            expect_audio: self.expect_audio,
            video: match self.video {
                Some(v) => Some(v@),
                None => None,
            },
            expect_video: self.expect_video,
            got_all_streams: self.got_all_streams,
            last_position: self.last_position,
            metadata: opt_meta_view(&self.metadata),
            aac_sequence_header: opt_bytes_view(&self.aac_sequence_header),
            avc_sequence_header: opt_bytes_view(&self.avc_sequence_header),
        }
    }
}

impl StreamingState {
    /// A fresh sub-state knowing only which streams the header advertised.
    pub fn new(audio: bool, video: bool) -> (s: StreamingState)
        ensures
            s@ == init_streaming(audio, video),
    {
        StreamingState {
            audio: None,
            expect_audio: audio,
            video: None,
            expect_video: video,
            got_all_streams: false,
            last_position: None,
            metadata: None,
            aac_sequence_header: None,
            avc_sequence_header: None,
        }
    }

    /// Reconciles the prospective audio format built from a data header:
    /// publishes, changes or unpublishes the audio side and checks the
    /// all-streams latch. `None` means "nothing to announce".
    fn update_audio_stream(&mut self, data_header: &AudioDataHeader) -> (r: Option<
        HandleBufferResult,
    >)
        ensures
            ({
                let up = update_audio(
                    old(self)@,
                    audio_format_of(
                        *data_header,
                        old(self)@.metadata,
                        old(self)@.aac_sequence_header,
                    ),
                );
                final(self)@ == up.0 && (match (up.1, r) {
                    (Some(ev), Some(hbr)) => hbr@ == ev,
                    (None, None) => true,
                    _ => false,
                })
            }),
    {
        let new_format = AudioFormat::new(data_header, &self.metadata, &self.aac_sequence_header);
        let differs = match &self.audio {
            Some(a) => !a.same_stream(&new_format),
            None => true,
        };
        let was_none = match &self.audio {
            Some(_) => false,
            None => true,
        };
        if differs {
            match new_format.to_caps() {
                Some(caps) => {
                    self.audio = Some(new_format);
                    let stream = Stream { id: AUDIO_STREAM_ID, caps: Caps::Audio(caps) };
                    if was_none {
                        return Some(HandleBufferResult::StreamAdded(stream));
                    } else {
                        return Some(HandleBufferResult::StreamChanged(stream));
                    }
                },
                None => {
                    self.audio = None;
                },
            }
        }
        let audio_some = match &self.audio {
            Some(_) => true,
            None => false,
        };
        let video_some = match &self.video {
            Some(_) => true,
            None => false,
        };
        if !self.got_all_streams && audio_some && (!self.expect_video || video_some) {
            self.got_all_streams = true;
            return Some(HandleBufferResult::HaveAllStreams);
        }
        None
    }

    /// The video counterpart of [`StreamingState::update_audio_stream`].
    fn update_video_stream(&mut self, data_header: &VideoDataHeader) -> (r: Option<
        HandleBufferResult,
    >)
        ensures
            ({
                let up = update_video(
                    old(self)@,
                    video_format_of(
                        *data_header,
                        old(self)@.metadata,
                        old(self)@.avc_sequence_header,
                    ),
                );
                final(self)@ == up.0 && (match (up.1, r) {
                    (Some(ev), Some(hbr)) => hbr@ == ev,
                    (None, None) => true,
                    _ => false,
                })
            }),
    {
        let new_format = VideoFormat::new(data_header, &self.metadata, &self.avc_sequence_header);
        let differs = match &self.video {
            Some(v) => !v.same_stream(&new_format),
            None => true,
        };
        let was_none = match &self.video {
            Some(_) => false,
            None => true,
        };
        if differs {
            match new_format.to_caps() {
                Some(caps) => {
                    self.video = Some(new_format);
                    let stream = Stream { id: VIDEO_STREAM_ID, caps: Caps::Video(caps) };
                    if was_none {
                        return Some(HandleBufferResult::StreamAdded(stream));
                    } else {
                        return Some(HandleBufferResult::StreamChanged(stream));
                    }
                },
                None => {
                    self.video = None;
                },
            }
        }
        let video_some = match &self.video {
            Some(_) => true,
            None => false,
        };
        let audio_some = match &self.audio {
            Some(_) => true,
            None => false,
        };
        if !self.got_all_streams && video_some && (!self.expect_audio || audio_some) {
            self.got_all_streams = true;
            return Some(HandleBufferResult::HaveAllStreams);
        }
        None
    }

    /// Merges freshly parsed metadata into the published formats and saves
    /// it; returns the streams to announce, or `None` when no description
    /// changed.
    fn merge_metadata(&mut self, md: Metadata) -> (r: Option<Vec<Stream>>)
        ensures
            ({
                let au = audio_after_metadata(old(self)@.audio, md@);
                let vu = video_after_metadata(old(self)@.video, md@);
                &&& final(self)@ == (StreamingModel {
                    audio: au.0,
                    video: vu.0,
                    metadata: Some(md@),
                    ..old(self)@
                })
                &&& (match r {
                    Some(streams) => (au.1 || vu.1) && streams_view(streams@) == changed_streams(
                        au.0,
                        au.1,
                        vu.0,
                        vu.1,
                    ),
                    None => !(au.1 || vu.1),
                })
            }),
    {
        let audio_changed = match &mut self.audio {
            Some(a) => a.update_with_metadata(&md),
            None => false,
        };
        let video_changed = match &mut self.video {
            Some(v) => v.update_with_metadata(&md),
            None => false,
        };
        self.metadata = Some(md);
        if audio_changed || video_changed {
            let mut streams: Vec<Stream> = Vec::new();
            if audio_changed {
                match &self.audio {
                    Some(a) => match a.to_caps() {
                        Some(caps) => {
                            streams.push(Stream { id: AUDIO_STREAM_ID, caps: Caps::Audio(caps) });
                        },
                        None => {},
                    },
                    None => {},
                }
            }
            if video_changed {
                match &self.video {
                    Some(v) => match v.to_caps() {
                        Some(caps) => {
                            streams.push(Stream { id: VIDEO_STREAM_ID, caps: Caps::Video(caps) });
                        },
                        None => {},
                    },
                    None => {},
                }
            }
            proof {
                let au = audio_after_metadata(old(self)@.audio, md@);
                let vu = video_after_metadata(old(self)@.video, md@);
                assert(streams_view(streams@) =~= changed_streams(au.0, au.1, vu.0, vu.1));
            }
            Some(streams)
        } else {
            None
        }
    }
}

/// The FLV demultiplexer: the top-level state, the byte adapter, and the
/// streaming sub-state while the tag loop runs.
pub struct FlvDemux {
    state: State,
    adapter: Adapter,
    streaming_state: Option<StreamingState>,
}

impl View for FlvDemux {
    type V = DemuxModel;

    closed spec fn view(&self) -> DemuxModel {
        DemuxModel {
            state: self.state,
            streaming: match self.streaming_state {
                Some(ss) => Some(ss@),
                None => None,
            },
            buf: self.adapter@,
        }
    }
}

impl FlvDemux {
    /// Internal consistency: the adapter is sound and the streaming
    /// sub-state exists while the tag loop runs.
    pub closed spec fn inv(&self) -> bool {
        self.adapter.wf() && wf(self@)
    }

    /// A stopped demuxer holding no bytes.
    pub fn new() -> (d: FlvDemux)
        ensures
            d.inv(),
            d@.state == State::Stopped,
            d@.streaming is None,
            d@.buf == Seq::<u8>::empty(),
    {
        FlvDemux { state: State::Stopped, adapter: Adapter::new(), streaming_state: None }
    }

    /// A stopped demuxer on the heap.
    pub fn new_boxed() -> (d: Box<FlvDemux>)
        ensures
            d.inv(),
            d@.state == State::Stopped,
            d@.streaming is None,
            d@.buf == Seq::<u8>::empty(),
    {
        Box::new(FlvDemux::new())
    }

    /// Starts (or restarts) demultiplexing: the next bytes are searched for
    /// a file header. The arguments are unused; they describe the upstream
    /// source.
    pub fn start(&mut self, _upstream_size: Option<u64>, _random_access: bool) -> (r: Result<
        (),
        ErrorMessage,
    >)
        requires
            old(self).inv(),
        ensures
            final(self).inv(),
            final(self)@ == (DemuxModel { state: State::NeedHeader, ..old(self)@ }),
            r is Ok,
    {
        self.state = State::NeedHeader;
        Ok(())
    }

    /// Stops demultiplexing: clears the buffered bytes and drops the
    /// streaming sub-state.
    pub fn stop(&mut self) -> (r: Result<(), ErrorMessage>)
        requires
            old(self).inv(),
        ensures
            final(self).inv(),
            final(self)@ == (DemuxModel {
                state: State::Stopped,
                streaming: None,
                buf: Seq::<u8>::empty(),
            }),
            r is Ok,
    {
        self.state = State::Stopped;
        self.adapter.clear();
        self.streaming_state = None;
        Ok(())
    }

    /// Seeking is unsupported: the container carries no usable index.
    pub fn seek(&mut self, _start: u64, _stop: Option<u64>) -> (r: Result<SeekResult, ErrorMessage>)
        requires
            old(self).inv(),
        ensures
            final(self).inv(),
            final(self)@ == old(self)@,
            r == Err::<SeekResult, ErrorMessage>(ErrorMessage::Unsupported),
    {
        Err(ErrorMessage::Unsupported)
    }

    /// End of stream: nothing to do, trailing bytes cannot form a tag.
    pub fn end_of_stream(&mut self) -> (r: Result<(), ErrorMessage>)
        requires
            old(self).inv(),
        ensures
            final(self).inv(),
            final(self)@ == old(self)@,
            r is Ok,
    {
        Ok(())
    }

    /// This demuxer never seeks.
    pub fn is_seekable(&self) -> (r: bool)
        ensures
            !r,
    {
        false
    }

    /// The monotonic high-water mark of emitted timestamps, in nanoseconds.
    pub fn get_position(&self) -> (r: Option<u64>)
        ensures
            r == (match self@.streaming {
                Some(ss) => ss.last_position,
                None => None,
            }),
    {
        match &self.streaming_state {
            Some(ss) => ss.last_position,
            None => None,
        }
    }

    /// The duration from the last accepted metadata, in nanoseconds.
    pub fn get_duration(&self) -> (r: Option<u64>)
        ensures
            r == (match self@.streaming {
                Some(ss) => match ss.metadata {
                    Some(md) => md.duration,
                    None => None,
                },
                None => None,
            }),
    {
        match &self.streaming_state {
            Some(ss) => match &ss.metadata {
                Some(md) => md.duration,
                None => None,
            },
            None => None,
        }
    }

    /// Appends the pushed bytes, if any, then runs one step of the event
    /// loop.
    pub fn handle_buffer(&mut self, buffer: Option<Vec<u8>>) -> (r: Result<
        HandleBufferResult,
        FlowError,
    >)
        requires
            old(self).inv(),
            !(old(self)@.state is Stopped),
            (match buffer {
                Some(b) => old(self)@.buf.len() + b@.len() <= usize::MAX,
                None => true,
            }),
        ensures
            final(self).inv(),
            ({
                let pushed = match buffer {
                    Some(b) => DemuxModel { buf: old(self)@.buf + b@, ..old(self)@ },
                    None => old(self)@,
                };
                let s = step(pushed);
                final(self)@ == s.post && result_view(&r) == s.out
            }),
    {
        match buffer {
            Some(b) => {
                self.adapter.push(b);
            },
            None => {},
        }
        self.update_state()
    }

    /// One step of the event loop: exactly [`step`] on the model.
    pub fn update_state(&mut self) -> (r: Result<HandleBufferResult, FlowError>)
        requires
            old(self).inv(),
            !(old(self)@.state is Stopped),
        ensures
            final(self).inv(),
            final(self)@ == step(old(self)@).post,
            result_view(&r) == step(old(self)@).out,
    {
        let ghost m0 = self@;
        match self.state {
            State::Stopped => Ok(HandleBufferResult::NeedMoreData),
            State::NeedHeader => {
                loop
                    invariant
                        self.inv(),
                        self@.state == old(self)@.state,
                        self@.streaming == old(self)@.streaming,
                        old(self)@.state == State::NeedHeader,
                        self@.buf.len() <= old(self)@.buf.len(),
                        old(self)@.buf.skip(
                            (old(self)@.buf.len() - self@.buf.len()) as int,
                        ) == self@.buf,
                        ({
                            let done = old(self)@.buf.len() - self@.buf.len();
                            let s0 = scan_header(old(self)@.buf);
                            let sc = scan_header(self@.buf);
                            s0.0 == done + sc.0 && s0.1 == sc.1
                        }),
                    decreases self@.buf.len(),
                {
                    let ghost m0 = old(self)@;
                    let ghost cur = self@.buf;
                    let avail = self.adapter.available();
                    if avail < 9 {
                        proof {
                            assert(scan_header(cur) == (0nat, None::<crate::tags::FileHeader>));
                            assert(self@ =~= step(m0).post);
                        }
                        return Ok(HandleBufferResult::NeedMoreData);
                    }
                    let data = self.adapter.peek(9);
                    proof {
                        assert(data@ =~= cur.subrange(0, 9));
                    }
                    match parse_file_header(&data, 0) {
                        Some(h) => {
                            proof {
                                assert(scan_header(cur) == (0nat, Some(h)));
                            }
                            self.adapter.flush(9);
                            let skip: u32 = if h.offset < 9 {
                                0
                            } else {
                                h.offset - 9
                            };
                            self.state = State::Skipping {
                                audio: h.audio,
                                video: h.video,
                                skip_left: skip,
                            };
                            proof {
                                assert(self@.buf =~= m0.buf.skip(
                                    scan_header(m0.buf).0 as int + 9,
                                ));
                                assert(self@ =~= step(m0).post);
                            }
                            return Ok(HandleBufferResult::Again);
                        },
                        None => {
                            proof {
                                assert(scan_header(cur).0 == 1 + scan_header(cur.skip(1)).0);
                                assert(scan_header(cur).1 == scan_header(cur.skip(1)).1);
                            }
                            self.adapter.flush(1);
                            proof {
                                assert(m0.buf.skip(
                                    (m0.buf.len() - self@.buf.len()) as int,
                                ) =~= self@.buf);
                            }
                        },
                    }
                }
            },
            State::Skipping { audio, video, skip_left } => {
                if skip_left == 0 {
                    self.state = State::Streaming;
                    self.streaming_state = Some(StreamingState::new(audio, video));
                    proof {
                        assert(self@ =~= step(m0).post);
                    }
                    Ok(HandleBufferResult::Again)
                } else {
                    let avail = self.adapter.available();
                    let skip: usize = if avail < skip_left as usize {
                        avail
                    } else {
                        skip_left as usize
                    };
                    self.adapter.flush(skip);
                    self.state = State::Skipping {
                        audio,
                        video,
                        skip_left: skip_left - (skip as u32),
                    };
                    proof {
                        assert(self@ =~= step(m0).post);
                    }
                    Ok(HandleBufferResult::Again)
                }
            },
            State::Streaming => {
                let avail = self.adapter.available();
                if avail < 16 {
                    proof {
                        assert(self@ =~= step(m0).post);
                    }
                    return Ok(HandleBufferResult::NeedMoreData);
                }
                let data = self.adapter.peek(16);
                proof {
                    assert(data@.subrange(4, 15) =~= m0.buf.subrange(4, 15));
                }
                let tag_header = match parse_tag_header(&data, 4) {
                    Some(th) => th,
                    None => {
                        return Err(FlowError::BadTagHeader);
                    },
                };
                proof {
                    assert(tag_header.data_size <= 0xffffff);
                }
                let res = match tag_header.tag_type {
                    TagType::Script => self.handle_script_tag(&tag_header),
                    TagType::Audio => {
                        proof {
                            assert(data@[15] == m0.buf[15]);
                        }
                        let data_header = match parse_audio_data_header(&data, 15) {
                            Some(dh) => dh,
                            None => {
                                return Err(FlowError::BadAudioDataHeader);
                            },
                        };
                        self.handle_audio_tag(&tag_header, &data_header)
                    },
                    TagType::Video => {
                        proof {
                            assert(data@[15] == m0.buf[15]);
                        }
                        let data_header = match parse_video_data_header(&data, 15) {
                            Some(dh) => dh,
                            None => {
                                return Err(FlowError::BadVideoDataHeader);
                            },
                        };
                        self.handle_video_tag(&tag_header, &data_header)
                    },
                };
                match &res {
                    Ok(HandleBufferResult::BufferForStream(_, buffer)) => {
                        let ts: Option<u64> = match buffer.pts {
                            Some(p) => Some(p),
                            None => buffer.dts,
                        };
                        match ts {
                            Some(t) => {
                                match &mut self.streaming_state {
                                    Some(ss) => {
                                        ss.last_position = match ss.last_position {
                                            Some(lp) => if lp >= t {
                                                Some(lp)
                                            } else {
                                                Some(t)
                                            },
                                            None => Some(t),
                                        };
                                    },
                                    None => {},
                                }
                            },
                            None => {},
                        }
                    },
                    _ => {},
                }
                proof {
                    assert(self@ =~= step(m0).post);
                }
                res
            },
        }
    }

    /// Handles one script tag: waits for the whole tag, consumes it, and
    /// merges an `onMetaData` record into the streaming state.
    fn handle_script_tag(&mut self, tag_header: &TagHeader) -> (r: Result<
        HandleBufferResult,
        FlowError,
    >)
        requires
            old(self).inv(),
            old(self)@.state is Streaming,
            tag_header.data_size <= 0xffffff,
        ensures
            final(self).inv(),
            final(self)@ == script_tag_step(old(self)@, *tag_header).post,
            result_view(&r) == script_tag_step(old(self)@, *tag_header).out,
    {
        let ghost m0 = self@;
        let ds = tag_header.data_size as usize;
        let avail = self.adapter.available();
        if avail < 15 + ds {
            return Ok(HandleBufferResult::NeedMoreData);
        }
        self.adapter.flush(15);
        let data = self.adapter.take(ds);
        proof {
            assert(data@ =~= m0.buf.subrange(15, 15 + ds as int));
            assert(self@.buf =~= m0.buf.skip(15 + ds as int));
        }
        match parse_script(&data) {
            Some(rec) => {
                let key: Vec<u8> = vec![111u8, 110, 77, 101, 116, 97, 68, 97, 116, 97];
                proof {
                    assert(key@ =~= crate::format::key_on_meta_data());
                }
                if bytes_eq(&rec.name, &key) {
                    let props: Vec<AmfProperty> = match rec.args {
                        ScriptArgs::Props(ps) => ps,
                        ScriptArgs::Flat => Vec::new(),
                    };
                    proof {
                        assert(props_view(props@) =~= record_props(
                            crate::amf::spec_parse_script(data@).unwrap().args,
                        ));
                    }
                    let md = Metadata::new(&props);
                    match &mut self.streaming_state {
                        Some(ss) => {
                            let merged = ss.merge_metadata(md);
                            match merged {
                                Some(streams) => {
                                    proof {
                                        assert(self@ =~= script_tag_step(m0, *tag_header).post);
                                    }
                                    return Ok(HandleBufferResult::StreamsChanged(streams));
                                },
                                None => {
                                    proof {
                                        assert(self@ =~= script_tag_step(m0, *tag_header).post);
                                    }
                                    return Ok(HandleBufferResult::Again);
                                },
                            }
                        },
                        None => {
                            proof {
                                assert(false);
                            }
                            return Ok(HandleBufferResult::Again);
                        },
                    }
                } else {
                    proof {
                        assert(self@ =~= script_tag_step(m0, *tag_header).post);
                    }
                    Ok(HandleBufferResult::Again)
                }
            },
            None => {
                proof {
                    assert(self@ =~= script_tag_step(m0, *tag_header).post);
                }
                Ok(HandleBufferResult::Again)
            },
        }
    }

    /// Handles one audio tag: reconciles the format, waits for the whole
    /// tag, handles the AAC special case, and emits the payload.
    fn handle_audio_tag(
        &mut self,
        tag_header: &TagHeader,
        data_header: &AudioDataHeader,
    ) -> (r: Result<HandleBufferResult, FlowError>)
        requires
            old(self).inv(),
            old(self)@.state is Streaming,
            old(self)@.buf.len() >= 16,
            tag_header.data_size <= 0xffffff,
        ensures
            final(self).inv(),
            final(self)@ == audio_tag_step(old(self)@, *tag_header, *data_header).post,
            result_view(&r) == audio_tag_step(old(self)@, *tag_header, *data_header).out,
    {
        let ghost m0 = self@;
        let up_res = match &mut self.streaming_state {
            Some(ss) => ss.update_audio_stream(data_header),
            None => {
                proof {
                    assert(false);
                }
                None
            },
        };
        match up_res {
            Some(ev) => {
                return Ok(ev);
            },
            None => {},
        }
        let ghost m1 = self@;
        let ds = tag_header.data_size as usize;
        let avail = self.adapter.available();
        if avail < 15 + ds {
            return Ok(HandleBufferResult::NeedMoreData);
        }
        // AAC special case: a packet type byte follows the codec byte.
        if data_header.sound_format == SoundFormat::Aac {
            if tag_header.data_size < 2 {
                self.adapter.flush(15 + ds);
                proof {
                    assert(self@ =~= audio_tag_step(m0, *tag_header, *data_header).post);
                }
                return Ok(HandleBufferResult::Again);
            }
            let data = self.adapter.peek(17);
            proof {
                assert(data@[16] == m1.buf[16]);
            }
            match parse_aac_packet_type(&data, 16) {
                None => {
                    proof {
                        assert(self@ =~= audio_tag_step(m0, *tag_header, *data_header).post);
                    }
                    return Err(FlowError::BadAacPacketHeader);
                },
                Some(AacPacketType::SequenceHeader) => {
                    self.adapter.flush(17);
                    let blob = self.adapter.take(ds - 2);
                    proof {
                        assert(blob@ =~= m1.buf.subrange(17, 15 + ds as int));
                        assert(self@.buf =~= m1.buf.skip(15 + ds as int));
                    }
                    match &mut self.streaming_state {
                        Some(ss) => {
                            ss.aac_sequence_header = Some(blob);
                        },
                        None => {
                            proof {
                                assert(false);
                            }
                        },
                    }
                    proof {
                        assert(self@ =~= audio_tag_step(m0, *tag_header, *data_header).post);
                    }
                    return Ok(HandleBufferResult::Again);
                },
                Some(AacPacketType::Raw) => {},
            }
        }
        // Generic path.
        let audio_format: Option<SoundFormat> = match &self.streaming_state {
            Some(ss) => match &ss.audio {
                Some(a) => Some(a.format),
                None => None,
            },
            None => {
                proof {
                    assert(false);
                }
                None
            },
        };
        let fmt = match audio_format {
            None => {
                self.adapter.flush(15 + ds);
                proof {
                    assert(self@ =~= audio_tag_step(m0, *tag_header, *data_header).post);
                }
                return Ok(HandleBufferResult::Again);
            },
            Some(f) => f,
        };
        let offset: usize = if fmt == SoundFormat::Aac {
            1
        } else {
            0
        };
        if tag_header.data_size == 0 {
            self.adapter.flush(16);
            proof {
                assert(self@ =~= audio_tag_step(m0, *tag_header, *data_header).post);
            }
            return Ok(HandleBufferResult::Again);
        }
        if ds < offset {
            self.adapter.flush(16 + (ds - 1));
            proof {
                assert(self@ =~= audio_tag_step(m0, *tag_header, *data_header).post);
            }
            return Ok(HandleBufferResult::Again);
        }
        if ds == offset {
            self.adapter.flush(15 + ds);
            proof {
                assert(self@ =~= audio_tag_step(m0, *tag_header, *data_header).post);
            }
            return Ok(HandleBufferResult::Again);
        }
        self.adapter.flush(16 + offset);
        let payload = self.adapter.take(ds - 1 - offset);
        proof {
            assert(payload@ =~= m1.buf.subrange(16 + offset as int, 15 + ds as int));
            assert(self@.buf =~= m1.buf.skip(15 + ds as int));
        }
        let pts: u64 = (tag_header.timestamp as u64) * 1000000;
        let buffer = Buffer { data: payload, pts: Some(pts), dts: None, delta_unit: false };
        proof {
            assert(self@ =~= audio_tag_step(m0, *tag_header, *data_header).post);
        }
        Ok(HandleBufferResult::BufferForStream(AUDIO_STREAM_ID, buffer))
    }

    /// Handles one video tag: reconciles the format, waits for the whole
    /// tag, handles the AVC special case, and emits the payload with both
    /// timestamps and the keyframe flag.
    fn handle_video_tag(
        &mut self,
        tag_header: &TagHeader,
        data_header: &VideoDataHeader,
    ) -> (r: Result<HandleBufferResult, FlowError>)
        requires
            old(self).inv(),
            old(self)@.state is Streaming,
            old(self)@.buf.len() >= 16,
            tag_header.data_size <= 0xffffff,
        ensures
            final(self).inv(),
            final(self)@ == video_tag_step(old(self)@, *tag_header, *data_header).post,
            result_view(&r) == video_tag_step(old(self)@, *tag_header, *data_header).out,
    {
        let ghost m0 = self@;
        let up_res = match &mut self.streaming_state {
            Some(ss) => ss.update_video_stream(data_header),
            None => {
                proof {
                    assert(false);
                }
                None
            },
        };
        match up_res {
            Some(ev) => {
                return Ok(ev);
            },
            None => {},
        }
        let ghost m1 = self@;
        let ds = tag_header.data_size as usize;
        let avail = self.adapter.available();
        if avail < 15 + ds {
            return Ok(HandleBufferResult::NeedMoreData);
        }
        let mut cts: i32 = 0;
        // AVC special case: a packet type byte and a composition time
        // follow the codec byte.
        if data_header.codec_id == CodecId::H264 {
            if tag_header.data_size < 5 {
                self.adapter.flush(15 + ds);
                proof {
                    assert(self@ =~= video_tag_step(m0, *tag_header, *data_header).post);
                }
                return Ok(HandleBufferResult::Again);
            }
            let data = self.adapter.peek(20);
            proof {
                assert(data@.subrange(16, 20) =~= m1.buf.subrange(16, 20));
            }
            match parse_avc_packet_header(&data, 16) {
                None => {
                    proof {
                        assert(self@ =~= video_tag_step(m0, *tag_header, *data_header).post);
                    }
                    return Err(FlowError::BadAvcPacketHeader);
                },
                Some(ph) => match ph.packet_type {
                    AvcPacketType::SequenceHeader => {
                        self.adapter.flush(20);
                        let blob = self.adapter.take(ds - 5);
                        proof {
                            assert(blob@ =~= m1.buf.subrange(20, 15 + ds as int));
                            assert(self@.buf =~= m1.buf.skip(15 + ds as int));
                        }
                        match &mut self.streaming_state {
                            Some(ss) => {
                                ss.avc_sequence_header = Some(blob);
                            },
                            None => {
                                proof {
                                    assert(false);
                                }
                            },
                        }
                        proof {
                            assert(self@ =~= video_tag_step(m0, *tag_header, *data_header).post);
                        }
                        return Ok(HandleBufferResult::Again);
                    },
                    AvcPacketType::EndOfSequence => {
                        self.adapter.flush(15 + ds);
                        proof {
                            assert(self@ =~= video_tag_step(m0, *tag_header, *data_header).post);
                        }
                        return Ok(HandleBufferResult::Again);
                    },
                    AvcPacketType::Nalu => {
                        cts = ph.composition_time;
                    },
                },
            }
        }
        // Generic path.
        let video_format: Option<CodecId> = match &self.streaming_state {
            Some(ss) => match &ss.video {
                Some(v) => Some(v.format),
                None => None,
            },
            None => {
                proof {
                    assert(false);
                }
                None
            },
        };
        let fmt = match video_format {
            None => {
                self.adapter.flush(15 + ds);
                proof {
                    assert(self@ =~= video_tag_step(m0, *tag_header, *data_header).post);
                }
                return Ok(HandleBufferResult::Again);
            },
            Some(f) => f,
        };
        let is_keyframe = data_header.frame_type == crate::tags::FrameType::Key;
        let offset: usize = if fmt == CodecId::Vp6 || fmt == CodecId::Vp6a {
            1
        } else if fmt == CodecId::H264 {
            4
        } else {
            0
        };
        if tag_header.data_size == 0 {
            self.adapter.flush(16);
            proof {
                assert(self@ =~= video_tag_step(m0, *tag_header, *data_header).post);
            }
            return Ok(HandleBufferResult::Again);
        }
        if ds < offset {
            self.adapter.flush(16 + (ds - 1));
            proof {
                assert(self@ =~= video_tag_step(m0, *tag_header, *data_header).post);
            }
            return Ok(HandleBufferResult::Again);
        }
        if ds == offset {
            self.adapter.flush(15 + ds);
            proof {
                assert(self@ =~= video_tag_step(m0, *tag_header, *data_header).post);
            }
            return Ok(HandleBufferResult::Again);
        }
        self.adapter.flush(16 + offset);
        let payload = self.adapter.take(ds - 1 - offset);
        proof {
            assert(payload@ =~= m1.buf.subrange(16 + offset as int, 15 + ds as int));
            assert(self@.buf =~= m1.buf.skip(15 + ds as int));
        }
        let dts: u64 = (tag_header.timestamp as u64) * 1000000;
        let pts_ms: u64 = if cts < 0 && tag_header.timestamp < (-cts) as u32 {
            0
        } else {
            ((tag_header.timestamp as i64) + (cts as i64)) as u64
        };
        let pts: u64 = pts_ms * 1000000;
        let buffer = Buffer {
            data: payload,
            pts: Some(pts),
            dts: Some(dts),
            delta_unit: !is_keyframe,
        };
        proof {
            assert(self@ =~= video_tag_step(m0, *tag_header, *data_header).post);
        }
        Ok(HandleBufferResult::BufferForStream(VIDEO_STREAM_ID, buffer))
    }
}

} // verus!
