//! The prober record used by the command-line compression front: the same
//! stream facts as the pipeline's, with plain string codec names.

use vstd::prelude::*;
use crate::probe::{get_frame_rate, stream_frame_rate, stream_interlaced, FFProbeJsonStream};

verus! {

/// Probe metadata for one media file, with codec and tag kept as the
/// prober names them.
#[derive(Debug)]
pub struct AVProbeMetadata {
    pub video_codec: String,
    pub video_codec_tag: String,
    pub width: u64,
    pub height: u64,
    pub total_frames: usize,
    pub frame_rate: u64,
    pub interlaced: bool,
}

impl AVProbeMetadata {
    /// Metadata with nothing known, with the fallback frame rate used when
    /// the prober's rate cannot be read.
    pub fn empty() -> (r: Self)
        ensures
            r.video_codec@ == Seq::<char>::empty(),
            r.video_codec_tag@ == Seq::<char>::empty(),
            r.width == 0,
            r.height == 0,
            r.total_frames == 0,
            r.frame_rate == 300,
            r.interlaced == false,
    {
        AVProbeMetadata {
            video_codec: String::new(),
            video_codec_tag: String::new(),
            width: 0,
            height: 0,
            total_frames: 0,
            frame_rate: 300,
            interlaced: false,
        }
    }
}

impl AVProbeMetadata {
    /// Reduces a packet-counted stream record to this front's metadata:
    /// names are kept verbatim (an absent tag becomes empty), a packet
    /// count that is absent or unreadable counts as one frame, and an
    /// unreadable rate falls back to 300.
    pub fn from_stream(path: &String, stream: &FFProbeJsonStream) -> (m: Self)
        ensures
            m.video_codec == stream.codec_name,
            stream.codec_tag_string matches Some(t) ==> m.video_codec_tag == t,
            stream.codec_tag_string is None ==> m.video_codec_tag@ == Seq::<char>::empty(),
            m.width == stream.width,
            m.height == stream.height,
            m.total_frames as nat == crate::probe::counted_total_frames(stream.nb_read_packets),
            m.frame_rate as nat == stream_frame_rate(stream.avg_frame_rate@),
            m.interlaced == stream_interlaced(stream.field_order),
    {
        let total_frames: usize = match &stream.nb_read_packets {
            None => 1,
            Some(t) => {
                match crate::numstr::parse_usize(t.as_str()) {
                    Some(v) => v,
                    None => 1,
                }
            },
        };
        let frame_rate: u64 = match get_frame_rate(path, stream) {
            Ok(v) => v,
            Err(_) => 300,
        };
        let interlaced: bool = match &stream.field_order {
            Some(s) => !crate::text::str_eq(s.as_str(), "progressive"),
            None => false,
        };
        AVProbeMetadata {
            video_codec: stream.codec_name.clone(),
            video_codec_tag: match &stream.codec_tag_string {
                Some(t) => t.clone(),
                None => String::new(),
            },
            width: stream.width,
            height: stream.height,
            total_frames,
            frame_rate,
            interlaced,
        }
    }
}

impl Clone for AVProbeMetadata {
    fn clone(&self) -> (r: Self)
        ensures
            r == *self,
    {
        AVProbeMetadata {
            video_codec: self.video_codec.clone(),
            video_codec_tag: self.video_codec_tag.clone(),
            width: self.width,
            height: self.height,
            total_frames: self.total_frames,
            frame_rate: self.frame_rate,
            interlaced: self.interlaced,
        }
    }
}

} // verus!
