//! Stream metadata as reported by the external prober, and the rules for
//! reducing a decoded prober stream record to the pipeline's metadata.

use vstd::prelude::*;
use crate::codecs::{parses_to, Codec};
use crate::error::InputParseError;
use crate::numstr::{dec_seq, digits_val, is_unsigned_literal, milli_val, parses_as_milli,
    u64_to_string, unsigned_digits};
use crate::text::{sep_head, sep_tail, split_two, splits_in_two};

verus! {

/// A video frame size in pixels.
#[derive(Clone, Copy, Debug, PartialEq, Eq, Structural)]
pub struct Resolution {
    pub width: u64,
    pub height: u64,
}

impl Resolution {
    /// The "WIDTHxHEIGHT" rendering of the resolution.
    pub fn label(&self) -> (r: String)
        ensures
            r@ == dec_seq(self.width as nat) + "x"@ + dec_seq(self.height as nat),
    {
        let mut r = u64_to_string(self.width);
        r.append("x");
        let h = u64_to_string(self.height);
        r.append(h.as_str());
        r
    }
}

/// The fields of one video stream as decoded from the prober's output.
/// Optional fields are ones the prober may omit.
#[derive(Debug)]
pub struct FFProbeJsonStream {
    pub codec_name: String,
    pub codec_tag_string: Option<String>,
    pub field_order: Option<String>,
    pub width: u64,
    pub height: u64,
    pub pix_fmt: String,
    pub nb_read_packets: Option<String>,
    pub avg_frame_rate: String,
}

/// Probe metadata for one media file.
#[derive(Debug)]
pub struct AVProbeMetadata {
    pub video_codec: Codec,
    pub video_codec_tag: Option<String>,
    pub file_size: Option<usize>,
    pub resolution: Resolution,
    pub total_frames: usize,
    pub frame_rate: u64,
    pub interlaced: bool,
}

fn clone_opt_string(o: &Option<String>) -> (r: Option<String>)
    ensures
        r == *o,
{
    match o {
        None => None,
        Some(s) => Some(s.clone()),
    }
}

impl Clone for AVProbeMetadata {
    fn clone(&self) -> (r: Self)
        ensures
            r == *self,
    {
        AVProbeMetadata {
            video_codec: self.video_codec.clone(),
            video_codec_tag: clone_opt_string(&self.video_codec_tag),
            file_size: self.file_size,
            resolution: self.resolution,
            total_frames: self.total_frames,
            frame_rate: self.frame_rate,
            interlaced: self.interlaced,
        }
    }
}

/// The rounded frame rate encoded in an "NUM/DENOM" rate string, if the
/// string has that shape with both parts non-negative decimal numbers that
/// fit; division by zero saturates as the prober's clients expect.
pub open spec fn frame_rate_of(rate: Seq<char>) -> Option<nat> {
    if splits_in_two(rate, '/') && parses_as_milli(sep_head(rate, '/')) && parses_as_milli(
        sep_tail(rate, '/'),
    ) {
        Some(round_ratio(milli_val(sep_head(rate, '/')), milli_val(sep_tail(rate, '/'))))
    } else {
        None
    }
}

/// `n / d` rounded half-up, with the division-by-zero convention of a
/// saturating float-to-integer cast: zero for 0/0, the largest value else.
pub open spec fn round_ratio(n: nat, d: nat) -> nat {
    if d == 0 {
        if n == 0 {
            0
        } else {
            u64::MAX as nat
        }
    } else {
        (2 * n + d) / (2 * d)
    }
}

impl AVProbeMetadata {
    /// Metadata with nothing known: no codec, no size, and the fallback
    /// frame rate used when the prober's rate cannot be read.
    pub fn empty() -> (r: Self)
        ensures
            r.video_codec matches Codec::Unknown(u) && u@ == Seq::<char>::empty(),
            r.video_codec_tag is None,
            r.file_size is None,
            r.resolution == (Resolution { width: 0, height: 0 }),
            r.total_frames == 0,
            r.frame_rate == 300,
            r.interlaced == false,
    {
        AVProbeMetadata {
            video_codec: Codec::Unknown(String::new()),
            video_codec_tag: None,
            file_size: None,
            resolution: Resolution { width: 0, height: 0 },
            total_frames: 0,
            frame_rate: 300,
            interlaced: false,
        }
    }
}

/// Whether a stream record reports interlaced video: any field order other
/// than progressive counts as interlaced; an absent field order does not.
pub open spec fn stream_interlaced(field_order: Option<String>) -> bool {
    match field_order {
        Some(s) => s@ != "progressive"@,
        None => false,
    }
}

/// The total frame count of a packet-counted stream record: the reported
/// packet count, or one when it is absent or unreadable.
pub open spec fn counted_total_frames(nb: Option<String>) -> nat {
    match nb {
        None => 1,
        Some(t) => if is_unsigned_literal(t@) && digits_val(unsigned_digits(t@)) <= usize::MAX {
            digits_val(unsigned_digits(t@))
        } else {
            1
        },
    }
}

/// The frame rate taken from a stream record's rate string, falling back to
/// 300 when the string cannot be read.
pub open spec fn stream_frame_rate(rate: Seq<char>) -> nat {
    match frame_rate_of(rate) {
        Some(v) => v,
        None => 300,
    }
}

impl AVProbeMetadata {
    /// Reduces a packet-counted stream record to probe metadata.
    pub fn from_stream(path: &String, stream: &FFProbeJsonStream, file_size: Option<usize>) -> (m:
        Self)
        ensures
            parses_to(stream.codec_name@, m.video_codec),
            m.video_codec_tag == stream.codec_tag_string,
            m.file_size == file_size,
            m.resolution == (Resolution { width: stream.width, height: stream.height }),
            m.total_frames as nat == counted_total_frames(stream.nb_read_packets),
            m.frame_rate as nat == stream_frame_rate(stream.avg_frame_rate@),
            m.interlaced == stream_interlaced(stream.field_order),
    {
        let total_frames: usize = match &stream.nb_read_packets {
            None => 1,
            Some(t) => {
                match crate::numstr::parse_usize(t.as_str()) {
                    Some(v) => v,
                    None => 1,
                }
            },
        };
        let mut m = AVProbeMetadata::from_stream_fast(path, stream, file_size);
        m.total_frames = total_frames;
        m
    }

    /// Reduces a stream record probed without packet counting to metadata;
    /// the total frame count is not known and is left zero.
    pub fn from_stream_fast(
        path: &String,
        stream: &FFProbeJsonStream,
        file_size: Option<usize>,
    ) -> (m: Self)
        ensures
            parses_to(stream.codec_name@, m.video_codec),
            m.video_codec_tag == stream.codec_tag_string,
            m.file_size == file_size,
            m.resolution == (Resolution { width: stream.width, height: stream.height }),
            m.total_frames == 0,
            m.frame_rate as nat == stream_frame_rate(stream.avg_frame_rate@),
            m.interlaced == stream_interlaced(stream.field_order),
    {
        let frame_rate: u64 = match get_frame_rate(path, stream) {
            Ok(v) => v,
            Err(_) => 300,
        };
        let interlaced: bool = match &stream.field_order {
            Some(s) => !crate::text::str_eq(s.as_str(), "progressive"),
            None => false,
        };
        AVProbeMetadata {
            video_codec: Codec::from_str(stream.codec_name.as_str()),
            video_codec_tag: clone_opt_string(&stream.codec_tag_string),
            file_size,
            resolution: Resolution { width: stream.width, height: stream.height },
            total_frames: 0,
            frame_rate,
            interlaced,
        }
    }
}

/// The frame rate of a stream record: the "NUM/DENOM" rate string rounded
/// to the nearest integer, or an error naming the part that does not parse.
pub fn get_frame_rate(path: &String, stream: &FFProbeJsonStream) -> (r: Result<
    u64,
    InputParseError,
>)
    ensures
        frame_rate_of(stream.avg_frame_rate@) matches Some(v) ==> (r matches Ok(w) && w as nat
            == v),
        frame_rate_of(stream.avg_frame_rate@) is None ==> r is Err,
        r matches Err(e) ==> e.spec_path() == path@,
        !splits_in_two(stream.avg_frame_rate@, '/') ==> (r matches Err(e) && e.spec_message()
            == "Unexpected avg_frame_rate format: '"@ + stream.avg_frame_rate@ + "'"@),
        splits_in_two(stream.avg_frame_rate@, '/') && !parses_as_milli(
            sep_head(stream.avg_frame_rate@, '/'),
        ) ==> (r matches Err(e) && e.spec_message() == "numerator '"@ + sep_head(
            stream.avg_frame_rate@,
            '/',
        ) + "' from '"@ + stream.avg_frame_rate@ + "' is not a number."@),
        splits_in_two(stream.avg_frame_rate@, '/') && parses_as_milli(
            sep_head(stream.avg_frame_rate@, '/'),
        ) && !parses_as_milli(sep_tail(stream.avg_frame_rate@, '/')) ==> (r matches Err(e)
            && e.spec_message() == "denominator '"@ + sep_tail(stream.avg_frame_rate@, '/')
            + "' from '"@ + stream.avg_frame_rate@ + "' is not a number."@),
{
    let rate = &stream.avg_frame_rate;
    match split_two(rate.as_str(), '/') {
        None => {
            let mut m: String = "Unexpected avg_frame_rate format: '".to_owned();
            m.append(rate.as_str());
            m.append("'");
            Err(InputParseError::for_file(path, m.as_str()))
        },
        Some((num, denom)) => {
            match crate::numstr::parse_milli(num.as_str()) {
                None => {
                    let mut m: String = "numerator '".to_owned();
                    m.append(num.as_str());
                    m.append("' from '");
                    m.append(rate.as_str());
                    m.append("' is not a number.");
                    Err(InputParseError::for_file(path, m.as_str()))
                },
                Some(n) => {
                    match crate::numstr::parse_milli(denom.as_str()) {
                        None => {
                            let mut m: String = "denominator '".to_owned();
                            m.append(denom.as_str());
                            m.append("' from '");
                            m.append(rate.as_str());
                            m.append("' is not a number.");
                            Err(InputParseError::for_file(path, m.as_str()))
                        },
                        Some(d) => Ok(rounded_ratio(n, d)),
                    }
                },
            }
        },
    }
}

/// `n / d` rounded half-up in 64 bits, saturating on division by zero.
fn rounded_ratio(n: u64, d: u64) -> (r: u64)
    ensures
        r as nat == round_ratio(n as nat, d as nat),
{
    if d == 0 {
        if n == 0 {
            0
        } else {
            u64::MAX
        }
    } else {
        let wide: u128 = (2 * (n as u128) + (d as u128)) / (2 * (d as u128));
        proof {
            assert((2 * (n as nat) + d as nat) / (2 * (d as nat)) <= n as nat) by (nonlinear_arith)
                requires
                    d as nat >= 1,
            ;
        }
        wide as u64
    }
}

} // verus!
