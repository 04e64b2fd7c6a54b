//! Driving one conversion: the encoder argument list, the line-oriented
//! progress protocol, and the figures derived from each progress sample.
//!
//! The encoder process itself runs outside this crate; everything here is
//! the pure logic it is driven by: which arguments to pass, how to fold
//! each output line into the running progress sample, and what to report
//! when a sample is complete.

use vstd::prelude::*;
use crate::codecs::Codec;
use crate::containers::{container_parameter_seq, Container};
use crate::numstr::{dec_seq, milli_val, parses_as_milli, parses_as_usize, usize_to_string,
    usize_value};
use crate::quality::{quality_parameter_seq, Quality};
use crate::text::{sep_head, sep_tail, split_two, splits_in_two, str_eq};
use crate::transcode_state::TranscodeStatus;

verus! {

/// The running progress sample accumulated from the encoder's output lines.
/// The frame rate is kept in thousandths, as the protocol reports decimals.
#[derive(Clone, Copy, Debug, PartialEq, Eq, Structural)]
pub struct CompressionProgress {
    pub frame: usize,
    pub fps_milli: u64,
    pub total_size: usize,
}

impl CompressionProgress {
    /// An empty sample: no frames, no rate, no bytes.
    pub fn new() -> (r: Self)
        ensures
            r == (CompressionProgress { frame: 0, fps_milli: 0, total_size: 0 }),
    {
        CompressionProgress { frame: 0, fps_milli: 0, total_size: 0 }
    }
}

/// What one protocol line asks of the consumer: keep accumulating, or
/// render (emit) the now-complete sample.
#[derive(Clone, Copy, Debug, PartialEq, Eq, Structural)]
pub enum FFmpegStdoutResult {
    Continue,
    Render,
}

/// How one protocol line changes the running sample. A line that is not
/// exactly one `key=value` pair, has an unrecognized key, or has a value
/// that does not parse, leaves every field as it was.
pub open spec fn line_updates(line: Seq<char>, p: CompressionProgress) -> CompressionProgress {
    if !splits_in_two(line, '=') {
        p
    } else {
        let k = sep_head(line, '=');
        let v = sep_tail(line, '=');
        if k == "fps"@ {
            if parses_as_milli(v) {
                CompressionProgress { fps_milli: milli_val(v) as u64, ..p }
            } else {
                p
            }
        } else if k == "frame"@ {
            if parses_as_usize(v) {
                CompressionProgress { frame: usize_value(v) as usize, ..p }
            } else {
                p
            }
        } else if k == "total_size"@ {
            if parses_as_usize(v) {
                CompressionProgress { total_size: usize_value(v) as usize, ..p }
            } else {
                p
            }
        } else {
            p
        }
    }
}

/// Whether a protocol line completes the current sample: a single
/// `key=value` pair whose key is `progress`.
pub open spec fn line_renders(line: Seq<char>) -> bool {
    splits_in_two(line, '=') && sep_head(line, '=') == "progress"@
}

/// Folds one line of the encoder's progress protocol into the running
/// sample. Recognized keys overwrite their field (last value wins);
/// malformed lines, unknown keys, and unreadable values change nothing.
/// The `progress` sentinel key asks the caller to emit the sample.
pub fn handle_ffmpeg_stdout_line(line: &str, progress: &mut CompressionProgress) -> (r:
    FFmpegStdoutResult)
    ensures
        *final(progress) == line_updates(line@, *old(progress)),
        r is Render <==> line_renders(line@),
{
    proof {
        reveal_strlit("fps");
        reveal_strlit("frame");
        reveal_strlit("total_size");
        reveal_strlit("progress");
        assert("fps"@.len() == 3);
        assert("frame"@.len() == 5);
        assert("total_size"@.len() == 10);
        assert("progress"@.len() == 8);
        assert("fps"@ != "frame"@ && "fps"@ != "total_size"@ && "fps"@ != "progress"@);
        assert("frame"@ != "total_size"@ && "frame"@ != "progress"@);
        assert("total_size"@ != "progress"@);
    }
    match split_two(line, '=') {
        None => FFmpegStdoutResult::Continue,
        Some((key, value)) => {
            if str_eq(key.as_str(), "fps") {
                match crate::numstr::parse_milli(value.as_str()) {
                    Some(v) => {
                        progress.fps_milli = v;
                    },
                    None => {},
                }
                FFmpegStdoutResult::Continue
            } else if str_eq(key.as_str(), "frame") {
                match crate::numstr::parse_usize(value.as_str()) {
                    Some(v) => {
                        progress.frame = v;
                    },
                    None => {},
                }
                FFmpegStdoutResult::Continue
            } else if str_eq(key.as_str(), "total_size") {
                match crate::numstr::parse_usize(value.as_str()) {
                    Some(v) => {
                        progress.total_size = v;
                    },
                    None => {},
                }
                FFmpegStdoutResult::Continue
            } else if str_eq(key.as_str(), "progress") {
                FFmpegStdoutResult::Render
            } else {
                FFmpegStdoutResult::Continue
            }
        },
    }
}

/// The parser loses nothing to bad input: a line that is not a single
/// `key=value` pair, carries an unrecognized key, or carries a value that
/// does not parse for its key, leaves every accumulated field exactly as
/// it was.
pub proof fn lemma_bad_lines_keep_the_sample(line: Seq<char>, p: CompressionProgress)
    ensures
        !splits_in_two(line, '=') ==> line_updates(line, p) == p && !line_renders(line),
        splits_in_two(line, '=') && sep_head(line, '=') != "fps"@ && sep_head(line, '=')
            != "frame"@ && sep_head(line, '=') != "total_size"@ ==> line_updates(line, p) == p,
        splits_in_two(line, '=') && sep_head(line, '=') == "fps"@ && !parses_as_milli(
            sep_tail(line, '='),
        ) ==> line_updates(line, p) == p,
        splits_in_two(line, '=') && sep_head(line, '=') == "frame"@ && !parses_as_usize(
            sep_tail(line, '='),
        ) ==> line_updates(line, p) == p,
        splits_in_two(line, '=') && sep_head(line, '=') == "total_size"@ && !parses_as_usize(
            sep_tail(line, '='),
        ) ==> line_updates(line, p) == p,
{
    reveal_strlit("fps");
    reveal_strlit("frame");
    reveal_strlit("total_size");
    assert("fps"@.len() == 3);
    assert("frame"@.len() == 5);
    assert("total_size"@.len() == 10);
    assert("fps"@ != "frame"@ && "fps"@ != "total_size"@);
    assert("frame"@ != "total_size"@);
}

/// The linear size extrapolation: `size * total / frames`, zero before the
/// first frame, saturating at the largest representable size.
pub open spec fn spec_predict_size(size: nat, total: nat, frames: nat) -> nat {
    if frames == 0 {
        0
    } else if size * total / frames > usize::MAX {
        usize::MAX as nat
    } else {
        size * total / frames
    }
}

/// Predicts the final compressed size by linear extrapolation from the
/// bytes produced for the frames encoded so far.
pub fn predict_compressed_size(
    compressed_size: usize,
    total_frames: usize,
    compressed_frame_count: usize,
) -> (r: usize)
    ensures
        r as nat == spec_predict_size(
            compressed_size as nat,
            total_frames as nat,
            compressed_frame_count as nat,
        ),
{
    if compressed_frame_count == 0 {
        0
    } else {
        proof {
            assert((compressed_size as nat) * (total_frames as nat) <= u128::MAX)
                by (nonlinear_arith)
                requires
                    compressed_size <= u64::MAX,
                    total_frames <= u64::MAX,
            ;
        }
        let wide: u128 = (compressed_size as u128) * (total_frames as u128) / (
        compressed_frame_count as u128);
        if wide > usize::MAX as u128 {
            usize::MAX
        } else {
            wide as usize
        }
    }
}

/// The completion ratio in thousandths: `min(1000, 1000 * frames / total)`,
/// complete when there is nothing to do.
pub open spec fn spec_permille(frames: nat, total: nat) -> nat {
    if total == 0 {
        1000
    } else if 1000 * frames / total > 1000 {
        1000
    } else {
        1000 * frames / total
    }
}

/// The completion ratio of `frames` out of `total` in thousandths.
pub fn progress_permille(frames: usize, total: usize) -> (r: u32)
    ensures
        r as nat == spec_permille(frames as nat, total as nat),
{
    if total == 0 {
        1000
    } else {
        let wide: u128 = 1000 * (frames as u128) / (total as u128);
        if wide > 1000 {
            1000
        } else {
            wide as u32
        }
    }
}

/// One emitted progress report: the figures shown for a complete sample.
#[derive(Debug)]
pub struct TranscodeProgressMessage {
    pub frames: usize,
    pub total_frames: usize,
    pub progress_permille: u32,
    pub current_size: usize,
    pub predicted_compressed_size: usize,
    pub message: String,
}

/// Builds the report for a complete sample: the frame counts, the
/// completion ratio, the bytes written so far, and the predicted final
/// size, with a "frames/total" text.
pub fn progress_message(progress: &CompressionProgress, total_frames: usize) -> (m:
    TranscodeProgressMessage)
    ensures
        m.frames == progress.frame,
        m.total_frames == total_frames,
        m.progress_permille as nat == spec_permille(progress.frame as nat, total_frames as nat),
        m.current_size == progress.total_size,
        m.predicted_compressed_size as nat == spec_predict_size(
            progress.total_size as nat,
            total_frames as nat,
            progress.frame as nat,
        ),
        m.message@ == dec_seq(progress.frame as nat) + "/"@ + dec_seq(total_frames as nat),
{
    let mut message = usize_to_string(progress.frame);
    message.append("/");
    let total_text = usize_to_string(total_frames);
    message.append(total_text.as_str());
    TranscodeProgressMessage {
        frames: progress.frame,
        total_frames,
        progress_permille: progress_permille(progress.frame, total_frames),
        current_size: progress.total_size,
        predicted_compressed_size: predict_compressed_size(
            progress.total_size,
            total_frames,
            progress.frame,
        ),
        message,
    }
}

/// Whether the destination file must be removed after the encoder is done:
/// always after a cancellation, and always after a failed exit, so no
/// partial output survives.
pub fn should_delete_destination(stopped: bool, exit_success: bool) -> (r: bool)
    ensures
        r == (stopped || !exit_success),
{
    stopped || !exit_success
}

/// The full encoder argument list for one conversion.
pub open spec fn build_args_seq(
    codec: Codec,
    container: Container,
    quality: Quality,
    source: Seq<char>,
    destination: Seq<char>,
) -> Seq<Seq<char>> {
    seq![
        "-hide_banner"@,
        "-nostats"@,
        "-loglevel"@,
        "warning"@,
        "-progress"@,
        "pipe:1"@,
        "-i"@,
        source,
    ] + quality_parameter_seq(codec, quality) + seq!["-c:a"@, "copy"@, "-c:s"@, "copy"@, "-map"@, "0"@]
        + container_parameter_seq(container) + seq![destination]
}

/// The one-at-a-time conversion driver's configuration: the target codec,
/// container and quality, and whether it is currently busy.
#[derive(Debug)]
pub struct Transcoder {
    pub codec: Codec,
    pub container: Container,
    pub quality: Quality,
    pub status: TranscodeStatus,
}

impl Transcoder {
    /// The default conversion: AV1 in Matroska at the Great quality tier,
    /// currently idle.
    pub fn default() -> (r: Self)
        ensures
            r.codec is AV1,
            r.container is Matroska,
            r.quality is Great,
            r.status is Idle,
    {
        Transcoder {
            codec: Codec::AV1,
            container: Container::Matroska,
            quality: Quality::Great,
            status: TranscodeStatus::Idle,
        }
    }

    /// Replaces the target codec.
    pub fn codec(self, codec: Codec) -> (r: Self)
        ensures
            r == (Transcoder { codec, ..self }),
    {
        Transcoder { codec, ..self }
    }

    /// Replaces the quality tier.
    pub fn quality(self, quality: Quality) -> (r: Self)
        ensures
            r == (Transcoder { quality, ..self }),
    {
        Transcoder { quality, ..self }
    }

    /// Replaces the target container.
    pub fn container(self, container: Container) -> (r: Self)
        ensures
            r == (Transcoder { container, ..self }),
    {
        Transcoder { container, ..self }
    }

    /// Assembles the encoder's argument list: progress streaming on its
    /// standard output, the source as input, the codec's quality
    /// parameters, audio and subtitles copied, every stream mapped, the
    /// container's muxer flags, and the destination.
    pub fn build_args(&self, source: &String, destination: &String) -> (r: Vec<String>)
        ensures
            r.deep_view() == build_args_seq(
                self.codec,
                self.container,
                self.quality,
                source@,
                destination@,
            ),
    {
        let mut args: Vec<String> = Vec::new();
        args.push("-hide_banner".to_owned());
        args.push("-nostats".to_owned());
        args.push("-loglevel".to_owned());
        args.push("warning".to_owned());
        args.push("-progress".to_owned());
        args.push("pipe:1".to_owned());
        args.push("-i".to_owned());
        args.push(source.clone());
        let mut quality_args = Quality::parameters(self.codec.clone(), self.quality);
        args.append(&mut quality_args);
        args.push("-c:a".to_owned());
        args.push("copy".to_owned());
        args.push("-c:s".to_owned());
        args.push("copy".to_owned());
        args.push("-map".to_owned());
        args.push("0".to_owned());
        let mut container_args = Container::parameters(self.container);
        args.append(&mut container_args);
        args.push(destination.clone());
        assert(args.deep_view() =~= build_args_seq(
            self.codec,
            self.container,
            self.quality,
            source@,
            destination@,
        ));
        args
    }
}

} // verus!
