//! Configuration for one encoder run, as the command-line front sets it.

use vstd::prelude::*;
use crate::ffmpeg::probe::AVProbeMetadata;

verus! {

/// The user's choices for a compression run: behavioral switches and the
/// target codec and container by name.
#[derive(Debug)]
pub struct CompressorOptions {
    pub dry_run: bool,
    pub fast: bool,
    pub extreme: bool,
    pub overwrite: bool,
    pub codec: String,
    pub container: String,
}

impl Clone for CompressorOptions {
    fn clone(&self) -> (r: Self)
        ensures
            r == *self,
    {
        CompressorOptions {
            dry_run: self.dry_run,
            fast: self.fast,
            extreme: self.extreme,
            overwrite: self.overwrite,
            codec: self.codec.clone(),
            container: self.container.clone(),
        }
    }
}

fn clone_strings(v: &Vec<String>) -> (r: Vec<String>)
    ensures
        r@ == v@,
{
    let len = v.len();
    let mut r: Vec<String> = Vec::new();
    let mut i: usize = 0;
    while i < len
        invariant
            i <= len,
            len == v@.len(),
            r@ =~= v@.take(i as int),
        decreases len - i,
    {
        r.push(v[i].clone());
        assert(r@ =~= v@.take(i + 1));
        i = i + 1;
    }
    assert(v@.take(len as int) =~= v@);
    r
}

/// The encoder driver for one compression run.
#[derive(Debug)]
pub struct FFmpegCompressor {
    options: CompressorOptions,
}

impl FFmpegCompressor {
    /// The run's options.
    pub closed spec fn spec_options(&self) -> CompressorOptions {
        self.options
    }

    /// A driver with the given options; spawning and feeding the encoder
    /// process is the caller's side of the work.
    pub fn new(options: CompressorOptions) -> (r: Self)
        ensures
            r.spec_options() == options,
    {
        FFmpegCompressor { options }
    }

    /// A copy of the run's options.
    pub fn options(&self) -> (r: CompressorOptions)
        ensures
            r == self.spec_options(),
    {
        self.options.clone()
    }

    /// Whether a probed file is already in the target codec, making the
    /// run a no-op success.
    pub fn should_skip(&self, probe: &AVProbeMetadata) -> (r: bool)
        ensures
            r == (probe.video_codec@ == self.spec_options().codec@),
    {
        crate::text::str_eq(probe.video_codec.as_str(), self.options.codec.as_str())
    }

    /// The whole argument list for one run: progress streaming on standard
    /// output, the input, the codec parameters, audio and subtitles
    /// copied, every stream mapped, and the output.
    pub fn build_args(&self, input: &String, output: &String, parameters: &Vec<String>) -> (r: Vec<
        String,
    >)
        ensures
            r.deep_view() == seq![
                "-hide_banner"@,
                "-nostats"@,
                "-loglevel"@,
                "warning"@,
                "-progress"@,
                "pipe:1"@,
                "-i"@,
                input@,
            ] + parameters.deep_view() + seq!["-c:a"@, "copy"@, "-c:s"@, "copy"@, "-map"@, "0"@, output@],
    {
        let mut args: Vec<String> = Vec::new();
        args.push("-hide_banner".to_owned());
        args.push("-nostats".to_owned());
        args.push("-loglevel".to_owned());
        args.push("warning".to_owned());
        args.push("-progress".to_owned());
        args.push("pipe:1".to_owned());
        args.push("-i".to_owned());
        args.push(input.clone());
        let mut params = clone_strings(parameters);
        args.append(&mut params);
        args.push("-c:a".to_owned());
        args.push("copy".to_owned());
        args.push("-c:s".to_owned());
        args.push("copy".to_owned());
        args.push("-map".to_owned());
        args.push("0".to_owned());
        args.push(output.clone());
        assert(args.deep_view() =~= seq![
            "-hide_banner"@,
            "-nostats"@,
            "-loglevel"@,
            "warning"@,
            "-progress"@,
            "pipe:1"@,
            "-i"@,
            input@,
        ] + parameters.deep_view() + seq!["-c:a"@, "copy"@, "-c:s"@, "copy"@, "-map"@, "0"@, output@]);
        args
    }
}

} // verus!
