//! The command-line compression front's pure half: choosing a parameter
//! factory for the requested codec and naming the output file.

use vstd::prelude::*;
use crate::error::InputParseError;
use crate::ffmpeg::compressor::CompressorOptions;
use crate::ffmpeg::parameter_factories::av1;
use crate::ffmpeg::parameter_factories::av1::Av1ParameterFactory;
use crate::ffmpeg::parameter_factories::hevc;
use crate::ffmpeg::parameter_factories::hevc::HevcParameterFactory;
use crate::paths::{spec_with_extension, with_extension};
use crate::text::str_eq;

verus! {

/// The parameter factory for one supported codec.
#[derive(Debug)]
pub enum CodecParameterFactory {
    Av1(Av1ParameterFactory),
    Hevc(HevcParameterFactory),
}

/// Chooses the parameter factory named by the options' codec; any other
/// codec name is rejected.
pub fn create_parameter_factory(input: &String, options: &CompressorOptions) -> (r: Result<
    CodecParameterFactory,
    InputParseError,
>)
    ensures
        options.codec@ == "av1"@ ==> (r matches Ok(f) && f matches CodecParameterFactory::Av1(a)
            && a.spec_crf() == av1::chosen_crf(options) && a.spec_preset() == av1::chosen_preset(options)),
        options.codec@ == "hevc"@ ==> (r matches Ok(f) && f matches CodecParameterFactory::Hevc(h)
            && h.spec_crf() == hevc::chosen_crf(options) && h.spec_preset() == hevc::chosen_preset(options)),
        options.codec@ != "av1"@ && options.codec@ != "hevc"@ ==> (r matches Err(e) && e.spec_path()
            == input@ && e.spec_message() == "Unsupported output codec: "@ + options.codec@ + "."@),
{
    proof {
        reveal_strlit("av1");
        reveal_strlit("hevc");
        assert("av1"@.len() == 3);
        assert("hevc"@.len() == 4);
        assert("av1"@ != "hevc"@);
    }
    if str_eq(options.codec.as_str(), "av1") {
        Ok(CodecParameterFactory::Av1(Av1ParameterFactory::new(options)))
    } else if str_eq(options.codec.as_str(), "hevc") {
        Ok(CodecParameterFactory::Hevc(HevcParameterFactory::new(options)))
    } else {
        let mut m: String = "Unsupported output codec: ".to_owned();
        m.append(options.codec.as_str());
        m.append(".");
        Err(InputParseError::for_file(input, m.as_str()))
    }
}

/// The combined "codec.container" extension given to output files.
pub fn extension(codec: &str, container: &str) -> (r: String)
    ensures
        r@ == codec@ + "."@ + container@,
{
    let mut r: String = codec.to_owned();
    r.append(".");
    r.append(container);
    r
}

/// The compression front: its options, shared by every file it handles.
#[derive(Debug)]
pub struct Compressor {
    options: CompressorOptions,
}

impl Clone for Compressor {
    fn clone(&self) -> (r: Self)
        ensures
            r == *self,
    {
        Compressor { options: self.options.clone() }
    }
}

impl Compressor {
    /// The front's options.
    pub closed spec fn spec_options(&self) -> CompressorOptions {
        self.options
    }

    /// A front with the given options; the channel that feeds it stop
    /// signals belongs to the caller.
    pub fn new(options: CompressorOptions) -> (r: Self)
        ensures
            r.spec_options() == options,
    {
        Compressor { options }
    }

    /// A copy of the front's options.
    pub fn options(&self) -> (r: CompressorOptions)
        ensures
            r == self.spec_options(),
    {
        self.options.clone()
    }

    /// Names the output file: the input with its extension replaced by
    /// "codec.container".
    pub fn generate_output_filename(&self, path: &String) -> (r: String)
        ensures
            r@ == spec_with_extension(
                path@,
                self.spec_options().codec@ + "."@ + self.spec_options().container@,
            ),
    {
        let e = extension(self.options.codec.as_str(), self.options.container.as_str());
        with_extension(path.as_str(), e.as_str())
    }
}

} // verus!
