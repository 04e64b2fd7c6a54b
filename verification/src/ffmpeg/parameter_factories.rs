//! Per-codec encoder parameter factories: each one turns the user's
//! options into the fixed argument list for its codec.

pub mod av1;
pub mod hevc;

use vstd::prelude::*;
use crate::ffmpeg::probe::AVProbeMetadata;

verus! {

/// A source of encoder arguments for one codec. Each implementation pins
/// its arguments down with `spec_parameters`.
pub trait ParameterFactory {
    /// The exact argument list produced for this input and probe record.
    spec fn spec_parameters(&self, input: Seq<char>, probe: &AVProbeMetadata) -> Seq<Seq<char>>;

    /// Produces the encoder arguments for one input file.
    fn parameters(&self, input: &String, probe: &AVProbeMetadata) -> (r: Vec<String>)
        ensures
            r.deep_view() == self.spec_parameters(input@, probe),
    ;
}

} // verus!
