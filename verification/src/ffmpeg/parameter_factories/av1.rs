//! The AV1 parameter factory.

use vstd::prelude::*;
use crate::ffmpeg::compressor::CompressorOptions;
use crate::ffmpeg::probe::AVProbeMetadata;
use crate::numstr::{dec_seq, u64_to_string};
use super::ParameterFactory;

verus! {

/// The AV1 constant-rate factor the switches pick: fast runs use a
/// coarser factor unless extreme quality is asked.
pub open spec fn chosen_crf(options: &CompressorOptions) -> u16 {
    if options.fast {
        if options.extreme {
            25u16
        } else {
            35u16
        }
    } else {
        if options.extreme {
            18u16
        } else {
            25u16
        }
    }
}

/// The AV1 preset the switches pick: the fastest for fast runs.
pub open spec fn chosen_preset(options: &CompressorOptions) -> u16 {
    if options.fast {
        12u16
    } else {
        2u16
    }
}

/// Encoder arguments for AV1: a constant-rate factor and a preset picked
/// from the speed/quality switches.
#[derive(Debug)]
pub struct Av1ParameterFactory {
    crf: u16,
    preset: u16,
}

impl Av1ParameterFactory {
    /// The chosen constant-rate factor.
    pub closed spec fn spec_crf(&self) -> u16 {
        self.crf
    }

    /// The chosen preset.
    pub closed spec fn spec_preset(&self) -> u16 {
        self.preset
    }

    /// Picks the factor and preset: fast runs use the fastest preset and,
    /// unless extreme quality is asked, a coarser factor.
    pub fn new(options: &CompressorOptions) -> (r: Self)
        ensures
            r.spec_crf() == chosen_crf(options),
            r.spec_preset() == chosen_preset(options),
    {
        Av1ParameterFactory {
            crf: if options.fast {
                if options.extreme {
                    25
                } else {
                    35
                }
            } else {
                if options.extreme {
                    18
                } else {
                    25
                }
            },
            preset: if options.fast {
                12
            } else {
                2
            },
        }
    }
}

impl ParameterFactory for Av1ParameterFactory {
    open spec fn spec_parameters(&self, input: Seq<char>, probe: &AVProbeMetadata) -> Seq<
        Seq<char>,
    > {
        seq![
            "-c:v"@,
            "libsvtav1"@,
            "-crf"@,
            dec_seq(self.spec_crf() as nat),
            "-preset"@,
            dec_seq(self.spec_preset() as nat),
            "-svtav1-params"@,
            "tune=0"@,
            "-g"@,
            dec_seq(probe.frame_rate as nat),
        ]
    }

    fn parameters(&self, input: &String, probe: &AVProbeMetadata) -> (r: Vec<String>) {
        let mut r: Vec<String> = Vec::new();
        r.push("-c:v".to_owned());
        r.push("libsvtav1".to_owned());
        r.push("-crf".to_owned());
        r.push(u64_to_string(self.crf as u64));
        r.push("-preset".to_owned());
        r.push(u64_to_string(self.preset as u64));
        r.push("-svtav1-params".to_owned());
        r.push("tune=0".to_owned());
        r.push("-g".to_owned());
        r.push(u64_to_string(probe.frame_rate));
        assert(r.deep_view() =~= self.spec_parameters(input@, probe));
        r
    }
}

} // verus!
