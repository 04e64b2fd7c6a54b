//! The HEVC parameter factory.

use vstd::prelude::*;
use crate::ffmpeg::compressor::CompressorOptions;
use crate::ffmpeg::probe::AVProbeMetadata;
use crate::numstr::{dec_seq, u64_to_string};
use super::ParameterFactory;

verus! {

/// The HEVC constant-rate factor the switches pick.
pub open spec fn chosen_crf(options: &CompressorOptions) -> u16 {
    if options.fast {
        35u16
    } else {
        25u16
    }
}

/// The HEVC preset name the switches pick.
pub open spec fn chosen_preset(options: &CompressorOptions) -> Seq<char> {
    if options.fast {
        "faster"@
    } else {
        "slower"@
    }
}

/// Encoder arguments for HEVC: a constant-rate factor and a named preset
/// picked from the speed switch.
#[derive(Debug)]
pub struct HevcParameterFactory {
    crf: u16,
    preset: String,
}

impl HevcParameterFactory {
    /// The chosen constant-rate factor.
    pub closed spec fn spec_crf(&self) -> u16 {
        self.crf
    }

    /// The chosen preset name.
    pub closed spec fn spec_preset(&self) -> Seq<char> {
        self.preset@
    }

    /// Picks the factor and preset from the speed switch.
    pub fn new(options: &CompressorOptions) -> (r: Self)
        ensures
            r.spec_crf() == chosen_crf(options),
            r.spec_preset() == chosen_preset(options),
    {
        HevcParameterFactory {
            crf: if options.fast {
                35
            } else {
                25
            },
            preset: if options.fast {
                "faster".to_owned()
            } else {
                "slower".to_owned()
            },
        }
    }
}

impl ParameterFactory for HevcParameterFactory {
    open spec fn spec_parameters(&self, input: Seq<char>, probe: &AVProbeMetadata) -> Seq<
        Seq<char>,
    > {
        seq![
            "-c:v"@,
            "libx265"@,
            "-crf"@,
            dec_seq(self.spec_crf() as nat),
            "-preset"@,
            self.spec_preset(),
            "-tag:v"@,
            "hvc1"@,
        ]
    }

    fn parameters(&self, input: &String, probe: &AVProbeMetadata) -> (r: Vec<String>) {
        let mut r: Vec<String> = Vec::new();
        r.push("-c:v".to_owned());
        r.push("libx265".to_owned());
        r.push("-crf".to_owned());
        r.push(u64_to_string(self.crf as u64));
        r.push("-preset".to_owned());
        r.push(self.preset.clone());
        r.push("-tag:v".to_owned());
        r.push("hvc1".to_owned());
        assert(r.deep_view() =~= self.spec_parameters(input@, probe));
        r
    }
}

} // verus!
