//! The external encoder's front: its configuration types, parameter
//! factories, and prober record live in the submodules; running the
//! encoder itself is the caller's business.

pub mod compressor;
pub mod parameter_factories;
pub mod probe;

use vstd::prelude::*;

verus! {

/// A handle for the external encoder installation.
#[derive(Debug)]
pub struct FFmpeg {}

impl FFmpeg {
    /// A handle; whether the encoder is actually installed is probed by
    /// the caller.
    pub fn new() -> (r: Self)
        ensures
            r == (FFmpeg {  }),
    {
        FFmpeg {  }
    }
}

} // verus!
