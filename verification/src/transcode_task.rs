//! One unit of pending conversion work.

use vstd::prelude::*;
use crate::codecs::Codec;
use crate::containers::Container;
use crate::probe::AVProbeMetadata;
use crate::quality::Quality;

verus! {

/// A queued request to convert one source file to one destination with a
/// fixed codec, container, and quality; the destination is computed once,
/// at enqueue time, and never changes.
#[derive(Debug)]
pub struct TranscodeTask {
    pub source: String,
    pub destination: String,
    pub metadata: AVProbeMetadata,
    pub codec: Codec,
    pub container: Container,
    pub quality: Quality,
}

impl Clone for TranscodeTask {
    fn clone(&self) -> (r: Self)
        ensures
            r == *self,
    {
        TranscodeTask {
            source: self.source.clone(),
            destination: self.destination.clone(),
            metadata: self.metadata.clone(),
            codec: self.codec.clone(),
            container: self.container,
            quality: self.quality,
        }
    }
}

} // verus!
