//! The shared "what is the pipeline doing right now" record that observers
//! read and the event mirror writes.

use vstd::prelude::*;

verus! {

/// Whether a conversion is currently running.
#[derive(Clone, Copy, Debug, PartialEq, Eq, Structural)]
pub enum TranscodeStatus {
    Idle,
    Transcoding,
}

/// The live status record: idle/active, the active source, and the latest
/// progress figures. All progress fields are unset while idle.
#[derive(Debug)]
pub struct TranscodeState {
    pub path: Option<String>,
    pub progress_permille: Option<u32>,
    pub status: TranscodeStatus,
    pub message: Option<String>,
    pub source_size: Option<usize>,
    pub current_transcoding_size: Option<usize>,
    pub predicted_transcoded_size: Option<usize>,
    pub frames: Option<usize>,
    pub total_frames: Option<usize>,
}

/// An idle record with every progress field cleared.
pub open spec fn idle_state() -> TranscodeState {
    TranscodeState {
        path: None,
        progress_permille: None,
        status: TranscodeStatus::Idle,
        message: None,
        source_size: None,
        current_transcoding_size: None,
        predicted_transcoded_size: None,
        frames: None,
        total_frames: None,
    }
}

impl Clone for TranscodeState {
    fn clone(&self) -> (r: Self)
        ensures
            r == *self,
    {
        TranscodeState {
            path: match &self.path {
                None => None,
                Some(p) => Some(p.clone()),
            },
            progress_permille: self.progress_permille,
            status: self.status,
            message: match &self.message {
                None => None,
                Some(m) => Some(m.clone()),
            },
            source_size: self.source_size,
            current_transcoding_size: self.current_transcoding_size,
            predicted_transcoded_size: self.predicted_transcoded_size,
            frames: self.frames,
            total_frames: self.total_frames,
        }
    }
}

impl TranscodeState {
    /// A fresh record: idle, with no path and no progress.
    pub fn new() -> (r: Self)
        ensures
            r == idle_state(),
    {
        TranscodeState {
            path: None,
            progress_permille: None,
            status: TranscodeStatus::Idle,
            message: None,
            source_size: None,
            current_transcoding_size: None,
            predicted_transcoded_size: None,
            frames: None,
            total_frames: None,
        }
    }
}

} // verus!
