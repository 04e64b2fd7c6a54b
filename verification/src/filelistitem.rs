//! One discovered file: its probe metadata, display fields, and lifecycle
//! status, plus the rule deciding which probed files are candidates.

use vstd::prelude::*;
use crate::codecs::Codec;
use crate::numstr::dec_seq;
use crate::probe::AVProbeMetadata;
use crate::text::str_eq;

verus! {

/// The lifecycle status of a discovered file.
///
/// `Unknown` precedes probing; `Invalid` and `Transcoded` are terminal;
/// `Candidate` and `Enqueued` alternate under user control; `Transcoding`
/// is set only by the worker; `Analyzing` is a transient probing state.
#[derive(Clone, Copy, Debug, PartialEq, Eq, Structural)]
pub enum FileListItemStatus {
    Invalid,
    Unknown,
    Candidate,
    Enqueued,
    Transcoding,
    Transcoded,
    Analyzing,
}

/// A catalog entry: the file's path (its identity), the probe metadata, the
/// current status, and the fields shown in listings.
#[derive(Debug)]
pub struct FileListItem {
    pub path: String,
    pub avmetadata: AVProbeMetadata,
    pub status: FileListItemStatus,
    pub size: Option<usize>,
    pub codec: Option<Codec>,
    pub resolution: Option<String>,
}

impl Clone for FileListItem {
    fn clone(&self) -> (r: Self)
        ensures
            r == *self,
    {
        FileListItem {
            path: self.path.clone(),
            avmetadata: self.avmetadata.clone(),
            status: self.status,
            size: self.size,
            codec: match &self.codec {
                None => None,
                Some(c) => Some(c.clone()),
            },
            resolution: match &self.resolution {
                None => None,
                Some(s) => Some(s.clone()),
            },
        }
    }
}

/// Whether a probed file is a conversion candidate: H264 always is, HEVC is
/// unless already tagged `hvc1`, and AV1 or an unrecognized codec never is.
pub open spec fn is_candidate_codec(codec: Codec, tag: Option<String>) -> bool {
    match codec {
        Codec::AV1 => false,
        Codec::Unknown(_) => false,
        Codec::H264 => true,
        Codec::HEVC => match tag {
            Some(t) => t@ != "hvc1"@,
            None => true,
        },
    }
}

impl FileListItem {
    /// Builds the catalog entry for a probed file, or nothing when the
    /// probed codec rules it out as a candidate. A new entry always starts
    /// as `Candidate`, with its display fields taken from the probe.
    pub fn new(path: String, probe: AVProbeMetadata, size: Option<usize>) -> (r: Option<Self>)
        ensures
            r is Some <==> is_candidate_codec(probe.video_codec, probe.video_codec_tag),
            r matches Some(item) ==> {
                &&& item.path@ == path@
                &&& item.avmetadata == probe
                &&& item.status is Candidate
                &&& item.size == size
                &&& item.codec == Some(probe.video_codec)
                &&& item.resolution matches Some(res) && res@ == dec_seq(
                    probe.resolution.width as nat,
                ) + "x"@ + dec_seq(probe.resolution.height as nat)
            },
    {
        let candidate = match &probe.video_codec {
            Codec::AV1 => false,
            Codec::Unknown(_) => false,
            Codec::H264 => true,
            Codec::HEVC => match &probe.video_codec_tag {
                Some(tag) => !str_eq(tag.as_str(), "hvc1"),
                None => true,
            },
        };
        if candidate {
            let resolution = probe.resolution.label();
            let codec = probe.video_codec.clone();
            Some(
                FileListItem {
                    path,
                    avmetadata: probe,
                    status: FileListItemStatus::Candidate,
                    size,
                    codec: Some(codec),
                    resolution: Some(resolution),
                },
            )
        } else {
            None
        }
    }

    /// Reverts the entry to `Candidate` (a user dequeue).
    pub fn set_candidate(&mut self)
        ensures
            *final(self) == (FileListItem { status: FileListItemStatus::Candidate, ..*old(self) }),
    {
        self.status = FileListItemStatus::Candidate;
    }

    /// Marks the entry as being converted right now.
    pub fn set_transcoding(&mut self)
        ensures
            *final(self) == (FileListItem {
                status: FileListItemStatus::Transcoding,
                ..*old(self)
            }),
    {
        self.status = FileListItemStatus::Transcoding;
    }

    /// Marks the entry as converted; this is terminal for the session.
    pub fn set_transcoded(&mut self)
        ensures
            *final(self) == (FileListItem { status: FileListItemStatus::Transcoded, ..*old(self) }),
    {
        self.status = FileListItemStatus::Transcoded;
    }

    /// Marks the entry as queued for conversion.
    pub fn set_enqueued(&mut self)
        ensures
            *final(self) == (FileListItem { status: FileListItemStatus::Enqueued, ..*old(self) }),
    {
        self.status = FileListItemStatus::Enqueued;
    }
}

} // verus!
