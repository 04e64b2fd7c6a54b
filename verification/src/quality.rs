//! Quality tiers and the per-codec encoder parameter tables they map to.

use vstd::prelude::*;
use crate::codecs::Codec;

verus! {

/// A named quality preset, trading encode speed against output quality.
#[derive(Clone, Copy, Debug, PartialEq, Eq, Structural)]
pub enum Quality {
    Insane,
    Excellent,
    Great,
    Good,
    Fast,
}

/// The encoder arguments chosen for the AV1 codec at each quality tier.
pub open spec fn av1_parameter_seq(quality: Quality) -> Seq<Seq<char>> {
    match quality {
        Quality::Insane => seq!["-c:v"@, "libsvtav1"@, "-crf"@, "8"@, "-preset"@, "2"@],
        Quality::Excellent => seq!["-c:v"@, "libsvtav1"@, "-crf"@, "18"@, "-preset"@, "2"@],
        Quality::Great => seq!["-c:v"@, "libsvtav1"@, "-crf"@, "22"@, "-preset"@, "3"@],
        Quality::Good => seq!["-c:v"@, "libsvtav1"@, "-crf"@, "25"@, "-preset"@, "8"@],
        Quality::Fast => seq!["-c:v"@, "libsvtav1"@, "-crf"@, "25"@, "-preset"@, "12"@],
    }
}

/// The encoder arguments chosen for the HEVC codec at each quality tier.
pub open spec fn hevc_parameter_seq(quality: Quality) -> Seq<Seq<char>> {
    match quality {
        Quality::Insane => seq!["-c:v"@, "libx265"@, "-crf"@, "18"@, "-preset"@, "veryslow"@],
        Quality::Excellent => seq!["-c:v"@, "libx265"@, "-crf"@, "20"@, "-preset"@, "slower"@],
        Quality::Great => seq!["-c:v"@, "libx265"@, "-crf"@, "25"@, "-preset"@, "medium"@],
        Quality::Good => seq!["-c:v"@, "libx265"@, "-crf"@, "28"@, "-preset"@, "fast"@],
        Quality::Fast => seq!["-c:v"@, "libx265"@, "-crf"@, "30"@, "-preset"@, "veryfast"@],
    }
}

/// The encoder arguments chosen for the H264 codec at each quality tier.
pub open spec fn h264_parameter_seq(quality: Quality) -> Seq<Seq<char>> {
    match quality {
        Quality::Insane => seq!["-c:v"@, "libx264"@, "-crf"@, "8"@, "-preset"@, "veryslow"@],
        Quality::Excellent => seq!["-c:v"@, "libx264"@, "-crf"@, "16"@, "-preset"@, "slower"@],
        Quality::Great => seq!["-c:v"@, "libx264"@, "-crf"@, "18"@, "-preset"@, "medium"@],
        Quality::Good => seq!["-c:v"@, "libx264"@, "-crf"@, "22"@, "-preset"@, "fast"@],
        Quality::Fast => seq!["-c:v"@, "libx264"@, "-crf"@, "24"@, "-preset"@, "veryfast"@],
    }
}

/// The video-encoder arguments for a codec and quality tier; empty for an
/// unknown codec.
pub open spec fn quality_parameter_seq(codec: Codec, quality: Quality) -> Seq<Seq<char>> {
    match codec {
        Codec::Unknown(_) => Seq::empty(),
        Codec::AV1 => av1_parameter_seq(quality),
        Codec::HEVC => hevc_parameter_seq(quality),
        Codec::H264 => h264_parameter_seq(quality),
    }
}

impl Quality {
    /// The video-encoder arguments for the given codec at this quality tier.
    pub fn parameters(codec: Codec, quality: Quality) -> (r: Vec<String>)
        ensures
            r.deep_view() == quality_parameter_seq(codec, quality),
    {
        match codec {
            Codec::Unknown(_) => {
                let r: Vec<String> = Vec::new();
                assert(r.deep_view() =~= Seq::<Seq<char>>::empty());
                r
            },
            Codec::AV1 => av1_parameters(quality),
            Codec::HEVC => hevc_parameters(quality),
            Codec::H264 => h264_parameters(quality),
        }
    }
}

fn vec6(a: &str, b: &str, c: &str, d: &str, e: &str, f: &str) -> (r: Vec<String>)
    ensures
        r.deep_view() =~= seq![a@, b@, c@, d@, e@, f@],
{
    let mut r: Vec<String> = Vec::new();
    r.push(a.to_owned());
    r.push(b.to_owned());
    r.push(c.to_owned());
    r.push(d.to_owned());
    r.push(e.to_owned());
    r.push(f.to_owned());
    r
}

/// The AV1 encoder arguments at each quality tier.
pub fn av1_parameters(quality: Quality) -> (r: Vec<String>)
    ensures
        r.deep_view() == av1_parameter_seq(quality),
{
    let r = match quality {
        Quality::Insane => vec6("-c:v", "libsvtav1", "-crf", "8", "-preset", "2"),
        Quality::Excellent => vec6("-c:v", "libsvtav1", "-crf", "18", "-preset", "2"),
        Quality::Great => vec6("-c:v", "libsvtav1", "-crf", "22", "-preset", "3"),
        Quality::Good => vec6("-c:v", "libsvtav1", "-crf", "25", "-preset", "8"),
        Quality::Fast => vec6("-c:v", "libsvtav1", "-crf", "25", "-preset", "12"),
    };
    assert(r.deep_view() =~= av1_parameter_seq(quality));
    r
}

/// The HEVC encoder arguments at each quality tier.
pub fn hevc_parameters(quality: Quality) -> (r: Vec<String>)
    ensures
        r.deep_view() == hevc_parameter_seq(quality),
{
    let r = match quality {
        Quality::Insane => vec6("-c:v", "libx265", "-crf", "18", "-preset", "veryslow"),
        Quality::Excellent => vec6("-c:v", "libx265", "-crf", "20", "-preset", "slower"),
        Quality::Great => vec6("-c:v", "libx265", "-crf", "25", "-preset", "medium"),
        Quality::Good => vec6("-c:v", "libx265", "-crf", "28", "-preset", "fast"),
        Quality::Fast => vec6("-c:v", "libx265", "-crf", "30", "-preset", "veryfast"),
    };
    assert(r.deep_view() =~= hevc_parameter_seq(quality));
    r
}

/// The H264 encoder arguments at each quality tier.
pub fn h264_parameters(quality: Quality) -> (r: Vec<String>)
    ensures
        r.deep_view() == h264_parameter_seq(quality),
{
    let r = match quality {
        Quality::Insane => vec6("-c:v", "libx264", "-crf", "8", "-preset", "veryslow"),
        Quality::Excellent => vec6("-c:v", "libx264", "-crf", "16", "-preset", "slower"),
        Quality::Great => vec6("-c:v", "libx264", "-crf", "18", "-preset", "medium"),
        Quality::Good => vec6("-c:v", "libx264", "-crf", "22", "-preset", "fast"),
        Quality::Fast => vec6("-c:v", "libx264", "-crf", "24", "-preset", "veryfast"),
    };
    assert(r.deep_view() =~= h264_parameter_seq(quality));
    r
}

} // verus!
