use transcode_pipeline::codecs::Codec;
use transcode_pipeline::quality::{av1_parameters, h264_parameters, hevc_parameters, Quality};

#[test]
fn av1_tiers() {
    assert_eq!(
        av1_parameters(Quality::Insane),
        vec!["-c:v", "libsvtav1", "-crf", "8", "-preset", "2"]
    );
    assert_eq!(
        av1_parameters(Quality::Great),
        vec!["-c:v", "libsvtav1", "-crf", "22", "-preset", "3"]
    );
    assert_eq!(
        av1_parameters(Quality::Fast),
        vec!["-c:v", "libsvtav1", "-crf", "25", "-preset", "12"]
    );
}

#[test]
fn hevc_tiers() {
    assert_eq!(
        hevc_parameters(Quality::Excellent),
        vec!["-c:v", "libx265", "-crf", "20", "-preset", "slower"]
    );
    assert_eq!(
        hevc_parameters(Quality::Good),
        vec!["-c:v", "libx265", "-crf", "28", "-preset", "fast"]
    );
}

#[test]
fn h264_tiers() {
    assert_eq!(
        h264_parameters(Quality::Great),
        vec!["-c:v", "libx264", "-crf", "18", "-preset", "medium"]
    );
    assert_eq!(
        h264_parameters(Quality::Fast),
        vec!["-c:v", "libx264", "-crf", "24", "-preset", "veryfast"]
    );
}

#[test]
fn parameters_dispatch_by_codec() {
    assert_eq!(
        Quality::parameters(Codec::AV1, Quality::Insane),
        av1_parameters(Quality::Insane)
    );
    assert_eq!(
        Quality::parameters(Codec::HEVC, Quality::Fast),
        hevc_parameters(Quality::Fast)
    );
    assert_eq!(
        Quality::parameters(Codec::H264, Quality::Good),
        h264_parameters(Quality::Good)
    );
    assert_eq!(
        Quality::parameters(Codec::Unknown(String::from("vp9")), Quality::Good),
        Vec::<String>::new()
    );
}
