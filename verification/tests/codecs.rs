use transcode_pipeline::codecs::Codec;

#[test]
fn test_display() {
    assert_eq!(Codec::AV1.display(), "av1");
    assert_eq!(Codec::HEVC.display(), "hevc");
    assert_eq!(Codec::H264.display(), "h264");
}

#[test]
fn display_unknown_lowercases_ascii() {
    assert_eq!(Codec::Unknown(String::from("VP9")).display(), "vp9");
    assert_eq!(Codec::Unknown(String::from("MpEg2Video")).display(), "mpeg2video");
}

#[test]
fn from_str_recognizes_supported_codecs() {
    assert_eq!(Codec::from_str("av1"), Codec::AV1);
    assert_eq!(Codec::from_str("AV1"), Codec::AV1);
    assert_eq!(Codec::from_str("hevc"), Codec::HEVC);
    assert_eq!(Codec::from_str("HeVc"), Codec::HEVC);
    assert_eq!(Codec::from_str("h264"), Codec::H264);
}

#[test]
fn from_str_keeps_unknown_names_verbatim() {
    assert_eq!(Codec::from_str("vp9"), Codec::Unknown(String::from("vp9")));
    assert_eq!(Codec::from_str("VP9"), Codec::Unknown(String::from("VP9")));
    assert_eq!(Codec::from_str(""), Codec::Unknown(String::new()));
}

#[test]
fn cv_parameter_names_the_encoder() {
    assert_eq!(Codec::cv_parameter(Codec::AV1), Some(String::from("libsvtav1")));
    assert_eq!(Codec::cv_parameter(Codec::HEVC), Some(String::from("libx265")));
    assert_eq!(Codec::cv_parameter(Codec::H264), Some(String::from("libx264")));
    assert_eq!(Codec::cv_parameter(Codec::Unknown(String::from("vp9"))), None);
}

#[test]
fn default_codec_is_unknown_and_empty() {
    assert_eq!(Codec::default(), Codec::Unknown(String::new()));
}
