use transcode_pipeline::codecs::Codec;
use transcode_pipeline::containers::Container;
use transcode_pipeline::quality::Quality;
use transcode_pipeline::transcoder::{should_delete_destination, Transcoder};

#[test]
fn test_default() {
    let _ = Transcoder::default();
}

#[test]
fn test_configure_default() {
    let transcoder = Transcoder::default()
        .codec(Codec::HEVC)
        .quality(Quality::Insane)
        .container(Container::MP4);
    assert_eq!(transcoder.codec, Codec::HEVC);
    assert_eq!(transcoder.quality, Quality::Insane);
    assert_eq!(transcoder.container, Container::MP4);
}

#[test]
fn build_args_lists_the_whole_invocation() {
    let t = Transcoder::default();
    let args = t.build_args(&String::from("in.mp4"), &String::from("in.av1.mkv"));
    assert_eq!(
        args,
        vec![
            "-hide_banner",
            "-nostats",
            "-loglevel",
            "warning",
            "-progress",
            "pipe:1",
            "-i",
            "in.mp4",
            "-c:v",
            "libsvtav1",
            "-crf",
            "22",
            "-preset",
            "3",
            "-c:a",
            "copy",
            "-c:s",
            "copy",
            "-map",
            "0",
            "-f",
            "matroska",
            "in.av1.mkv",
        ]
    );
}

#[test]
fn build_args_with_unknown_codec_has_no_video_parameters() {
    let t = Transcoder::default().codec(Codec::Unknown(String::from("vp9")));
    let args = t.build_args(&String::from("a"), &String::from("b"));
    assert_eq!(
        args,
        vec![
            "-hide_banner",
            "-nostats",
            "-loglevel",
            "warning",
            "-progress",
            "pipe:1",
            "-i",
            "a",
            "-c:a",
            "copy",
            "-c:s",
            "copy",
            "-map",
            "0",
            "-f",
            "matroska",
            "b",
        ]
    );
}

#[test]
fn destination_cleanup_follows_cancellation_and_failure() {
    assert!(should_delete_destination(true, true));
    assert!(should_delete_destination(true, false));
    assert!(should_delete_destination(false, false));
    assert!(!should_delete_destination(false, true));
}
