use transcode_pipeline::codecs::Codec;
use transcode_pipeline::probe::{get_frame_rate, AVProbeMetadata, FFProbeJsonStream, Resolution};

fn ffprobe_json_stream_from_frame_rate(frame_rate: &str) -> FFProbeJsonStream {
    FFProbeJsonStream {
        codec_name: String::new(),
        codec_tag_string: None,
        width: 0,
        height: 0,
        pix_fmt: String::new(),
        nb_read_packets: None,
        avg_frame_rate: String::from(frame_rate),
        field_order: None,
    }
}

#[test]
fn test_get_frame_rate() {
    assert_eq!(
        get_frame_rate(&String::from(""), &ffprobe_json_stream_from_frame_rate("25/1")).unwrap(),
        25
    );
    assert_eq!(
        get_frame_rate(&String::from(""), &ffprobe_json_stream_from_frame_rate("24000/1001"))
            .unwrap(),
        24
    );
    assert_eq!(
        get_frame_rate(&String::from(""), &ffprobe_json_stream_from_frame_rate("60/1")).unwrap(),
        60
    );
}

#[test]
fn frame_rate_rounds_half_up() {
    // 59.94 rounds to 60, 29.5 rounds to 30
    assert_eq!(
        get_frame_rate(&String::from(""), &ffprobe_json_stream_from_frame_rate("60000/1001"))
            .unwrap(),
        60
    );
    assert_eq!(
        get_frame_rate(&String::from(""), &ffprobe_json_stream_from_frame_rate("59/2")).unwrap(),
        30
    );
}

#[test]
fn frame_rate_errors_name_the_bad_part() {
    let path = String::from("clip.mkv");
    let err = get_frame_rate(&path, &ffprobe_json_stream_from_frame_rate("25")).unwrap_err();
    assert_eq!(err.path().as_str(), "clip.mkv");
    assert_eq!(err.message().as_str(), "Unexpected avg_frame_rate format: '25'");

    let err = get_frame_rate(&path, &ffprobe_json_stream_from_frame_rate("abc/1")).unwrap_err();
    assert_eq!(err.message().as_str(), "numerator 'abc' from 'abc/1' is not a number.");

    let err = get_frame_rate(&path, &ffprobe_json_stream_from_frame_rate("25/xyz")).unwrap_err();
    assert_eq!(err.message().as_str(), "denominator 'xyz' from '25/xyz' is not a number.");

    let err = get_frame_rate(&path, &ffprobe_json_stream_from_frame_rate("25/1/1")).unwrap_err();
    assert_eq!(err.message().as_str(), "Unexpected avg_frame_rate format: '25/1/1'");
}

#[test]
fn empty_metadata_has_the_fallback_rate() {
    let m = AVProbeMetadata::empty();
    assert_eq!(m.video_codec, Codec::Unknown(String::new()));
    assert_eq!(m.video_codec_tag, None);
    assert_eq!(m.file_size, None);
    assert_eq!(m.resolution.width, 0);
    assert_eq!(m.resolution.height, 0);
    assert_eq!(m.total_frames, 0);
    assert_eq!(m.frame_rate, 300);
    assert!(!m.interlaced);
}

fn stream_record() -> FFProbeJsonStream {
    FFProbeJsonStream {
        codec_name: String::from("h264"),
        codec_tag_string: Some(String::from("avc1")),
        field_order: Some(String::from("progressive")),
        width: 1920,
        height: 1080,
        pix_fmt: String::from("yuv420p"),
        nb_read_packets: Some(String::from("1500")),
        avg_frame_rate: String::from("25/1"),
    }
}

#[test]
fn metadata_from_counted_stream() {
    let path = String::from("clip.mkv");
    let m = AVProbeMetadata::from_stream(&path, &stream_record(), Some(4096));
    assert_eq!(m.video_codec, Codec::H264);
    assert_eq!(m.video_codec_tag, Some(String::from("avc1")));
    assert_eq!(m.file_size, Some(4096));
    assert_eq!(m.resolution.width, 1920);
    assert_eq!(m.resolution.height, 1080);
    assert_eq!(m.total_frames, 1500);
    assert_eq!(m.frame_rate, 25);
    assert!(!m.interlaced);
}

#[test]
fn metadata_from_fast_stream_knows_no_frame_count() {
    let path = String::from("clip.mkv");
    let m = AVProbeMetadata::from_stream_fast(&path, &stream_record(), None);
    assert_eq!(m.total_frames, 0);
    assert_eq!(m.frame_rate, 25);
}

#[test]
fn metadata_falls_back_on_unreadable_fields() {
    let path = String::from("clip.mkv");
    let mut s = stream_record();
    s.nb_read_packets = Some(String::from("many"));
    s.avg_frame_rate = String::from("n/a");
    s.field_order = Some(String::from("tt"));
    let m = AVProbeMetadata::from_stream(&path, &s, None);
    assert_eq!(m.total_frames, 1);
    assert_eq!(m.frame_rate, 300);
    assert!(m.interlaced);

    let mut s = stream_record();
    s.nb_read_packets = None;
    s.field_order = None;
    let m = AVProbeMetadata::from_stream(&path, &s, None);
    assert_eq!(m.total_frames, 1);
    assert!(!m.interlaced);
}

#[test]
fn resolution_label_is_width_x_height() {
    let r = Resolution { width: 1920, height: 1080 };
    assert_eq!(r.label(), "1920x1080");
}
