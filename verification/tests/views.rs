use transcode_pipeline::components::FileList as FileListView;
use transcode_pipeline::codecs::Codec;
use transcode_pipeline::ffmpeg::compressor::{CompressorOptions, FFmpegCompressor};
use transcode_pipeline::ffmpeg::probe::AVProbeMetadata as FFmpegProbeMetadata;
use transcode_pipeline::ffmpeg::FFmpeg;
use transcode_pipeline::filelist::FileList;
use transcode_pipeline::filelistitem::{FileListItem, FileListItemStatus};
use transcode_pipeline::filescanner::FileScanner;
use transcode_pipeline::fstools::DirEntryCategory;
use transcode_pipeline::probe::{AVProbeMetadata, FFProbeJsonStream};
use transcode_pipeline::text::split_two;

#[test]
fn file_list_view_holds_the_snapshot() {
    let mut catalog = FileList::new();
    catalog.insert(FileListItem {
        path: String::from("a.mp4"),
        avmetadata: AVProbeMetadata::empty(),
        status: FileListItemStatus::Candidate,
        size: Some(1),
        codec: Some(Codec::H264),
        resolution: None,
    });
    let view = FileListView::new(catalog.snapshot());
    assert_eq!(view.items().len(), 1);
    assert_eq!(view.items()[0].path, "a.mp4");
}

#[test]
fn scanner_remembers_recursion() {
    assert!(FileScanner::new(true).recursive);
    assert!(!FileScanner::new(false).recursive);
}

#[test]
fn dir_entry_categories_are_distinct() {
    assert_ne!(DirEntryCategory::RegularFile, DirEntryCategory::Directory);
    assert_eq!(DirEntryCategory::Unknown, DirEntryCategory::Unknown);
}

#[test]
fn ffmpeg_front_types_construct() {
    let _ = FFmpeg::new();
    let m = FFmpegProbeMetadata::empty();
    assert_eq!(m.frame_rate, 300);
    let c = FFmpegCompressor::new(CompressorOptions {
        dry_run: true,
        fast: false,
        extreme: false,
        overwrite: false,
        codec: String::from("av1"),
        container: String::from("mkv"),
    });
    assert!(c.options().dry_run);
}

#[test]
fn ffmpeg_front_skips_files_already_in_the_target_codec() {
    let c = FFmpegCompressor::new(CompressorOptions {
        dry_run: false,
        fast: false,
        extreme: false,
        overwrite: false,
        codec: String::from("av1"),
        container: String::from("mkv"),
    });
    let mut probe = FFmpegProbeMetadata::empty();
    probe.video_codec = String::from("av1");
    assert!(c.should_skip(&probe));
    probe.video_codec = String::from("h264");
    assert!(!c.should_skip(&probe));
}

#[test]
fn ffmpeg_front_build_args_wraps_the_codec_parameters() {
    let c = FFmpegCompressor::new(CompressorOptions {
        dry_run: false,
        fast: false,
        extreme: false,
        overwrite: false,
        codec: String::from("av1"),
        container: String::from("mkv"),
    });
    let args = c.build_args(
        &String::from("in.mp4"),
        &String::from("out.av1.mkv"),
        &vec![String::from("-c:v"), String::from("libsvtav1")],
    );
    assert_eq!(
        args,
        vec![
            "-hide_banner",
            "-nostats",
            "-loglevel",
            "warning",
            "-progress",
            "pipe:1",
            "-i",
            "in.mp4",
            "-c:v",
            "libsvtav1",
            "-c:a",
            "copy",
            "-c:s",
            "copy",
            "-map",
            "0",
            "out.av1.mkv",
        ]
    );
}

#[test]
fn ffmpeg_front_metadata_keeps_names_verbatim() {
    let stream = FFProbeJsonStream {
        codec_name: String::from("h264"),
        codec_tag_string: Some(String::from("avc1")),
        field_order: None,
        width: 1280,
        height: 720,
        pix_fmt: String::from("yuv420p"),
        nb_read_packets: Some(String::from("900")),
        avg_frame_rate: String::from("30/1"),
    };
    let m = FFmpegProbeMetadata::from_stream(&String::from("clip.mkv"), &stream);
    assert_eq!(m.video_codec, "h264");
    assert_eq!(m.video_codec_tag, "avc1");
    assert_eq!(m.width, 1280);
    assert_eq!(m.height, 720);
    assert_eq!(m.total_frames, 900);
    assert_eq!(m.frame_rate, 30);
    assert!(!m.interlaced);
}

#[test]
fn split_two_requires_exactly_one_separator() {
    assert_eq!(
        split_two("frame=10", '='),
        Some((String::from("frame"), String::from("10")))
    );
    assert_eq!(split_two("frame", '='), None);
    assert_eq!(split_two("a=b=c", '='), None);
    assert_eq!(split_two("=x", '='), Some((String::new(), String::from("x"))));
    assert_eq!(split_two("x=", '='), Some((String::from("x"), String::new())));
}
