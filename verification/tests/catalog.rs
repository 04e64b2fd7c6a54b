use transcode_pipeline::codecs::Codec;
use transcode_pipeline::filelist::FileList;
use transcode_pipeline::filelistitem::{FileListItem, FileListItemStatus};
use transcode_pipeline::probe::AVProbeMetadata;

fn item(path: &str) -> FileListItem {
    FileListItem {
        path: String::from(path),
        avmetadata: AVProbeMetadata::empty(),
        status: FileListItemStatus::Candidate,
        size: Some(1024),
        codec: Some(Codec::H264),
        resolution: Some(String::from("1920x1080")),
    }
}

#[test]
fn insert_keeps_one_entry_per_path() {
    let mut c = FileList::new();
    c.insert(item("a"));
    c.insert(item("b"));
    c.insert(item("a"));
    assert_eq!(c.len(), 2);
    assert_eq!(c.get_path(0).unwrap(), "a");
    assert_eq!(c.get_path(1).unwrap(), "b");
}

#[test]
fn get_is_by_position() {
    let mut c = FileList::new();
    c.insert(item("a"));
    assert_eq!(c.get(0).unwrap().path, "a");
    assert!(c.get(1).is_none());
    assert!(c.get_path(1).is_none());
}

#[test]
fn set_status_touches_only_the_named_path() {
    let mut c = FileList::new();
    c.insert(item("a"));
    c.insert(item("b"));
    c.set_status("b", FileListItemStatus::Enqueued);
    assert_eq!(c.get(0).unwrap().status, FileListItemStatus::Candidate);
    assert_eq!(c.get(1).unwrap().status, FileListItemStatus::Enqueued);
    // a path with no entry is skipped, never an error
    c.set_status("zzz", FileListItemStatus::Transcoded);
    assert_eq!(c.len(), 2);
}

#[test]
fn snapshot_copies_every_entry_in_order() {
    let mut c = FileList::new();
    c.insert(item("a"));
    c.insert(item("b"));
    let snap = c.snapshot();
    assert_eq!(snap.len(), 2);
    assert_eq!(snap[0].path, "a");
    assert_eq!(snap[1].path, "b");
}

fn probe_with(codec: Codec, tag: Option<&str>) -> AVProbeMetadata {
    let mut m = AVProbeMetadata::empty();
    m.video_codec = codec;
    m.video_codec_tag = tag.map(String::from);
    m
}

#[test]
fn candidates_are_h264_and_untagged_hevc() {
    let mk = |codec, tag| FileListItem::new(String::from("f"), probe_with(codec, tag), Some(1));
    assert!(mk(Codec::H264, None).is_some());
    assert!(mk(Codec::HEVC, None).is_some());
    assert!(mk(Codec::HEVC, Some("hev1")).is_some());
    assert!(mk(Codec::HEVC, Some("hvc1")).is_none());
    assert!(mk(Codec::AV1, None).is_none());
    assert!(mk(Codec::Unknown(String::from("vp9")), None).is_none());
}

#[test]
fn a_new_item_starts_as_candidate() {
    let mut probe = probe_with(Codec::H264, Some("avc1"));
    probe.resolution.width = 1280;
    probe.resolution.height = 720;
    let item = FileListItem::new(String::from("clip.mp4"), probe, Some(2048)).unwrap();
    assert_eq!(item.path, "clip.mp4");
    assert_eq!(item.status, FileListItemStatus::Candidate);
    assert_eq!(item.size, Some(2048));
    assert_eq!(item.codec, Some(Codec::H264));
    assert_eq!(item.resolution, Some(String::from("1280x720")));
}

#[test]
fn status_setters_set_their_status() {
    let mut it = item("a");
    it.set_enqueued();
    assert_eq!(it.status, FileListItemStatus::Enqueued);
    it.set_transcoding();
    assert_eq!(it.status, FileListItemStatus::Transcoding);
    it.set_transcoded();
    assert_eq!(it.status, FileListItemStatus::Transcoded);
    it.set_candidate();
    assert_eq!(it.status, FileListItemStatus::Candidate);
}
