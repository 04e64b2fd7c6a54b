use transcode_pipeline::containers::Container;

#[test]
fn test_to_string() {
    assert_eq!(Container::Matroska.to_string(), String::from("matroska"));
    assert_eq!(Container::MP4.to_string(), String::from("mp4"));
    assert_eq!(Container::QuickTime.to_string(), String::from("mov"));
}

#[test]
fn extension_per_container() {
    assert_eq!(Container::extension(Container::Matroska), "mkv");
    assert_eq!(Container::extension(Container::MP4), "mp4");
    assert_eq!(Container::extension(Container::QuickTime), "mov");
}

#[test]
fn parameters_per_container() {
    assert_eq!(Container::parameters(Container::Matroska), vec!["-f", "matroska"]);
    assert_eq!(
        Container::parameters(Container::MP4),
        vec!["-movflags", "faststart", "-f", "mp4"]
    );
    assert_eq!(
        Container::parameters(Container::QuickTime),
        vec!["-movflags", "faststart", "-f", "mov"]
    );
}
