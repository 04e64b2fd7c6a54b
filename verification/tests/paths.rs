use transcode_pipeline::paths::with_extension;

#[test]
fn replaces_an_existing_extension() {
    assert_eq!(with_extension("movie.mp4", "av1.mkv"), "movie.av1.mkv");
    assert_eq!(with_extension("/videos/movie.mp4", "av1.mkv"), "/videos/movie.av1.mkv");
}

#[test]
fn appends_when_there_is_no_extension() {
    assert_eq!(with_extension("movie", "av1.mkv"), "movie.av1.mkv");
    assert_eq!(with_extension("/videos/movie", "av1.mkv"), "/videos/movie.av1.mkv");
}

#[test]
fn a_leading_dot_starts_no_extension() {
    assert_eq!(with_extension(".bashrc", "mkv"), ".bashrc.mkv");
}

#[test]
fn a_dot_in_a_directory_is_not_an_extension() {
    assert_eq!(with_extension("/videos.old/movie", "mkv"), "/videos.old/movie.mkv");
}

#[test]
fn only_the_last_extension_is_replaced() {
    assert_eq!(with_extension("movie.h264.mp4", "mkv"), "movie.h264.mkv");
}

#[test]
fn a_path_without_file_name_is_unchanged() {
    assert_eq!(with_extension("videos/", "mkv"), "videos/");
    assert_eq!(with_extension("..", "mkv"), "..");
    assert_eq!(with_extension("", "mkv"), "");
}
