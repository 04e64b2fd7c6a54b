use transcode_pipeline::transcoder::{
    handle_ffmpeg_stdout_line, predict_compressed_size, progress_message, progress_permille,
    CompressionProgress, FFmpegStdoutResult,
};

#[test]
fn malformed_lines_keep_accumulated_values() {
    // the progress window keeps frame=10 and fps=24.0 across a bogus line
    let mut p = CompressionProgress::new();
    assert_eq!(handle_ffmpeg_stdout_line("frame=10", &mut p), FFmpegStdoutResult::Continue);
    assert_eq!(handle_ffmpeg_stdout_line("bogus", &mut p), FFmpegStdoutResult::Continue);
    assert_eq!(handle_ffmpeg_stdout_line("fps=24.0", &mut p), FFmpegStdoutResult::Continue);
    assert_eq!(
        handle_ffmpeg_stdout_line("progress=continue", &mut p),
        FFmpegStdoutResult::Render
    );
    assert_eq!(p.frame, 10);
    assert_eq!(p.fps_milli, 24_000);
}

#[test]
fn unreadable_values_retain_the_previous_value() {
    let mut p = CompressionProgress::new();
    handle_ffmpeg_stdout_line("frame=10", &mut p);
    handle_ffmpeg_stdout_line("frame=zzz", &mut p);
    assert_eq!(p.frame, 10);
    handle_ffmpeg_stdout_line("frame=", &mut p);
    assert_eq!(p.frame, 10);
}

#[test]
fn lines_without_exactly_one_separator_are_ignored() {
    let mut p = CompressionProgress::new();
    handle_ffmpeg_stdout_line("frame=1=2", &mut p);
    assert_eq!(p.frame, 0);
    handle_ffmpeg_stdout_line("frame", &mut p);
    assert_eq!(p.frame, 0);
    handle_ffmpeg_stdout_line("", &mut p);
    assert_eq!(p, CompressionProgress::new());
}

#[test]
fn unknown_keys_are_ignored() {
    let mut p = CompressionProgress::new();
    handle_ffmpeg_stdout_line("bitrate=1024k", &mut p);
    handle_ffmpeg_stdout_line("out_time=00:00:01", &mut p);
    assert_eq!(p, CompressionProgress::new());
}

#[test]
fn recognized_keys_overwrite_their_field() {
    let mut p = CompressionProgress::new();
    handle_ffmpeg_stdout_line("frame=10", &mut p);
    handle_ffmpeg_stdout_line("total_size=1000", &mut p);
    handle_ffmpeg_stdout_line("frame=20", &mut p);
    assert_eq!(p.frame, 20);
    assert_eq!(p.total_size, 1000);
}

#[test]
fn predicted_size_extrapolates_linearly() {
    // encoded_size=1_000_000, total_frames=300, frame=100 -> 3_000_000
    assert_eq!(predict_compressed_size(1_000_000, 300, 100), 3_000_000);
}

#[test]
fn predicted_size_is_zero_before_the_first_frame() {
    assert_eq!(predict_compressed_size(1_000_000, 300, 0), 0);
    assert_eq!(predict_compressed_size(0, 300, 0), 0);
}

#[test]
fn permille_is_capped_and_total_free() {
    assert_eq!(progress_permille(0, 300), 0);
    assert_eq!(progress_permille(150, 300), 500);
    assert_eq!(progress_permille(300, 300), 1000);
    assert_eq!(progress_permille(400, 300), 1000);
    assert_eq!(progress_permille(5, 0), 1000);
}

#[test]
fn progress_message_carries_the_sample_figures() {
    let p = CompressionProgress { frame: 100, fps_milli: 24_000, total_size: 1_000_000 };
    let m = progress_message(&p, 300);
    assert_eq!(m.frames, 100);
    assert_eq!(m.total_frames, 300);
    assert_eq!(m.progress_permille, 333);
    assert_eq!(m.current_size, 1_000_000);
    assert_eq!(m.predicted_compressed_size, 3_000_000);
    assert_eq!(m.message, "100/300");
}
