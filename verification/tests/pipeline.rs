//! End-to-end scenarios over the verified pipeline pieces: the user's
//! toggle, the worker's drain, the event order, and cancellation.

use transcode_pipeline::cancel::CancelToken;
use transcode_pipeline::codecs::Codec;
use transcode_pipeline::commands::toggle_enqueue;
use transcode_pipeline::containers::Container;
use transcode_pipeline::filelist::FileList;
use transcode_pipeline::filelistitem::{FileListItem, FileListItemStatus};
use transcode_pipeline::probe::AVProbeMetadata;
use transcode_pipeline::quality::Quality;
use transcode_pipeline::queue_processor::{
    drain_queue, process_task_messages, worker_poll, QueueProcessorMessage, WorkerStep,
};
use transcode_pipeline::state_mirror::apply_event;
use transcode_pipeline::task_queue::TaskQueue;
use transcode_pipeline::transcode_state::{TranscodeState, TranscodeStatus};
use transcode_pipeline::transcoder::{progress_message, CompressionProgress};

fn candidate(path: &str) -> FileListItem {
    let mut probe = AVProbeMetadata::empty();
    probe.video_codec = Codec::H264;
    probe.file_size = Some(1 << 20);
    FileListItem::new(String::from(path), probe, Some(1 << 20)).unwrap()
}

#[test]
fn enqueue_builds_the_task_and_flips_the_status() {
    let mut catalog = FileList::new();
    let mut queue = TaskQueue::new();
    catalog.insert(candidate("/videos/movie.mp4"));

    toggle_enqueue(&mut catalog, &mut queue, 0, Quality::Excellent);

    assert_eq!(catalog.get(0).unwrap().status, FileListItemStatus::Enqueued);
    assert_eq!(queue.len(), 1);
    let task = queue.pop_front().unwrap();
    assert_eq!(task.source, "/videos/movie.mp4");
    assert_eq!(task.destination, "/videos/movie.av1.mkv");
    assert_eq!(task.codec, Codec::AV1);
    assert_eq!(task.container, Container::Matroska);
    assert_eq!(task.quality, Quality::Excellent);
}

#[test]
fn enqueue_then_dequeue_restores_catalog_and_queue() {
    // enqueueing then immediately dequeueing the same source returns the
    // item to Candidate and leaves the queue exactly as before
    let mut catalog = FileList::new();
    let mut queue = TaskQueue::new();
    catalog.insert(candidate("a.mp4"));

    toggle_enqueue(&mut catalog, &mut queue, 0, Quality::Great);
    assert_eq!(catalog.get(0).unwrap().status, FileListItemStatus::Enqueued);
    assert_eq!(queue.len(), 1);

    toggle_enqueue(&mut catalog, &mut queue, 0, Quality::Great);
    assert_eq!(catalog.get(0).unwrap().status, FileListItemStatus::Candidate);
    assert_eq!(queue.len(), 0);
}

#[test]
fn toggle_is_a_no_op_while_transcoding() {
    let mut catalog = FileList::new();
    let mut queue = TaskQueue::new();
    catalog.insert(candidate("a.mp4"));
    catalog.set_status("a.mp4", FileListItemStatus::Transcoding);

    toggle_enqueue(&mut catalog, &mut queue, 0, Quality::Great);
    assert_eq!(catalog.get(0).unwrap().status, FileListItemStatus::Transcoding);
    assert_eq!(queue.len(), 0);
}

#[test]
fn toggle_past_the_end_is_a_no_op() {
    let mut catalog = FileList::new();
    let mut queue = TaskQueue::new();
    catalog.insert(candidate("a.mp4"));
    toggle_enqueue(&mut catalog, &mut queue, 5, Quality::Great);
    assert_eq!(catalog.get(0).unwrap().status, FileListItemStatus::Candidate);
    assert_eq!(queue.len(), 0);
}

#[test]
fn lifecycle_skips_no_status() {
    // Candidate -> Enqueued -> Transcoding -> Transcoded, one step each
    let mut catalog = FileList::new();
    let mut queue = TaskQueue::new();
    let mut state = TranscodeState::new();
    catalog.insert(candidate("a.mp4"));

    toggle_enqueue(&mut catalog, &mut queue, 0, Quality::Great);
    assert_eq!(catalog.get(0).unwrap().status, FileListItemStatus::Enqueued);

    let task = match worker_poll(&mut queue, false) {
        WorkerStep::Process(task) => task,
        _ => panic!("the worker should claim the pending task"),
    };
    assert_eq!(queue.len(), 0);

    apply_event(
        &mut state,
        &mut catalog,
        &QueueProcessorMessage::TranscodeStart(task.clone()),
    );
    assert_eq!(catalog.get(0).unwrap().status, FileListItemStatus::Transcoding);
    assert_eq!(state.status, TranscodeStatus::Transcoding);
    assert_eq!(state.path, Some(String::from("a.mp4")));
    assert_eq!(state.source_size, Some(1 << 20));

    apply_event(
        &mut state,
        &mut catalog,
        &QueueProcessorMessage::TranscodeEnd(task, 12345),
    );
    assert_eq!(catalog.get(0).unwrap().status, FileListItemStatus::Transcoded);
    assert_eq!(state.status, TranscodeStatus::Idle);
    assert_eq!(state.path, None);
}

#[test]
fn worker_poll_honours_stop_and_empty() {
    let mut queue = TaskQueue::new();
    assert!(matches!(worker_poll(&mut queue, true), WorkerStep::Stop));
    assert!(matches!(worker_poll(&mut queue, false), WorkerStep::Sleep));
}

fn sample(frame: usize, size: usize) -> CompressionProgress {
    CompressionProgress { frame, fps_milli: 24_000, total_size: size }
}

#[test]
fn three_tasks_publish_in_order_without_interleaving() {
    // A, B, C enqueued in that order: the subscriber sees
    // Start(A) Transcoding(A)* End(A) Start(B) ... End(C)
    let mut catalog = FileList::new();
    let mut queue = TaskQueue::new();
    for p in ["a.mp4", "b.mp4", "c.mp4"] {
        catalog.insert(candidate(p));
    }
    toggle_enqueue(&mut catalog, &mut queue, 0, Quality::Great);
    toggle_enqueue(&mut catalog, &mut queue, 1, Quality::Great);
    toggle_enqueue(&mut catalog, &mut queue, 2, Quality::Great);

    let streams = vec![
        vec![progress_message(&sample(1, 10), 2), progress_message(&sample(2, 20), 2)],
        vec![progress_message(&sample(1, 5), 1)],
        vec![],
    ];
    let events = drain_queue(&mut queue, &streams);
    assert_eq!(queue.len(), 0);

    let shape: Vec<String> = events
        .iter()
        .map(|e| match e {
            QueueProcessorMessage::Idle => String::from("idle"),
            QueueProcessorMessage::TranscodeStart(t) => format!("start {}", t.source),
            QueueProcessorMessage::Transcoding(m) => format!("progress {}", m.task.source),
            QueueProcessorMessage::TranscodeEnd(t, size) => format!("end {} {}", t.source, size),
        })
        .collect();
    assert_eq!(
        shape,
        vec![
            "start a.mp4",
            "progress a.mp4",
            "progress a.mp4",
            "end a.mp4 20",
            "start b.mp4",
            "progress b.mp4",
            "end b.mp4 5",
            "start c.mp4",
            "end c.mp4 0",
        ]
    );
}

#[test]
fn a_cancelled_task_still_ends_and_is_not_left_transcoding() {
    // the token is set while task B is mid-progress: the report stream is
    // cut short, but the subscriber still sees End(B), the catalog entry
    // leaves Transcoding, and the partial destination must be deleted
    let mut catalog = FileList::new();
    let mut queue = TaskQueue::new();
    let mut state = TranscodeState::new();
    catalog.insert(candidate("b.mp4"));
    toggle_enqueue(&mut catalog, &mut queue, 0, Quality::Great);

    let mut token = CancelToken::new();
    let task = match worker_poll(&mut queue, token.is_set()) {
        WorkerStep::Process(task) => task,
        _ => panic!("the worker should claim the pending task"),
    };

    // one report arrives, then the user requests a stop
    let reports = vec![progress_message(&sample(1, 10), 4)];
    token.set();
    assert!(token.is_set());

    let events = process_task_messages(&task, &reports);
    for e in &events {
        apply_event(&mut state, &mut catalog, e);
    }
    match events.last().unwrap() {
        QueueProcessorMessage::TranscodeEnd(t, _) => assert_eq!(t.source, "b.mp4"),
        _ => panic!("the last event of a task must be its end"),
    }
    assert_eq!(catalog.get(0).unwrap().status, FileListItemStatus::Transcoded);
    assert_ne!(catalog.get(0).unwrap().status, FileListItemStatus::Transcoding);
    assert_eq!(state.status, TranscodeStatus::Idle);
    assert!(transcode_pipeline::transcoder::should_delete_destination(token.is_set(), false));
}

#[test]
fn progress_events_update_only_the_progress_fields() {
    let mut catalog = FileList::new();
    let mut state = TranscodeState::new();
    catalog.insert(candidate("a.mp4"));
    let task = {
        let mut queue = TaskQueue::new();
        toggle_enqueue(&mut catalog, &mut queue, 0, Quality::Great);
        queue.pop_front().unwrap()
    };
    apply_event(&mut state, &mut catalog, &QueueProcessorMessage::TranscodeStart(task.clone()));

    let events = process_task_messages(&task, &vec![progress_message(&sample(3, 30), 4)]);
    apply_event(&mut state, &mut catalog, &events[1]);
    assert_eq!(state.status, TranscodeStatus::Transcoding);
    assert_eq!(state.frames, Some(3));
    assert_eq!(state.total_frames, Some(4));
    assert_eq!(state.progress_permille, Some(750));
    assert_eq!(state.current_transcoding_size, Some(30));
    assert_eq!(state.predicted_transcoded_size, Some(40));
    // the catalog is untouched by progress events
    assert_eq!(catalog.get(0).unwrap().status, FileListItemStatus::Transcoding);
}

#[test]
fn idle_event_flips_only_the_status_flag() {
    let mut catalog = FileList::new();
    let mut state = TranscodeState::new();
    state.status = TranscodeStatus::Transcoding;
    state.message = Some(String::from("note"));
    apply_event(&mut state, &mut catalog, &QueueProcessorMessage::Idle);
    assert_eq!(state.status, TranscodeStatus::Idle);
    assert_eq!(state.message, Some(String::from("note")));
}

#[test]
fn cancel_token_sets_once_and_stays_set() {
    let mut token = CancelToken::new();
    assert!(!token.is_set());
    token.set();
    assert!(token.is_set());
    token.set();
    assert!(token.is_set());
}
