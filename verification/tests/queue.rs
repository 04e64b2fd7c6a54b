use transcode_pipeline::codecs::Codec;
use transcode_pipeline::containers::Container;
use transcode_pipeline::probe::AVProbeMetadata;
use transcode_pipeline::quality::Quality;
use transcode_pipeline::task_queue::TaskQueue;
use transcode_pipeline::transcode_task::TranscodeTask;

fn task(source: &str) -> TranscodeTask {
    TranscodeTask {
        source: String::from(source),
        destination: format!("{}.av1.mkv", source),
        metadata: AVProbeMetadata::empty(),
        codec: Codec::AV1,
        container: Container::Matroska,
        quality: Quality::Great,
    }
}

#[test]
fn pop_front_returns_tasks_in_fifo_order() {
    let mut q = TaskQueue::new();
    q.enqueue(task("a"));
    q.enqueue(task("b"));
    q.enqueue(task("c"));
    assert_eq!(q.len(), 3);
    assert_eq!(q.pop_front().unwrap().source, "a");
    assert_eq!(q.pop_front().unwrap().source, "b");
    assert_eq!(q.pop_front().unwrap().source, "c");
    assert!(q.pop_front().is_none());
}

#[test]
fn pop_front_on_empty_queue_is_none() {
    let mut q = TaskQueue::new();
    assert!(q.pop_front().is_none());
    assert_eq!(q.len(), 0);
}

#[test]
fn removed_task_is_never_popped() {
    let mut q = TaskQueue::new();
    q.enqueue(task("a"));
    q.enqueue(task("b"));
    q.enqueue(task("c"));
    assert!(q.remove_by_source("b"));
    assert_eq!(q.pop_front().unwrap().source, "a");
    assert_eq!(q.pop_front().unwrap().source, "c");
    assert!(q.pop_front().is_none());
}

#[test]
fn removing_an_absent_source_changes_nothing() {
    let mut q = TaskQueue::new();
    q.enqueue(task("a"));
    assert!(!q.remove_by_source("b"));
    assert_eq!(q.len(), 1);
    assert_eq!(q.pop_front().unwrap().source, "a");
}

#[test]
fn remove_by_source_takes_the_oldest_match() {
    // the queue itself does not deduplicate; removal takes the first match
    let mut q = TaskQueue::new();
    q.enqueue(task("a"));
    q.enqueue(task("b"));
    q.enqueue(task("a"));
    assert!(q.remove_by_source("a"));
    assert_eq!(q.len(), 2);
    assert_eq!(q.pop_front().unwrap().source, "b");
    assert_eq!(q.pop_front().unwrap().source, "a");
}

#[test]
fn snapshot_lists_pending_tasks_in_order() {
    let mut q = TaskQueue::new();
    q.enqueue(task("a"));
    q.enqueue(task("b"));
    let snap = q.snapshot();
    assert_eq!(snap.len(), 2);
    assert_eq!(snap[0].source, "a");
    assert_eq!(snap[1].source, "b");
    // the snapshot is a copy: the queue still holds both
    assert_eq!(q.len(), 2);
}
