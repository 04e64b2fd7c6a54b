//! The event-bus consumer that projects lifecycle events onto the shared
//! status record and the catalog: the one writer of both.

use vstd::prelude::*;
use crate::filelist::{find_path, lemma_find_path_props, set_status_seq, unique_paths, FileList};
use crate::filelistitem::{FileListItem, FileListItemStatus};
use crate::queue_processor::QueueProcessorMessage;
use crate::transcode_state::{idle_state, TranscodeState, TranscodeStatus};
use crate::transcode_task::TranscodeTask;

verus! {

/// The status record after one event. A start makes it active for the
/// task's source with the progress fields cleared; a progress event
/// overwrites exactly the progress fields; an end resets everything but
/// the free-text message to idle; an idle event flips the status alone.
pub open spec fn mirrored_state(state: TranscodeState, msg: QueueProcessorMessage)
    -> TranscodeState {
    match msg {
        QueueProcessorMessage::Idle => TranscodeState {
            status: TranscodeStatus::Idle,
            ..state
        },
        QueueProcessorMessage::TranscodeStart(task) => TranscodeState {
            status: TranscodeStatus::Transcoding,
            path: Some(task.source),
            progress_permille: None,
            source_size: task.metadata.file_size,
            ..state
        },
        QueueProcessorMessage::Transcoding(m) => TranscodeState {
            progress_permille: Some(m.progress_permille),
            current_transcoding_size: Some(m.current_size),
            predicted_transcoded_size: Some(m.predicted_size),
            frames: Some(m.frames),
            total_frames: Some(m.total_frames),
            ..state
        },
        QueueProcessorMessage::TranscodeEnd(_, _) => TranscodeState {
            message: state.message,
            ..idle_state()
        },
    }
}

/// The catalog after one event: a start flips the task's entry to
/// `Transcoding`, an end flips it to `Transcoded`, and the other events
/// leave the catalog alone. An event whose source has no entry is skipped.
pub open spec fn mirrored_catalog(catalog: Seq<FileListItem>, msg: QueueProcessorMessage) -> Seq<
    FileListItem,
> {
    match msg {
        QueueProcessorMessage::TranscodeStart(task) => set_status_seq(
            catalog,
            task.source@,
            FileListItemStatus::Transcoding,
        ),
        QueueProcessorMessage::TranscodeEnd(task, _) => set_status_seq(
            catalog,
            task.source@,
            FileListItemStatus::Transcoded,
        ),
        _ => catalog,
    }
}

/// Applies one lifecycle event to the status record and the catalog,
/// exactly as `mirrored_state` and `mirrored_catalog` describe.
pub fn apply_event(
    state: &mut TranscodeState,
    catalog: &mut FileList,
    msg: &QueueProcessorMessage,
)
    ensures
        *final(state) == mirrored_state(*old(state), *msg),
        final(catalog)@ == mirrored_catalog(old(catalog)@, *msg),
{
    match msg {
        QueueProcessorMessage::Idle => {
            state.status = TranscodeStatus::Idle;
        },
        QueueProcessorMessage::TranscodeStart(task) => {
            state.status = TranscodeStatus::Transcoding;
            state.path = Some(task.source.clone());
            state.progress_permille = None;
            state.source_size = task.metadata.file_size;
            catalog.set_status(task.source.as_str(), FileListItemStatus::Transcoding);
        },
        QueueProcessorMessage::Transcoding(m) => {
            state.progress_permille = Some(m.progress_permille);
            state.current_transcoding_size = Some(m.current_size);
            state.predicted_transcoded_size = Some(m.predicted_size);
            state.frames = Some(m.frames);
            state.total_frames = Some(m.total_frames);
        },
        QueueProcessorMessage::TranscodeEnd(task, _) => {
            state.status = TranscodeStatus::Idle;
            state.path = None;
            state.progress_permille = None;
            state.source_size = None;
            state.current_transcoding_size = None;
            state.predicted_transcoded_size = None;
            state.frames = None;
            state.total_frames = None;
            catalog.set_status(task.source.as_str(), FileListItemStatus::Transcoded);
        },
    }
}

/// After a task's end event no catalog entry for its source is left at
/// `Transcoding`, and the status record is idle again: neither the record
/// nor the catalog can stay stuck on a finished task.
pub proof fn lemma_end_unsticks(
    state: TranscodeState,
    catalog: Seq<FileListItem>,
    task: TranscodeTask,
    size: usize,
)
    requires
        unique_paths(catalog),
    ensures
        mirrored_state(state, QueueProcessorMessage::TranscodeEnd(task, size)).status
            is Idle,
        forall|k: int|
            0 <= k < mirrored_catalog(catalog, QueueProcessorMessage::TranscodeEnd(task, size)).len()
                && (#[trigger] mirrored_catalog(
                catalog,
                QueueProcessorMessage::TranscodeEnd(task, size),
            )[k]).path@ == task.source@ ==> mirrored_catalog(
                catalog,
                QueueProcessorMessage::TranscodeEnd(task, size),
            )[k].status is Transcoded,
{
    let p = task.source@;
    let c2 = mirrored_catalog(catalog, QueueProcessorMessage::TranscodeEnd(task, size));
    lemma_find_path_props(catalog, p);
    let f = find_path(catalog, p);
    assert forall|k: int|
        0 <= k < c2.len() && (#[trigger] c2[k]).path@ == p implies c2[k].status
        is Transcoded by {
        if f < catalog.len() {
            if k != f {
                assert(c2[k] == catalog[k]);
                assert(catalog[f].path@ == p);
            }
        }
    }
}

} // verus!
