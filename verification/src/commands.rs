//! The user command surface: toggling an item between pending and not,
//! which is the only path from `Candidate` to `Enqueued` and back.

use vstd::prelude::*;
use crate::codecs::Codec;
use crate::containers::Container;
use crate::filelist::{unique_paths, FileList};
use crate::filelistitem::{FileListItem, FileListItemStatus};
use crate::paths::{spec_with_extension, with_extension};
use crate::quality::Quality;
use crate::queue_processor::QueueProcessorMessage;
use crate::state_mirror::mirrored_catalog;
use crate::task_queue::{find_source, lemma_find_source_props, remove_source_seq, TaskQueue};
use crate::transcode_task::TranscodeTask;

verus! {

/// Whether `t` is the task that enqueueing `item` creates: the item's path
/// as source, the destination derived from it with the codec-and-container
/// extension, the item's metadata snapshot, and AV1 in Matroska at the
/// chosen quality.
pub open spec fn is_enqueue_task(t: TranscodeTask, item: FileListItem, quality: Quality) -> bool {
    &&& t.source == item.path
    &&& t.destination@ == spec_with_extension(item.path@, "av1"@ + "."@ + "mkv"@)
    &&& t.metadata == item.avmetadata
    &&& t.codec is AV1
    &&& t.container is Matroska
    &&& t.quality == quality
}

/// Handles the enqueue/dequeue toggle for the item at `index`.
///
/// Only a `Candidate` may be enqueued: its task is appended to the queue
/// and its status becomes `Enqueued`. Toggling an `Enqueued` item removes
/// its task (a no-op if the worker already claimed it) and reverts the
/// status to `Candidate`. Any other status — in particular `Transcoding` —
/// makes the toggle a no-op.
pub fn toggle_enqueue(
    catalog: &mut FileList,
    queue: &mut TaskQueue,
    index: usize,
    quality: Quality,
)
    ensures
        index >= old(catalog)@.len() ==> final(catalog)@ == old(catalog)@ && final(queue)@ == old(
            queue,
        )@,
        index < old(catalog)@.len() && old(catalog)@[index as int].status is Candidate ==> {
            &&& final(catalog)@ == old(catalog)@.update(
                index as int,
                FileListItem {
                    status: FileListItemStatus::Enqueued,
                    ..old(catalog)@[index as int]
                },
            )
            &&& final(queue)@.len() == old(queue)@.len() + 1
            &&& final(queue)@.take(old(queue)@.len() as int) == old(queue)@
            &&& is_enqueue_task(
                final(queue)@.last(),
                old(catalog)@[index as int],
                quality,
            )
        },
        index < old(catalog)@.len() && old(catalog)@[index as int].status is Enqueued ==> {
            &&& final(catalog)@ == old(catalog)@.update(
                index as int,
                FileListItem {
                    status: FileListItemStatus::Candidate,
                    ..old(catalog)@[index as int]
                },
            )
            &&& final(queue)@ == remove_source_seq(
                old(queue)@,
                old(catalog)@[index as int].path@,
            )
        },
        index < old(catalog)@.len() && !(old(catalog)@[index as int].status is Candidate) && !(old(
            catalog,
        )@[index as int].status is Enqueued) ==> final(catalog)@ == old(catalog)@ && final(queue)@
            == old(queue)@,
{
    let item = match catalog.get(index) {
        None => {
            return ;
        },
        Some(item) => item,
    };
    match item.status {
        FileListItemStatus::Enqueued => {
            queue.remove_by_source(item.path.as_str());
            catalog.set_status_at(index, FileListItemStatus::Candidate);
        },
        FileListItemStatus::Candidate => {
            let codec = Codec::AV1;
            let container = Container::Matroska;
            let mut extension = codec.display();
            extension.append(".");
            extension.append(Container::extension(container));
            let source = item.path.clone();
            let destination = with_extension(source.as_str(), extension.as_str());
            let task = TranscodeTask {
                source,
                destination,
                metadata: item.avmetadata,
                codec,
                container,
                quality,
            };
            queue.enqueue(task);
            catalog.set_status_at(index, FileListItemStatus::Enqueued);
            proof {
                assert(queue@.take(old(queue)@.len() as int) =~= old(queue)@);
            }
        },
        _ => {},
    }
}

/// Idempotence of the toggle: enqueueing a `Candidate` item and
/// immediately dequeueing it returns its status to `Candidate` and leaves
/// the task queue exactly as before the enqueue — given that, as the state
/// machine guarantees for a `Candidate`, the queue held no task for its
/// source yet.
pub proof fn lemma_toggle_idempotent(
    c0: Seq<FileListItem>,
    q0: Seq<TranscodeTask>,
    i: int,
    t: TranscodeTask,
    quality: Quality,
)
    requires
        0 <= i < c0.len(),
        c0[i].status is Candidate,
        find_source(q0, c0[i].path@) == q0.len(),
        is_enqueue_task(t, c0[i], quality),
    ensures
        ({
            let c1 = c0.update(i, FileListItem { status: FileListItemStatus::Enqueued, ..c0[i] });
            let q1 = q0.push(t);
            &&& c1[i].status is Enqueued
            &&& c1[i].path == c0[i].path
            &&& c1.update(i, FileListItem { status: FileListItemStatus::Candidate, ..c1[i] })
                == c0
            &&& remove_source_seq(q1, c1[i].path@) == q0
        }),
{
    let p = c0[i].path@;
    let c1 = c0.update(i, FileListItem { status: FileListItemStatus::Enqueued, ..c0[i] });
    let q1 = q0.push(t);
    assert(c1.update(i, FileListItem { status: FileListItemStatus::Candidate, ..c1[i] }) =~= c0);
    lemma_find_source_props(q0, p);
    crate::task_queue::lemma_find_source_at(q1, p, q0.len() as int);
    assert(q1.remove(q0.len() as int) =~= q0);
}

/// The canonical lifecycle, with no status skipped: a `Candidate` the user
/// enqueues is `Enqueued`; when the worker claims its task and publishes
/// the start event, the mirror marks it `Transcoding`; the end event marks
/// it `Transcoded`.
pub proof fn lemma_status_lifecycle(
    c0: Seq<FileListItem>,
    i: int,
    task: TranscodeTask,
    size: usize,
)
    requires
        0 <= i < c0.len(),
        unique_paths(c0),
        c0[i].status is Candidate,
        task.source@ == c0[i].path@,
    ensures
        ({
            let c1 = c0.update(i, FileListItem { status: FileListItemStatus::Enqueued, ..c0[i] });
            let c2 = mirrored_catalog(c1, QueueProcessorMessage::TranscodeStart(task));
            let c3 = mirrored_catalog(c2, QueueProcessorMessage::TranscodeEnd(task, size));
            &&& c1[i].status is Enqueued
            &&& c2 == c1.update(
                i,
                FileListItem { status: FileListItemStatus::Transcoding, ..c1[i] },
            )
            &&& c2[i].status is Transcoding
            &&& c3 == c2.update(
                i,
                FileListItem { status: FileListItemStatus::Transcoded, ..c2[i] },
            )
            &&& c3[i].status is Transcoded
        }),
{
    let p = task.source@;
    let c1 = c0.update(i, FileListItem { status: FileListItemStatus::Enqueued, ..c0[i] });
    let c2 = mirrored_catalog(c1, QueueProcessorMessage::TranscodeStart(task));
    assert forall|j: int| 0 <= j < i implies (#[trigger] c1[j]).path@ != p by {
        assert(c0[j].path@ != c0[i].path@);
    }
    crate::filelist::lemma_find_path_at(c1, p, i);
    assert(c2 == c1.update(i, FileListItem { status: FileListItemStatus::Transcoding, ..c1[i] }));
    assert forall|j: int| 0 <= j < i implies (#[trigger] c2[j]).path@ != p by {
        assert(c0[j].path@ != c0[i].path@);
    }
    crate::filelist::lemma_find_path_at(c2, p, i);
}

} // verus!
