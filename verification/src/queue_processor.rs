//! The worker loop's decision core: claiming work from the task queue and
//! turning one task's progress reports into the exact sequence of
//! lifecycle events that subscribers observe.
//!
//! The loop's outside work — sleeping, spawning the encoder, reading its
//! output — happens beyond this crate; what is here decides, for every
//! poll and every received report, exactly what is published.

use vstd::prelude::*;
use crate::task_queue::TaskQueue;
use crate::transcode_task::TranscodeTask;
use crate::transcoder::TranscodeProgressMessage;

verus! {

/// Whether the worker is between tasks or driving one.
#[derive(Clone, Copy, Debug, PartialEq, Eq, Structural)]
pub enum QueueStatus {
    Idle,
    Processing,
}

/// One published progress event: the figures of a complete sample plus the
/// task they belong to.
#[derive(Debug)]
pub struct TranscodingMessage {
    pub frames: usize,
    pub total_frames: usize,
    pub progress_permille: u32,
    pub current_size: usize,
    pub predicted_size: usize,
    pub task: TranscodeTask,
}

impl Clone for TranscodingMessage {
    fn clone(&self) -> (r: Self)
        ensures
            r == *self,
    {
        TranscodingMessage {
            frames: self.frames,
            total_frames: self.total_frames,
            progress_permille: self.progress_permille,
            current_size: self.current_size,
            predicted_size: self.predicted_size,
            task: self.task.clone(),
        }
    }
}

/// A lifecycle event published to every subscriber.
#[derive(Debug)]
pub enum QueueProcessorMessage {
    Idle,
    TranscodeStart(TranscodeTask),
    Transcoding(TranscodingMessage),
    TranscodeEnd(TranscodeTask, usize),
}

impl Clone for QueueProcessorMessage {
    fn clone(&self) -> (r: Self)
        ensures
            r == *self,
    {
        match self {
            QueueProcessorMessage::Idle => QueueProcessorMessage::Idle,
            QueueProcessorMessage::TranscodeStart(t) => QueueProcessorMessage::TranscodeStart(
                t.clone(),
            ),
            QueueProcessorMessage::Transcoding(m) => QueueProcessorMessage::Transcoding(m.clone()),
            QueueProcessorMessage::TranscodeEnd(t, s) => QueueProcessorMessage::TranscodeEnd(
                t.clone(),
                *s,
            ),
        }
    }
}

/// What one poll of the worker loop does next.
#[derive(Debug)]
pub enum WorkerStep {
    Stop,
    Sleep,
    Process(TranscodeTask),
}

/// One poll of the worker loop: stop when cancelled, sleep when there is
/// no work, otherwise claim (remove) the oldest task and process it.
pub fn worker_poll(queue: &mut TaskQueue, stopped: bool) -> (r: WorkerStep)
    ensures
        stopped ==> r is Stop && final(queue)@ == old(queue)@,
        !stopped && old(queue)@.len() == 0 ==> r is Sleep && final(queue)@ == old(queue)@,
        !stopped && old(queue)@.len() > 0 ==> r == WorkerStep::Process(old(queue)@[0])
            && final(queue)@ == old(queue)@.drop_first(),
{
    if stopped {
        return WorkerStep::Stop;
    }
    match queue.pop_front() {
        None => WorkerStep::Sleep,
        Some(task) => WorkerStep::Process(task),
    }
}

/// The progress event for one received report while `task` runs.
pub open spec fn wrap_progress(task: TranscodeTask, m: TranscodeProgressMessage)
    -> TranscodingMessage {
    TranscodingMessage {
        frames: m.frames,
        total_frames: m.total_frames,
        progress_permille: m.progress_permille,
        current_size: m.current_size,
        predicted_size: m.predicted_compressed_size,
        task,
    }
}

/// The last predicted size seen in a report stream, or zero when no report
/// arrived before the encoder exited.
pub open spec fn last_predicted_size(msgs: Seq<TranscodeProgressMessage>) -> usize {
    if msgs.len() == 0 {
        0
    } else {
        msgs.last().predicted_compressed_size
    }
}

/// The exact event sequence one task publishes: its start, one progress
/// event per received report in order, and its end with the last known
/// predicted size — the end comes whatever the stream held, so no task
/// ever leaves a subscriber hanging.
pub open spec fn task_event_seq(task: TranscodeTask, msgs: Seq<TranscodeProgressMessage>) -> Seq<
    QueueProcessorMessage,
> {
    seq![QueueProcessorMessage::TranscodeStart(task)] + Seq::new(
        msgs.len(),
        |i: int| QueueProcessorMessage::Transcoding(wrap_progress(task, msgs[i])),
    ) + seq![QueueProcessorMessage::TranscodeEnd(task, last_predicted_size(msgs))]
}

/// Every task's event block begins with its start event, ends with its end
/// event, and holds nothing but its own progress events in between.
pub proof fn lemma_task_events_shape(task: TranscodeTask, msgs: Seq<TranscodeProgressMessage>)
    ensures
        task_event_seq(task, msgs).len() == msgs.len() + 2,
        task_event_seq(task, msgs)[0] == QueueProcessorMessage::TranscodeStart(task),
        task_event_seq(task, msgs).last() == QueueProcessorMessage::TranscodeEnd(
            task,
            last_predicted_size(msgs),
        ),
        forall|i: int|
            0 < i < msgs.len() + 1 ==> task_event_seq(task, msgs)[i]
                == QueueProcessorMessage::Transcoding(wrap_progress(task, msgs[i - 1])),
{
}

/// Publishes one task's whole lifecycle from the reports its encoder run
/// produced: exactly the start event, the progress events in report order,
/// and the end event.
pub fn process_task_messages(task: &TranscodeTask, reports: &Vec<TranscodeProgressMessage>) -> (r:
    Vec<QueueProcessorMessage>)
    ensures
        r@ == task_event_seq(*task, reports@),
{
    let mut r: Vec<QueueProcessorMessage> = Vec::new();
    r.push(QueueProcessorMessage::TranscodeStart(task.clone()));
    let mut compressed_size: usize = 0;
    let len = reports.len();
    let mut i: usize = 0;
    while i < len
        invariant
            i <= len,
            len == reports@.len(),
            r@.len() == i + 1,
            r@[0] == QueueProcessorMessage::TranscodeStart(*task),
            forall|j: int|
                0 < j <= i ==> r@[j] == QueueProcessorMessage::Transcoding(
                    wrap_progress(*task, reports@[j - 1]),
                ),
            compressed_size == if i == 0 {
                0usize
            } else {
                reports@[i - 1].predicted_compressed_size
            },
        decreases len - i,
    {
        let m = &reports[i];
        compressed_size = m.predicted_compressed_size;
        r.push(
            QueueProcessorMessage::Transcoding(
                TranscodingMessage {
                    frames: m.frames,
                    total_frames: m.total_frames,
                    progress_permille: m.progress_permille,
                    current_size: m.current_size,
                    predicted_size: m.predicted_compressed_size,
                    task: task.clone(),
                },
            ),
        );
        i = i + 1;
    }
    r.push(QueueProcessorMessage::TranscodeEnd(task.clone(), compressed_size));
    assert(r@ =~= task_event_seq(*task, reports@));
    r
}

/// The progress event published for one received report.
pub fn transcoding_event(task: &TranscodeTask, report: &TranscodeProgressMessage) -> (r:
    QueueProcessorMessage)
    ensures
        r == QueueProcessorMessage::Transcoding(wrap_progress(*task, *report)),
{
    QueueProcessorMessage::Transcoding(
        TranscodingMessage {
            frames: report.frames,
            total_frames: report.total_frames,
            progress_permille: report.progress_permille,
            current_size: report.current_size,
            predicted_size: report.predicted_compressed_size,
            task: task.clone(),
        },
    )
}

/// The per-task report streams as sequences.
pub open spec fn stream_views(streams: Seq<Vec<TranscodeProgressMessage>>) -> Seq<
    Seq<TranscodeProgressMessage>,
> {
    streams.map_values(|v: Vec<TranscodeProgressMessage>| v@)
}

/// The events published by draining a queue of tasks one at a time, each
/// with its own report stream: the tasks' event blocks, oldest task first.
pub open spec fn events_of_run(
    tasks: Seq<TranscodeTask>,
    streams: Seq<Seq<TranscodeProgressMessage>>,
) -> Seq<QueueProcessorMessage>
    decreases tasks.len(),
{
    if tasks.len() == 0 {
        Seq::empty()
    } else {
        task_event_seq(tasks[0], streams[0]) + events_of_run(
            tasks.drop_first(),
            streams.drop_first(),
        )
    }
}

/// Drains the queue, publishing each task's whole lifecycle before the
/// next task's begins: the worker processes exactly one task at a time, so
/// no two tasks' events interleave.
pub fn drain_queue(queue: &mut TaskQueue, streams: &Vec<Vec<TranscodeProgressMessage>>) -> (r: Vec<
    QueueProcessorMessage,
>)
    requires
        streams@.len() == old(queue)@.len(),
    ensures
        final(queue)@.len() == 0,
        r@ == events_of_run(old(queue)@, stream_views(streams@)),
{
    let mut r: Vec<QueueProcessorMessage> = Vec::new();
    let n: usize = streams.len();
    let mut k: usize = 0;
    loop
        invariant_except_break
            n == streams@.len(),
            k <= old(queue)@.len(),
            streams@.len() == old(queue)@.len(),
            queue@ == old(queue)@.skip(k as int),
            r@ == events_of_run(old(queue)@.take(k as int), stream_views(streams@).take(k as int)),
        ensures
            k == old(queue)@.len(),
            queue@ == old(queue)@.skip(k as int),
            r@ == events_of_run(old(queue)@.take(k as int), stream_views(streams@).take(k as int)),
        decreases old(queue)@.len() - k,
    {
        match queue.pop_front() {
            None => {
                break;
            },
            Some(task) => {
                proof {
                    assert(k < old(queue)@.len());
                    assert(task == old(queue)@[k as int]);
                    assert(queue@ =~= old(queue)@.skip(k as int + 1));
                }
                let mut block = process_task_messages(&task, &streams[k]);
                r.append(&mut block);
                proof {
                    assert(stream_views(streams@)[k as int] == streams@[k as int]@);
                    lemma_events_of_run_snoc(
                        old(queue)@,
                        stream_views(streams@),
                        k as int,
                    );
                }
                k = k + 1;
            },
        }
    }
    proof {
        assert(k == old(queue)@.len());
        assert(old(queue)@.take(k as int) =~= old(queue)@);
        assert(stream_views(streams@).take(k as int) =~= stream_views(streams@));
    }
    r
}

/// Extending a drained prefix by one task appends exactly that task's
/// event block.
proof fn lemma_events_of_run_snoc(
    tasks: Seq<TranscodeTask>,
    streams: Seq<Seq<TranscodeProgressMessage>>,
    k: int,
)
    requires
        0 <= k < tasks.len(),
        streams.len() == tasks.len(),
    ensures
        events_of_run(tasks.take(k + 1), streams.take(k + 1)) == events_of_run(
            tasks.take(k),
            streams.take(k),
        ) + task_event_seq(tasks[k], streams[k]),
    decreases k,
{
    if k == 0 {
        assert(tasks.take(1).drop_first() =~= Seq::<TranscodeTask>::empty());
        assert(streams.take(1).drop_first() =~= Seq::<Seq<TranscodeProgressMessage>>::empty());
        assert(tasks.take(0int) =~= Seq::<TranscodeTask>::empty());
        assert(streams.take(0int) =~= Seq::<Seq<TranscodeProgressMessage>>::empty());
        assert(events_of_run(tasks.take(1), streams.take(1)) =~= events_of_run(
            tasks.take(0int),
            streams.take(0int),
        ) + task_event_seq(tasks[0], streams[0]));
    } else {
        lemma_events_of_run_snoc(tasks.drop_first(), streams.drop_first(), k - 1);
        assert(tasks.take(k + 1).drop_first() =~= tasks.drop_first().take(k));
        assert(streams.take(k + 1).drop_first() =~= streams.drop_first().take(k));
        assert(tasks.take(k).drop_first() =~= tasks.drop_first().take(k - 1));
        assert(streams.take(k).drop_first() =~= streams.drop_first().take(k - 1));
        assert(tasks.drop_first()[k - 1] == tasks[k]);
        assert(streams.drop_first()[k - 1] == streams[k]);
        assert(events_of_run(tasks.take(k + 1), streams.take(k + 1)) =~= events_of_run(
            tasks.take(k),
            streams.take(k),
        ) + task_event_seq(tasks[k], streams[k]));
    }
}

/// No interleaving: in the published stream, each task's events stand as
/// one contiguous block, after every earlier task's block and before every
/// later one's.
pub proof fn lemma_no_interleaving(
    tasks: Seq<TranscodeTask>,
    streams: Seq<Seq<TranscodeProgressMessage>>,
    i: int,
)
    requires
        streams.len() == tasks.len(),
        0 <= i < tasks.len(),
    ensures
        events_of_run(tasks, streams) == events_of_run(tasks.take(i), streams.take(i))
            + task_event_seq(tasks[i], streams[i]) + events_of_run(
            tasks.skip(i + 1),
            streams.skip(i + 1),
        ),
    decreases i,
{
    if i == 0 {
        assert(tasks.take(0int) =~= Seq::<TranscodeTask>::empty());
        assert(streams.take(0int) =~= Seq::<Seq<TranscodeProgressMessage>>::empty());
        assert(tasks.drop_first() =~= tasks.skip(1));
        assert(streams.drop_first() =~= streams.skip(1));
        assert(events_of_run(tasks, streams) =~= events_of_run(tasks.take(0int), streams.take(0int))
            + task_event_seq(tasks[0], streams[0]) + events_of_run(tasks.skip(1), streams.skip(1)));
    } else {
        lemma_no_interleaving(tasks.drop_first(), streams.drop_first(), i - 1);
        assert(tasks.drop_first().take(i - 1) =~= tasks.take(i).drop_first());
        assert(streams.drop_first().take(i - 1) =~= streams.take(i).drop_first());
        assert(tasks.drop_first()[i - 1] == tasks[i]);
        assert(streams.drop_first()[i - 1] == streams[i]);
        assert(tasks.drop_first().skip(i) =~= tasks.skip(i + 1));
        assert(streams.drop_first().skip(i) =~= streams.skip(i + 1));
        assert(events_of_run(tasks, streams) =~= events_of_run(tasks.take(i), streams.take(i))
            + task_event_seq(tasks[i], streams[i]) + events_of_run(
            tasks.skip(i + 1),
            streams.skip(i + 1),
        ));
    }
}

} // verus!
