//! The ordered queue of pending conversion tasks: append at the back, pop
//! at the front, and removal of one task by its source path.

use std::collections::VecDeque;
use vstd::prelude::*;
use crate::transcode_task::TranscodeTask;

verus! {

/// The index of the first task in `s` whose source path is `p`, or
/// `s.len()` if no task has that source.
pub open spec fn find_source(s: Seq<TranscodeTask>, p: Seq<char>) -> int
    decreases s.len(),
{
    if s.len() == 0 {
        0
    } else if s[0].source@ == p {
        0
    } else {
        1 + find_source(s.drop_first(), p)
    }
}

/// Whether no two queued tasks share a source path; the state machine
/// enqueues at most one task per source.
pub open spec fn unique_sources(s: Seq<TranscodeTask>) -> bool {
    forall|i: int, j: int| 0 <= i < j < s.len() ==> s[i].source@ != s[j].source@
}

pub proof fn lemma_find_source_props(s: Seq<TranscodeTask>, p: Seq<char>)
    ensures
        0 <= find_source(s, p) <= s.len(),
        find_source(s, p) < s.len() ==> s[find_source(s, p)].source@ == p,
        forall|i: int| 0 <= i < find_source(s, p) ==> (#[trigger] s[i]).source@ != p,
        find_source(s, p) == s.len() ==> forall|i: int|
            0 <= i < s.len() ==> (#[trigger] s[i]).source@ != p,
    decreases s.len(),
{
    if s.len() > 0 && s[0].source@ != p {
        let s2 = s.drop_first();
        lemma_find_source_props(s2, p);
        assert(forall|i: int| 0 <= i < s2.len() ==> #[trigger] s2[i] == s[i + 1]);
        let f = find_source(s, p);
        assert(f == 1 + find_source(s2, p));
        if f < s.len() {
            assert(s[f] == s2[f - 1]);
        }
        assert forall|i: int| 0 <= i < f implies (#[trigger] s[i]).source@ != p by {
            if i > 0 {
                assert(s[i] == s2[i - 1]);
            }
        }
        if f == s.len() {
            assert forall|i: int| 0 <= i < s.len() implies (#[trigger] s[i]).source@ != p by {
                if i > 0 {
                    assert(s[i] == s2[i - 1]);
                }
            }
        }
    }
}

pub proof fn lemma_find_source_at(s: Seq<TranscodeTask>, p: Seq<char>, i: int)
    requires
        0 <= i <= s.len(),
        forall|j: int| 0 <= j < i ==> s[j].source@ != p,
        i == s.len() || s[i].source@ == p,
    ensures
        find_source(s, p) == i,
    decreases i,
{
    if s.len() == 0 || i == 0 {
    } else {
        assert(s[0].source@ != p);
        assert(forall|j: int|
            0 <= j < s.drop_first().len() ==> #[trigger] s.drop_first()[j] == s[j + 1]);
        lemma_find_source_at(s.drop_first(), p, i - 1);
    }
}

/// The queue after removing the first task whose source is `p`: unchanged
/// when no task has that source.
pub open spec fn remove_source_seq(s: Seq<TranscodeTask>, p: Seq<char>) -> Seq<TranscodeTask> {
    let f = find_source(s, p);
    if f < s.len() {
        s.remove(f)
    } else {
        s
    }
}

/// The pending tasks, oldest first.
pub struct TaskQueue {
    deque: VecDeque<TranscodeTask>,
}

impl View for TaskQueue {
    type V = Seq<TranscodeTask>;

    closed spec fn view(&self) -> Seq<TranscodeTask> {
        self.deque@
    }
}

impl TaskQueue {
    /// An empty queue.
    pub fn new() -> (q: Self)
        ensures
            q@ == Seq::<TranscodeTask>::empty(),
    {
        TaskQueue { deque: VecDeque::new() }
    }

    /// How many tasks are pending.
    pub fn len(&self) -> (n: usize)
        ensures
            n == self@.len(),
    {
        self.deque.len()
    }

    /// Appends a task at the back; the queue itself never rejects and never
    /// deduplicates — admission is the caller's state machine's job.
    pub fn enqueue(&mut self, task: TranscodeTask)
        ensures
            final(self)@ == old(self)@.push(task),
    {
        self.deque.push_back(task);
    }

    /// Removes and returns the oldest task, or nothing if the queue is
    /// empty; it never blocks.
    pub fn pop_front(&mut self) -> (r: Option<TranscodeTask>)
        ensures
            old(self)@.len() == 0 ==> r is None && final(self)@ == old(self)@,
            old(self)@.len() > 0 ==> r == Some(old(self)@[0]) && final(self)@ == old(
                self,
            )@.drop_first(),
    {
        let r = self.deque.pop_front();
        proof {
            if old(self)@.len() > 0 {
                assert(old(self)@.subrange(1, old(self)@.len() as int) =~= old(
                    self,
                )@.drop_first());
            }
        }
        r
    }

    /// Removes the first (and, under the state machine, only) task whose
    /// source is `path`; reports whether a removal happened.
    pub fn remove_by_source(&mut self, path: &str) -> (removed: bool)
        ensures
            final(self)@ == remove_source_seq(old(self)@, path@),
            removed <==> find_source(old(self)@, path@) < old(self)@.len(),
    {
        proof {
            lemma_find_source_props(old(self)@, path@);
        }
        let len = self.deque.len();
        let mut i: usize = 0;
        while i < len
            invariant_except_break
                i <= len,
                len == self@.len(),
                *self == *old(self),
                forall|j: int| 0 <= j < i ==> self@[j].source@ != path@,
            ensures
                i <= len,
                len == self@.len(),
                *self == *old(self),
                forall|j: int| 0 <= j < i ==> self@[j].source@ != path@,
                i == len || self@[i as int].source@ == path@,
            decreases len - i,
        {
            if crate::text::str_eq(self.deque[i].source.as_str(), path) {
                break;
            }
            i = i + 1;
        }
        proof {
            lemma_find_source_at(self@, path@, i as int);
        }
        match self.deque.remove(i) {
            Some(_) => true,
            None => false,
        }
    }

    /// A copy of the pending tasks in order, for display.
    pub fn snapshot(&self) -> (r: Vec<TranscodeTask>)
        ensures
            r@ == self@,
    {
        let len = self.deque.len();
        let mut r: Vec<TranscodeTask> = Vec::new();
        let mut i: usize = 0;
        while i < len
            invariant
                i <= len,
                len == self@.len(),
                r@ =~= self@.take(i as int),
            decreases len - i,
        {
            r.push(self.deque[i].clone());
            assert(r@ =~= self@.take(i + 1));
            i = i + 1;
        }
        assert(self@.take(len as int) =~= self@);
        r
    }
}

/// The values yielded by draining a queue with repeated `pop_front`:
/// the first task, then whatever draining the rest yields.
pub open spec fn drained(s: Seq<TranscodeTask>) -> Seq<TranscodeTask>
    decreases s.len(),
{
    if s.len() == 0 {
        Seq::empty()
    } else {
        seq![s[0]] + drained(s.drop_first())
    }
}

/// FIFO: draining the queue by repeated `pop_front` yields exactly the
/// tasks in the order they were enqueued — `enqueue` appends at the back,
/// so no pop can overtake an earlier task.
pub proof fn lemma_drain_is_fifo(s: Seq<TranscodeTask>)
    ensures
        drained(s) == s,
    decreases s.len(),
{
    if s.len() == 0 {
        assert(drained(s) =~= s);
    } else {
        lemma_drain_is_fifo(s.drop_first());
        assert(drained(s) =~= s);
    }
}

/// Enqueueing keeps every pending task in place and appends the new one
/// behind them: after enqueueing `a` and then `b`, `a` still precedes `b`.
pub proof fn lemma_enqueue_is_fifo(s: Seq<TranscodeTask>, a: TranscodeTask, b: TranscodeTask)
    ensures
        s.push(a).push(b)[s.len() as int] == a,
        s.push(a).push(b)[s.len() as int + 1] == b,
        forall|k: int| 0 <= k < s.len() ==> s.push(a).push(b)[k] == s[k],
{
}

/// A task removed by `remove_by_source` is never yielded by a later pop:
/// when the queue holds at most one task per source (as the state machine
/// guarantees), no task with the removed source remains after the removal.
pub proof fn lemma_removed_not_yielded(s: Seq<TranscodeTask>, p: Seq<char>)
    requires
        unique_sources(s),
        find_source(s, p) < s.len(),
    ensures
        forall|k: int|
            0 <= k < s.remove(find_source(s, p)).len() ==> (#[trigger] s.remove(
                find_source(s, p),
            )[k]).source@ != p,
{
    let f = find_source(s, p);
    lemma_find_source_props(s, p);
    assert forall|k: int| 0 <= k < s.remove(f).len() implies (#[trigger] s.remove(f)[k]).source@
        != p by {
        if k < f {
            assert(s.remove(f)[k] == s[k]);
        } else {
            assert(s.remove(f)[k] == s[k + 1]);
        }
    }
}

} // verus!
