//! The controller's input port: a bounded queue that never blocks whoever
//! sends. What arrives while the queue is full is dropped and counted; what
//! was accepted leaves in the order in which it arrived.

use std::collections::VecDeque;
use vstd::prelude::*;

verus! {

/// How many inputs may wait for the controller.
pub const INPUT_DEPTH: usize = 1024;

/// The bounded input queue.
pub struct InputQueue<T> {
    depth: usize,
    queue: VecDeque<T>,
    dropped: u64,
}

/// What an input queue is: what waits in it, oldest first; how many inputs
/// may wait; and how many were dropped because the queue was full.
pub ghost struct InputQueueView<T> {
    pub pending: Seq<T>,
    pub depth: nat,
    pub dropped: nat,
}

impl<T> View for InputQueue<T> {
    type V = InputQueueView<T>;

    closed spec fn view(&self) -> InputQueueView<T> {
        InputQueueView {
            pending: self.queue@,
            depth: self.depth as nat,
            dropped: self.dropped as nat,
        }
    }
}

impl<T> InputQueue<T> {
    /// No more waits than the depth allows.
    pub open spec fn wf(&self) -> bool {
        self@.pending.len() <= self@.depth
    }

    /// An empty queue of the standard depth.
    pub fn new() -> (q: InputQueue<T>)
        ensures
            q@ == (InputQueueView {
                pending: Seq::<T>::empty(),
                depth: INPUT_DEPTH as nat,
                dropped: 0,
            }),
            q.wf(),
    {
        InputQueue::with_depth(INPUT_DEPTH)
    }

    /// An empty queue of the given depth.
    pub fn with_depth(depth: usize) -> (q: InputQueue<T>)
        ensures
            q@ == (InputQueueView { pending: Seq::<T>::empty(), depth: depth as nat, dropped: 0 }),
            q.wf(),
    {
        InputQueue { depth, queue: VecDeque::new(), dropped: 0 }
    }

    /// Queues `msg` unless the queue is full, and returns whether it was
    /// queued. A message that finds the queue full is dropped and counted.
    pub fn send(&mut self, msg: T) -> (accepted: bool)
        ensures
            accepted == (old(self)@.pending.len() < old(self)@.depth),
            final(self)@ == if accepted {
                InputQueueView { pending: old(self)@.pending.push(msg), ..old(self)@ }
            } else if old(self)@.dropped < u64::MAX {
                InputQueueView { dropped: old(self)@.dropped + 1, ..old(self)@ }
            } else {
                old(self)@
            },
            old(self).wf() ==> final(self).wf(),
    {
        if self.queue.len() < self.depth {
            self.queue.push_back(msg);
            true
        } else {
            if self.dropped < u64::MAX {
                self.dropped += 1;
            }
            false
        }
    }

    /// Takes the oldest input out of the queue, if there is one.
    pub fn recv(&mut self) -> (r: Option<T>)
        ensures
            r is Some == (old(self)@.pending.len() > 0),
            match r {
                Some(msg) => msg == old(self)@.pending[0] && final(self)@ == (InputQueueView {
                    pending: old(self)@.pending.skip(1),
                    ..old(self)@
                }),
                None => final(self)@ == old(self)@,
            },
            old(self).wf() ==> final(self).wf(),
    {
        let r = self.queue.pop_front();
        assert(r is Some ==> self.queue@ =~= old(self).queue@.skip(1));
        r
    }

    /// How many inputs wait.
    pub fn len(&self) -> (n: usize)
        ensures
            n == self@.pending.len(),
    {
        self.queue.len()
    }

    /// How many inputs were dropped because the queue was full.
    pub fn overflowed(&self) -> (n: u64)
        ensures
            n == self@.dropped,
    {
        self.dropped
    }
}

} // verus!
