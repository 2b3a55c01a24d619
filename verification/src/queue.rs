//! The execution queue: an unbounded FIFO of pending jobs.
//!
//! Jobs leave in the order they were enqueued. The single consumer polls
//! `dequeue`, which is non-blocking and returns `None` when drained.

use vstd::prelude::*;
use std::collections::VecDeque;
use crate::types::ExecutionJob;

verus! {

/// In-memory FIFO buffer of jobs waiting for the worker.
pub struct ExecutionQueue {
    queue: VecDeque<ExecutionJob>,
}

impl ExecutionQueue {
    /// The pending jobs, oldest first.
    pub closed spec fn view(&self) -> Seq<ExecutionJob> {
        self.queue@
    }

    /// Create an empty queue.
    pub fn new() -> (res: Self)
        ensures
            res@ == Seq::<ExecutionJob>::empty(),
    {
        ExecutionQueue { queue: VecDeque::new() }
    }

    /// Add a job at the back of the queue.
    pub fn enqueue(&mut self, job: ExecutionJob)
        ensures
            final(self)@ == old(self)@.push(job),
    {
        self.queue.push_back(job);
    }

    /// Take the oldest pending job, if any.
    pub fn dequeue(&mut self) -> (res: Option<ExecutionJob>)
        ensures
            old(self)@.len() == 0 ==> res is None && final(self)@ == old(self)@,
            old(self)@.len() > 0 ==> res == Some(old(self)@[0]) && final(self)@ == old(
                self,
            )@.drop_first(),
    {
        self.queue.pop_front()
    }

    /// How many jobs are pending.
    pub fn size(&self) -> (res: usize)
        ensures
            res == self@.len(),
    {
        self.queue.len()
    }

    /// Drop every pending job.
    pub fn clear(&mut self)
        ensures
            final(self)@ == Seq::<ExecutionJob>::empty(),
    {
        self.queue.clear();
    }
}

} // verus!
