//! The runtime shape: one shared work-stealing pool, or one single-threaded
//! reactor per worker, each binding the listening address itself.

use vstd::prelude::*;

verus! {

/// The two runtime shapes.
#[derive(PartialEq, Eq, Clone, Copy, Debug)]
pub enum EventLoop {
    ThreadPool,
    MultiSingleThreaded,
}

/// Chooses the runtime shape and its number of workers.
#[derive(Debug)]
pub struct Builder {
    kind: EventLoop,
    thread_count: Option<usize>,
}

/// Relies on `num_cpus::get`: the number of CPUs this process may use, which
/// its documentation promises is at least 1.
#[verifier::external_body]
fn available_cpus() -> (r: usize)
    ensures
        r >= 1,
{
    num_cpus::get()
}

impl Builder {
    pub closed spec fn spec_kind(&self) -> EventLoop {
        self.kind
    }

    pub closed spec fn spec_thread_count(&self) -> Option<usize> {
        self.thread_count
    }

    /// A builder of the given shape, with the default number of workers.
    pub fn new(kind: EventLoop) -> (r: Builder)
        ensures
            r.spec_kind() == kind,
            r.spec_thread_count() is None,
    {
        Builder { kind, thread_count: None }
    }

    /// A builder of one shared pool.
    pub fn new_thread_pool() -> (r: Builder)
        ensures
            r.spec_kind() == EventLoop::ThreadPool,
            r.spec_thread_count() is None,
    {
        Builder { kind: EventLoop::ThreadPool, thread_count: None }
    }

    /// A builder of independent single-threaded reactors.
    pub fn new_multi_single_threaded() -> (r: Builder)
        ensures
            r.spec_kind() == EventLoop::MultiSingleThreaded,
            r.spec_thread_count() is None,
    {
        Builder { kind: EventLoop::MultiSingleThreaded, thread_count: None }
    }

    /// The same builder with `count` workers (`None`: the default).
    pub fn worker_threads(self, count: Option<usize>) -> (r: Builder)
        ensures
            r.spec_kind() == self.spec_kind(),
            r.spec_thread_count() == count,
    {
        Builder { thread_count: count, ..self }
    }

    pub fn kind(&self) -> (r: EventLoop)
        ensures
            r == self.spec_kind(),
    {
        self.kind
    }

    pub fn thread_count(&self) -> (r: Option<usize>)
        ensures
            r == self.spec_thread_count(),
    {
        self.thread_count
    }

    /// The number of workers to start: the configured count, or else one per
    /// CPU available to the process.
    pub fn resolved_thread_count(&self) -> (r: usize)
        ensures
            match self.spec_thread_count() {
                Some(n) => r == n,
                None => r >= 1,
            },
    {
        match self.thread_count {
            Some(n) => n,
            None => available_cpus(),
        }
    }
}

} // verus!
