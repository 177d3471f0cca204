//! Snapshots of a pool's counters.

use vstd::prelude::*;

verus! {

/// The counters of a [`BufferPool`](super::BufferPool) at one moment.
#[derive(Debug, Clone, Copy)]
pub struct PoolStats {
    /// The number of idle buffers.
    pub available: usize,
    /// The number of buffers allocated because no idle one was there.
    pub total_allocated: usize,
    /// The number of buffers handed out.
    pub total_acquired: usize,
    /// The number of buffers that came back.
    pub total_returned: usize,
    /// The size of the buffers that the pool allocates.
    pub buffer_size: usize,
    /// The largest number of idle buffers that the pool takes back.
    pub max_pool_size: usize,
}

impl PoolStats {
    /// The number of buffers handed out and not yet back.
    pub fn in_use(&self) -> (n: usize)
        ensures
            n == if self.total_acquired >= self.total_returned {
                self.total_acquired - self.total_returned
            } else {
                0
            },
    {
        self.total_acquired.saturating_sub(self.total_returned)
    }

    /// The number of buffers handed out that were idle ones, not fresh
    /// allocations.
    pub fn reused(&self) -> (n: usize)
        ensures
            n == if self.total_acquired >= self.total_allocated {
                self.total_acquired - self.total_allocated
            } else {
                0
            },
    {
        self.total_acquired.saturating_sub(self.total_allocated)
    }
}

/// The counters of a [`FastBufferPool`](super::FastBufferPool) at one moment.
/// They are read one by one while other threads go on, so together they are a
/// close estimate.
#[derive(Debug, Clone, Copy)]
pub struct FastPoolStats {
    /// The number of idle buffers in the shared collection.
    pub available: usize,
    /// The number of buffers allocated because no idle one was there.
    pub allocated: usize,
    /// The number of buffers handed out.
    pub acquired: usize,
    /// The number of buffers that came back.
    pub returned: usize,
    /// The number of buffers handed out from a thread's own cache.
    pub cache_hits: usize,
    /// The number of buffers counted as lost with ended threads; such buffers
    /// are not counted, so this is zero.
    pub thread_local_lost: usize,
}

impl FastPoolStats {
    /// The number of buffers handed out and not yet back.
    pub fn in_use(&self) -> (n: usize)
        ensures
            n == if self.acquired >= self.returned {
                self.acquired - self.returned
            } else {
                0
            },
    {
        self.acquired.saturating_sub(self.returned)
    }

    /// The number of buffers handed out that were idle ones, not fresh
    /// allocations.
    pub fn reused(&self) -> (n: usize)
        ensures
            n == if self.acquired >= self.allocated {
                self.acquired - self.allocated
            } else {
                0
            },
    {
        self.acquired.saturating_sub(self.allocated)
    }

    /// The bytes lost with ended threads, for buffers of `buffer_size` bytes.
    pub fn leaked_bytes(&self, buffer_size: usize) -> (n: usize)
        requires
            self.thread_local_lost * buffer_size <= usize::MAX,
        ensures
            n == self.thread_local_lost * buffer_size,
    {
        self.thread_local_lost * buffer_size
    }

    /// Whether more than a tenth of the allocated buffers were lost with
    /// ended threads.
    pub fn has_leak_concern(&self) -> (b: bool)
        ensures
            b == (self.allocated > 0 && self.thread_local_lost * 10 > self.allocated),
    {
        self.allocated > 0 && self.thread_local_lost > self.allocated / 10
    }
}

} // verus!
