//! The fast pool: a cascade of three sources of buffers.
//!
//! A buffer is taken from the first source that has one:
//!
//! 1. the calling thread's own [`ThreadCache`], which needs no
//!    synchronisation;
//! 2. the collection that all threads share, a lock-free queue;
//! 3. a fresh allocation.
//!
//! A buffer that comes back is overwritten with zeros first. Then it goes to
//! the thread's cache if that has room, else to the shared collection if that
//! is below `max_pool_size`, else it is given up.
//!
//! The count of the shared collection is kept beside the queue, not together
//! with it. While several threads are at work it is a close estimate, and the
//! collection may pass `max_pool_size` by a few buffers for a moment.

use super::cache::ThreadCache;
use super::cache::THREAD_CACHE_CAPACITY;
use super::config::PoolConfig;
use super::counter::count;
use super::counter::count_up;
use super::counter::counter;
use super::queue::LockFreeQueue;
use super::stats::FastPoolStats;
use crate::buffer::Buffer;
use crate::buffer::BufferView;
use crate::buffer::BUF_MAX_SIZE;
use std::sync::atomic::AtomicUsize;
use std::sync::Arc;
use vstd::prelude::*;

verus! {

/// The counters of a fast pool.
pub(crate) struct FastPoolStatsInner {
    pub(crate) allocated: AtomicUsize,
    pub(crate) acquired: AtomicUsize,
    pub(crate) returned: AtomicUsize,
    pub(crate) cache_hits: AtomicUsize,
}

impl FastPoolStatsInner {
    /// Counters that all start at zero.
    pub(crate) fn new() -> FastPoolStatsInner {
        FastPoolStatsInner {
            allocated: counter(),
            acquired: counter(),
            returned: counter(),
            cache_hits: counter(),
        }
    }
}

/// What the second and third source of the cascade give, for each outcome of
/// taking a buffer from the shared collection: the buffer taken, overwritten
/// with zeros, or else a fresh buffer of `buffer_size` bytes. The flag tells
/// whether the buffer is a fresh allocation.
pub fn shared_or_fresh(popped: Option<Buffer>, buffer_size: usize) -> (r: (Buffer, bool))
    requires
        buffer_size <= BUF_MAX_SIZE,
    ensures
        r.0@.is_clean(),
        match popped {
            Some(b) => r.0@ == BufferView::fresh(b@.capacity()) && !r.1,
            None => r.0@ == BufferView::fresh(buffer_size as nat) && r.1,
        },
{
    match popped {
        Some(buffer) => {
            let mut buffer = buffer;
            buffer.burn();
            (buffer, false)
        },
        None => (Buffer::new(buffer_size), true),
    }
}

/// Whether a shared collection that counts `count` buffers takes another one
/// under the limit `max_pool_size`.
pub fn shared_takes(count: usize, max_pool_size: usize) -> (b: bool)
    ensures
        b == (count < max_pool_size),
{
    count < max_pool_size
}

/// The number of fresh buffers that warming to `target_size` adds to a shared
/// collection that counts `count` buffers: what is missing up to
/// `target_size`, or up to `max_pool_size` where that is less.
pub fn warm_need(count: usize, target_size: usize, max_pool_size: usize) -> (n: usize)
    ensures
        n == if target_size <= max_pool_size {
            if count < target_size {
                target_size - count
            } else {
                0
            }
        } else {
            if count < max_pool_size {
                max_pool_size - count
            } else {
                0
            }
        },
{
    let target: usize = if target_size <= max_pool_size {
        target_size
    } else {
        max_pool_size
    };
    if count < target {
        target - count
    } else {
        0
    }
}

/// A pool of buffers for many threads, without a lock.
///
/// Other threads may use the pool between any two calls and during each, so
/// the contracts here state what holds whatever they do.
pub struct FastBufferPool {
    global_pool: Arc<LockFreeQueue>,
    config: PoolConfig,
    stats: Arc<FastPoolStatsInner>,
}

/// A buffer on loan from a [`FastBufferPool`]. It is used through `Deref`
/// like the [`Buffer`] it holds, and given back with
/// [`release`](FastPooledBuffer::release). One that is dropped instead is
/// overwritten with zeros like every buffer and does not come back.
pub struct FastPooledBuffer {
    buffer: Buffer,
    pool: Arc<LockFreeQueue>,
    config: PoolConfig,
    stats: Arc<FastPoolStatsInner>,
}

impl FastBufferPool {
    #[verifier::type_invariant]
    spec fn inv(self) -> bool {
        self.config.buffer_size <= BUF_MAX_SIZE
    }

    /// The configuration that the pool was made with.
    pub closed spec fn config(&self) -> PoolConfig {
        self.config
    }

    /// A pool whose shared collection holds `config.min_pool_size` fresh
    /// buffers.
    pub fn new(config: PoolConfig) -> (p: FastBufferPool)
        requires
            config.buffer_size <= BUF_MAX_SIZE,
        ensures
            p.config() == config,
    {
        let queue = LockFreeQueue::new();
        let mut i: usize = 0;
        while i < config.min_pool_size
            invariant
                config.buffer_size <= BUF_MAX_SIZE,
            decreases config.min_pool_size - i,
        {
            queue.push(Buffer::new(config.buffer_size));
            i = i + 1;
        }
        FastBufferPool {
            global_pool: Arc::new(queue),
            config,
            stats: Arc::new(FastPoolStatsInner::new()),
        }
    }

    /// Wraps `buffer` as a loan from this pool.
    fn lend(&self, buffer: Buffer) -> (g: FastPooledBuffer)
        ensures
            g@ == buffer@,
            g.config() == self.config(),
    {
        FastPooledBuffer {
            buffer,
            pool: Arc::clone(&self.global_pool),
            config: self.config,
            stats: Arc::clone(&self.stats),
        }
    }

    /// Hands out a buffer from the first source that has one: the last buffer
    /// of `cache`, a buffer of the shared collection, or a fresh one of
    /// `buffer_size` bytes. Whichever it is, the buffer is clean: all its
    /// bytes are zero, and so are its cursor and length. A buffer from the
    /// shared collection is overwritten with zeros once more to make sure.
    pub fn acquire(&self, cache: &mut ThreadCache) -> (g: FastPooledBuffer)
        ensures
            g@.is_clean(),
            g.config() == self.config(),
            old(cache)@.len() > 0 ==> g@ == old(cache)@.last() && final(cache)@ == old(cache)@.drop_last(),
            old(cache)@.len() == 0 ==> final(cache)@ == old(cache)@,
    {
        proof {
            use_type_invariant(self);
        }
        count_up(&self.stats.acquired);
        match cache.take() {
            Some(buffer) => {
                count_up(&self.stats.cache_hits);
                return self.lend(buffer);
            },
            None => {},
        }
        let (buffer, fresh) = shared_or_fresh(self.global_pool.pop(), self.config.buffer_size);
        if fresh {
            count_up(&self.stats.allocated);
        }
        self.lend(buffer)
    }

    /// The count of idle buffers in the shared collection at the moment of
    /// the call. Buffers in the caches of threads are not counted.
    pub fn available(&self) -> usize {
        self.global_pool.len()
    }

    /// A snapshot of the counters, each read at its own moment. Buffers lost
    /// with ended threads are not counted.
    pub fn stats(&self) -> (st: FastPoolStats)
        ensures
            st.thread_local_lost == 0,
    {
        FastPoolStats {
            available: self.global_pool.len(),
            allocated: count(&self.stats.allocated),
            acquired: count(&self.stats.acquired),
            returned: count(&self.stats.returned),
            cache_hits: count(&self.stats.cache_hits),
            thread_local_lost: 0,
        }
    }

    /// Takes buffers out of the shared collection until it is found empty,
    /// and gives them up. The caches of threads are left alone.
    pub fn clear(&self) {
        let mut left: usize = usize::MAX;
        while left > 0
            decreases left,
        {
            if self.global_pool.pop().is_none() {
                break ;
            }
            left = left - 1;
        }
    }

    /// Adds fresh buffers to the shared collection, as many as its count at
    /// the moment of the call is short of `target_size`, or of
    /// `max_pool_size` where that is less.
    pub fn warm(&self, target_size: usize) {
        proof {
            use_type_invariant(self);
        }
        let need: usize = warm_need(
            self.global_pool.len(),
            target_size,
            self.config.max_pool_size,
        );
        let mut i: usize = 0;
        while i < need
            invariant
                self.config.buffer_size <= BUF_MAX_SIZE,
            decreases need - i,
        {
            self.global_pool.push(Buffer::new(self.config.buffer_size));
            i = i + 1;
        }
    }

    /// Empties `cache`: each of its buffers goes to the shared collection
    /// while that is below `max_pool_size`, and is given up otherwise. A
    /// thread calls this before it ends, so that its buffers are not lost to
    /// the pool.
    pub fn clear_thread_cache(&self, cache: &mut ThreadCache)
        ensures
            final(cache)@.len() == 0,
    {
        loop
            ensures
                cache@.len() == 0,
            decreases cache@.len(),
        {
            match cache.take() {
                Some(buffer) => {
                    if shared_takes(self.global_pool.len(), self.config.max_pool_size) {
                        self.global_pool.push(buffer);
                    } else {
                        buffer.burn_free();
                    }
                },
                None => {
                    break ;
                },
            }
        }
    }
}

impl View for FastPooledBuffer {
    type V = BufferView;

    closed spec fn view(&self) -> BufferView {
        self.buffer@
    }
}

impl FastPooledBuffer {
    /// The configuration of the pool that the buffer is on loan from.
    pub closed spec fn config(&self) -> PoolConfig {
        self.config
    }

    /// Gives the buffer back: it is overwritten with zeros first, then stored
    /// in `cache` if that has room. Where the cache is full the buffer goes
    /// to the shared collection if that is below `max_pool_size`, and is given
    /// up otherwise.
    pub fn release(self, cache: &mut ThreadCache)
        ensures
            final(cache)@ == if old(cache)@.len() < THREAD_CACHE_CAPACITY {
                old(cache)@.push(BufferView::fresh(self@.capacity()))
            } else {
                old(cache)@
            },
    {
        let FastPooledBuffer { buffer, pool, config, stats } = self;
        count_up(&stats.returned);
        match cache.store(buffer) {
            Some(buffer) => {
                if shared_takes(pool.len(), config.max_pool_size) {
                    pool.push(buffer);
                }
            },
            None => {},
        }
    }

    /// Gives the buffer back past the caches of threads: it is overwritten
    /// with zeros first, then goes to the shared collection if that is below
    /// `max_pool_size`, and is given up otherwise.
    pub fn release_shared(self) {
        let FastPooledBuffer { buffer, pool, config, stats } = self;
        let mut buffer = buffer;
        buffer.burn();
        count_up(&stats.returned);
        if shared_takes(pool.len(), config.max_pool_size) {
            pool.push(buffer);
        }
    }

    /// Takes the buffer out of the pool's care, as it is. It does not come
    /// back to the pool.
    pub fn leak(self) -> (b: Buffer)
        ensures
            b@ == self@,
    {
        let FastPooledBuffer { buffer, pool: _, config: _, stats: _ } = self;
        buffer
    }

    /// Overwrites the buffer with zeros and gives it up at once. It does not
    /// come back to the pool.
    pub fn drop_now(self) {
        let FastPooledBuffer { buffer, pool: _, config: _, stats: _ } = self;
        buffer.burn_free();
    }

    /// The capacity of the buffer.
    pub fn capacity(&self) -> (n: usize)
        ensures
            n == self@.capacity(),
    {
        self.buffer.capacity()
    }
}

impl Default for FastBufferPool {
    /// A pool with the default configuration.
    fn default() -> (p: FastBufferPool) {
        FastBufferPool::new(PoolConfig::default())
    }
}

impl std::ops::Deref for FastPooledBuffer {
    type Target = Buffer;

    fn deref(&self) -> (b: &Buffer)
        ensures
            b@ == self@,
    {
        &self.buffer
    }
}

impl std::ops::DerefMut for FastPooledBuffer {
    fn deref_mut(&mut self) -> (b: &mut Buffer)
        ensures
            b@ == old(self)@,
            final(self)@ == final(b)@,
            final(self).config() == old(self).config(),
    {
        &mut self.buffer
    }
}

} // verus!
