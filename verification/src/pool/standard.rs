//! The standard pool: one list of idle buffers behind one lock.

use super::config::PoolConfig;
use super::stats::PoolStats;
use crate::buffer::Buffer;
use crate::buffer::BufferView;
use crate::buffer::BUF_MAX_SIZE;
use std::sync::Arc;
use vstd::prelude::*;
use vstd::rwlock::RwLock;
use vstd::rwlock::RwLockPredicate;

verus! {

/// A counter one step on. It stops at the largest number it can hold.
pub open spec fn bump(n: nat) -> nat {
    if n < usize::MAX {
        n + 1
    } else {
        n
    }
}

/// What the state of a pool is, mathematically.
pub struct PoolView {
    /// The idle buffers; the last one is handed out next.
    pub idle: Seq<BufferView>,
    /// The configuration.
    pub config: PoolConfig,
    /// The number of buffers allocated because no idle one was there.
    pub total_allocated: nat,
    /// The number of buffers handed out.
    pub total_acquired: nat,
    /// The number of buffers that came back.
    pub total_returned: nat,
}

/// The most idle buffers that a pool made with `config` ever holds:
/// `max_pool_size`, or the `min_pool_size` it starts with where that is more.
pub open spec fn idle_limit(config: PoolConfig) -> nat {
    if config.max_pool_size >= config.min_pool_size {
        config.max_pool_size as nat
    } else {
        config.min_pool_size as nat
    }
}

impl PoolView {
    /// The invariant of every pool: every idle buffer is clean, and there are
    /// no more of them than the limit.
    pub open spec fn wf(self) -> bool {
        &&& self.config.buffer_size <= BUF_MAX_SIZE
        &&& self.idle.len() <= idle_limit(self.config)
        &&& forall|i: int| 0 <= i < self.idle.len() ==> (#[trigger] self.idle[i]).is_clean()
        &&& self.total_allocated <= self.total_acquired <= usize::MAX
        &&& self.total_returned <= usize::MAX
    }

    /// Whether this is a state that a pool made with `config` can be in.
    pub open spec fn state_of(self, config: PoolConfig) -> bool {
        self.wf() && self.config == config
    }

    /// A pool as it is made: `min_pool_size` fresh buffers, all counters zero.
    pub open spec fn initial(config: PoolConfig) -> PoolView {
        PoolView {
            idle: Seq::new(
                config.min_pool_size as nat,
                |i: int| BufferView::fresh(config.buffer_size as nat),
            ),
            config,
            total_allocated: 0,
            total_acquired: 0,
            total_returned: 0,
        }
    }

    /// The buffer that the next acquisition hands out: the last idle one, or a
    /// fresh one where none is idle.
    pub open spec fn next_out(self) -> BufferView {
        if self.idle.len() > 0 {
            self.idle.last()
        } else {
            BufferView::fresh(self.config.buffer_size as nat)
        }
    }

    /// After a buffer was handed out.
    pub open spec fn after_acquire(self) -> PoolView {
        PoolView {
            idle: if self.idle.len() > 0 {
                self.idle.drop_last()
            } else {
                self.idle
            },
            config: self.config,
            total_allocated: if self.idle.len() > 0 {
                self.total_allocated
            } else {
                bump(self.total_allocated)
            },
            total_acquired: bump(self.total_acquired),
            total_returned: self.total_returned,
        }
    }

    /// After a buffer of `capacity` bytes came back: it is idle, zeroed, if
    /// fewer than `max_pool_size` buffers were idle, and gone otherwise.
    pub open spec fn after_release(self, capacity: nat) -> PoolView {
        PoolView {
            idle: if self.idle.len() < self.config.max_pool_size {
                self.idle.push(BufferView::fresh(capacity))
            } else {
                self.idle
            },
            config: self.config,
            total_allocated: self.total_allocated,
            total_acquired: self.total_acquired,
            total_returned: bump(self.total_returned),
        }
    }

    /// After the idle buffers beyond `min_pool_size` were given up.
    pub open spec fn after_shrink(self) -> PoolView {
        PoolView {
            idle: if self.idle.len() > self.config.min_pool_size {
                self.idle.subrange(0, self.config.min_pool_size as int)
            } else {
                self.idle
            },
            config: self.config,
            total_allocated: self.total_allocated,
            total_acquired: self.total_acquired,
            total_returned: self.total_returned,
        }
    }

    /// After all idle buffers were given up.
    pub open spec fn after_clear(self) -> PoolView {
        PoolView {
            idle: Seq::empty(),
            config: self.config,
            total_allocated: self.total_allocated,
            total_acquired: self.total_acquired,
            total_returned: self.total_returned,
        }
    }

    /// The number of idle buffers that growing to `target_size` aims at.
    pub open spec fn grow_goal(self, target_size: nat) -> nat {
        if target_size <= self.config.max_pool_size {
            target_size
        } else {
            self.config.max_pool_size as nat
        }
    }

    /// After fresh buffers were added until `target_size` were idle, or
    /// `max_pool_size` where that is less.
    pub open spec fn after_grow(self, target_size: nat) -> PoolView {
        PoolView {
            idle: if self.idle.len() < self.grow_goal(target_size) {
                self.idle + Seq::new(
                    (self.grow_goal(target_size) - self.idle.len()) as nat,
                    |i: int| BufferView::fresh(self.config.buffer_size as nat),
                )
            } else {
                self.idle
            },
            config: self.config,
            total_allocated: self.total_allocated,
            total_acquired: self.total_acquired,
            total_returned: self.total_returned,
        }
    }
}

/// The state of a pool, for one owner at a time: the idle buffers and the
/// counters. [`BufferPool`] shares one such state between threads.
pub struct PoolInner {
    buffers: Vec<Buffer>,
    config: PoolConfig,
    total_allocated: usize,
    total_acquired: usize,
    total_returned: usize,
}

impl View for PoolInner {
    type V = PoolView;

    closed spec fn view(&self) -> PoolView {
        PoolView {
            idle: self.buffers@.map_values(|b: Buffer| b@),
            config: self.config,
            total_allocated: self.total_allocated as nat,
            total_acquired: self.total_acquired as nat,
            total_returned: self.total_returned as nat,
        }
    }
}

/// `n` one step on, stopping at `usize::MAX`.
fn bumped(n: usize) -> (m: usize)
    ensures
        m == bump(n as nat),
{
    if n < usize::MAX {
        n + 1
    } else {
        n
    }
}

impl PoolInner {
    #[verifier::type_invariant]
    spec fn inv(self) -> bool {
        self@.wf()
    }

    /// A pool state with `config.min_pool_size` fresh idle buffers.
    pub fn new(config: PoolConfig) -> (p: PoolInner)
        requires
            config.buffer_size <= BUF_MAX_SIZE,
        ensures
            p@ == PoolView::initial(config),
            p@.wf(),
    {
        let mut buffers: Vec<Buffer> = Vec::new();
        let mut i: usize = 0;
        while i < config.min_pool_size
            invariant
                i <= config.min_pool_size,
                config.buffer_size <= BUF_MAX_SIZE,
                buffers@.len() == i,
                forall|k: int|
                    0 <= k < i ==> (#[trigger] buffers@[k])@ == BufferView::fresh(
                        config.buffer_size as nat,
                    ),
            decreases config.min_pool_size - i,
        {
            buffers.push(Buffer::new(config.buffer_size));
            i = i + 1;
        }
        let p = PoolInner {
            buffers,
            config,
            total_allocated: 0,
            total_acquired: 0,
            total_returned: 0,
        };
        assert(p@.idle =~= PoolView::initial(config).idle);
        p
    }

    /// Hands out the last idle buffer, or a fresh one of `buffer_size` bytes
    /// where none is idle. Either way the buffer is clean.
    pub fn acquire(&mut self) -> (b: Buffer)
        ensures
            b@ == old(self)@.next_out(),
            b@.is_clean(),
            final(self)@ == old(self)@.after_acquire(),
            final(self)@.wf(),
    {
        proof {
            use_type_invariant(&*self);
        }
        let mut buffers: Vec<Buffer> = Vec::new();
        core::mem::swap(&mut self.buffers, &mut buffers);
        assert(self.buffers@.map_values(|b: Buffer| b@) =~= Seq::<BufferView>::empty());
        let popped = buffers.pop();
        proof {
            assert(buffers@.map_values(|b: Buffer| b@) =~= if old(self)@.idle.len() > 0 {
                old(self)@.idle.drop_last()
            } else {
                old(self)@.idle
            });
        }
        core::mem::swap(&mut self.buffers, &mut buffers);
        self.total_acquired = bumped(self.total_acquired);
        match popped {
            Some(b) => {
                assert(b@ == old(self)@.idle.last());
                b
            },
            None => {
                self.total_allocated = bumped(self.total_allocated);
                Buffer::new(self.config.buffer_size)
            },
        }
    }

    /// Takes `buffer` back: overwrites it with zeros first, then keeps it as
    /// an idle buffer if fewer than `max_pool_size` are idle, and gives it up
    /// otherwise.
    pub fn release(&mut self, buffer: Buffer)
        ensures
            final(self)@ == old(self)@.after_release(buffer@.capacity()),
            final(self)@.wf(),
    {
        proof {
            use_type_invariant(&*self);
        }
        let mut buffer = buffer;
        buffer.burn();
        self.total_returned = bumped(self.total_returned);
        let mut buffers: Vec<Buffer> = Vec::new();
        core::mem::swap(&mut self.buffers, &mut buffers);
        assert(self.buffers@.map_values(|b: Buffer| b@) =~= Seq::<BufferView>::empty());
        if buffers.len() < self.config.max_pool_size {
            buffers.push(buffer);
        }
        proof {
            assert(buffers@.map_values(|b: Buffer| b@) =~= old(self)@.after_release(
                buffer@.capacity(),
            ).idle);
        }
        core::mem::swap(&mut self.buffers, &mut buffers);
    }

    /// The number of idle buffers.
    pub fn available(&self) -> (n: usize)
        ensures
            n == self@.idle.len(),
    {
        self.buffers.len()
    }

    /// The configuration.
    pub fn config(&self) -> (c: PoolConfig)
        ensures
            c == self@.config,
    {
        self.config
    }

    /// A snapshot of the counters.
    pub fn stats(&self) -> (st: PoolStats)
        ensures
            st.available == self@.idle.len(),
            st.total_allocated == self@.total_allocated,
            st.total_acquired == self@.total_acquired,
            st.total_returned == self@.total_returned,
            st.buffer_size == self@.config.buffer_size,
            st.max_pool_size == self@.config.max_pool_size,
            st.total_allocated <= st.total_acquired,
    {
        proof {
            use_type_invariant(self);
        }
        PoolStats {
            available: self.buffers.len(),
            total_allocated: self.total_allocated,
            total_acquired: self.total_acquired,
            total_returned: self.total_returned,
            buffer_size: self.config.buffer_size,
            max_pool_size: self.config.max_pool_size,
        }
    }

    /// Gives up the idle buffers beyond `min_pool_size`.
    pub fn shrink(&mut self)
        ensures
            final(self)@ == old(self)@.after_shrink(),
            final(self)@.wf(),
    {
        proof {
            use_type_invariant(&*self);
        }
        let mut buffers: Vec<Buffer> = Vec::new();
        core::mem::swap(&mut self.buffers, &mut buffers);
        assert(self.buffers@.map_values(|b: Buffer| b@) =~= Seq::<BufferView>::empty());
        buffers.truncate(self.config.min_pool_size);
        proof {
            assert(buffers@.map_values(|b: Buffer| b@) =~= old(self)@.after_shrink().idle);
        }
        core::mem::swap(&mut self.buffers, &mut buffers);
    }

    /// Gives up all idle buffers.
    pub fn clear(&mut self)
        ensures
            final(self)@ == old(self)@.after_clear(),
            final(self)@.wf(),
    {
        proof {
            use_type_invariant(&*self);
        }
        let mut buffers: Vec<Buffer> = Vec::new();
        core::mem::swap(&mut self.buffers, &mut buffers);
        assert(self.buffers@.map_values(|b: Buffer| b@) =~= Seq::<BufferView>::empty());
    }

    /// Adds fresh buffers until `target_size` are idle, or `max_pool_size`
    /// where that is less.
    pub fn grow(&mut self, target_size: usize)
        ensures
            final(self)@ == old(self)@.after_grow(target_size as nat),
            final(self)@.wf(),
    {
        proof {
            use_type_invariant(&*self);
        }
        let target: usize = if target_size <= self.config.max_pool_size {
            target_size
        } else {
            self.config.max_pool_size
        };
        let size: usize = self.config.buffer_size;
        let mut buffers: Vec<Buffer> = Vec::new();
        core::mem::swap(&mut self.buffers, &mut buffers);
        assert(self.buffers@.map_values(|b: Buffer| b@) =~= Seq::<BufferView>::empty());
        let ghost start = buffers@;
        while buffers.len() < target
            invariant
                size <= BUF_MAX_SIZE,
                start.len() <= buffers@.len(),
                start.len() < target ==> buffers@.len() <= target,
                start.len() >= target ==> buffers@ == start,
                forall|k: int| 0 <= k < start.len() ==> buffers@[k] == start[k],
                forall|k: int|
                    start.len() <= k < buffers@.len() ==> (#[trigger] buffers@[k])@
                        == BufferView::fresh(size as nat),
            decreases target - buffers@.len(),
        {
            buffers.push(Buffer::new(size));
        }
        proof {
            assert(buffers@.map_values(|b: Buffer| b@) =~= old(self)@.after_grow(
                target_size as nat,
            ).idle);
        }
        core::mem::swap(&mut self.buffers, &mut buffers);
    }
}

/// What the lock of a [`BufferPool`] keeps true of the state inside it.
pub struct PoolGuarantee {
    /// The configuration that the pool was made with.
    pub config: PoolConfig,
}

impl RwLockPredicate<PoolInner> for PoolGuarantee {
    open spec fn inv(self, v: PoolInner) -> bool {
        v@.wf() && v@.config == self.config
    }
}

/// A pool of buffers that threads share: one list of idle buffers and its
/// counters behind one lock, which is held for one step at a time and never
/// across the caller's code.
///
/// Other threads may use the pool between any two calls, so the contracts
/// here state what holds whatever they do. What a single step does to the
/// state is stated on [`PoolInner`].
pub struct BufferPool {
    inner: Arc<RwLock<PoolInner, PoolGuarantee>>,
}

/// A buffer on loan from a [`BufferPool`]. It is used through `Deref` like
/// the [`Buffer`] it holds, and given back with
/// [`release`](PooledBuffer::release). One that is dropped instead is
/// overwritten with zeros like every buffer and does not come back.
pub struct PooledBuffer {
    buffer: Buffer,
    pool: Arc<RwLock<PoolInner, PoolGuarantee>>,
}

impl BufferPool {
    /// The configuration that the pool was made with.
    pub closed spec fn config(&self) -> PoolConfig {
        self.inner.pred().config
    }

    /// A pool with `config.min_pool_size` fresh idle buffers.
    pub fn new(config: PoolConfig) -> (p: BufferPool)
        requires
            config.buffer_size <= BUF_MAX_SIZE,
        ensures
            p.config() == config,
    {
        let inner = PoolInner::new(config);
        BufferPool { inner: Arc::new(RwLock::new(inner, Ghost(PoolGuarantee { config }))) }
    }

    /// Hands out an idle buffer, or a fresh one of `buffer_size` bytes where
    /// none is idle. Either way the buffer is clean: all its bytes are zero,
    /// and so are its cursor and length.
    pub fn acquire(&self) -> (g: PooledBuffer)
        ensures
            g@.is_clean(),
            g.config() == self.config(),
    {
        let (mut inner, handle) = self.inner.acquire_write();
        let buffer = inner.acquire();
        handle.release_write(inner);
        PooledBuffer { buffer, pool: Arc::clone(&self.inner) }
    }

    /// The number of idle buffers at the moment of the call: the number in a
    /// state that the pool was in while the call held the lock.
    pub fn available(&self) -> (n: usize)
        ensures
            exists|v: PoolView| v.state_of(self.config()) && n == v.idle.len(),
            n <= idle_limit(self.config()),
    {
        let handle = self.inner.acquire_read();
        let n: usize = handle.borrow().available();
        assert(handle.view()@.state_of(self.config()));
        handle.release_read();
        n
    }

    /// A snapshot of the counters at the moment of the call.
    pub fn stats(&self) -> (st: PoolStats)
        ensures
            st.buffer_size == self.config().buffer_size,
            st.max_pool_size == self.config().max_pool_size,
            st.available <= idle_limit(self.config()),
            st.total_allocated <= st.total_acquired,
    {
        let handle = self.inner.acquire_read();
        let st = handle.borrow().stats();
        handle.release_read();
        st
    }

    /// Gives up the idle buffers beyond `min_pool_size`.
    pub fn shrink(&self) {
        let (mut inner, handle) = self.inner.acquire_write();
        inner.shrink();
        handle.release_write(inner);
    }

    /// Gives up all idle buffers.
    pub fn clear(&self) {
        let (mut inner, handle) = self.inner.acquire_write();
        inner.clear();
        handle.release_write(inner);
    }

    /// Adds fresh buffers until `target_size` are idle, or `max_pool_size`
    /// where that is less.
    pub fn grow(&self, target_size: usize) {
        let (mut inner, handle) = self.inner.acquire_write();
        inner.grow(target_size);
        handle.release_write(inner);
    }
}

impl Default for BufferPool {
    /// A pool with the default configuration.
    fn default() -> (p: BufferPool) {
        BufferPool::new(PoolConfig::default())
    }
}

impl View for PooledBuffer {
    type V = BufferView;

    closed spec fn view(&self) -> BufferView {
        self.buffer@
    }
}

impl PooledBuffer {
    /// The configuration of the pool that the buffer is on loan from.
    pub closed spec fn config(&self) -> PoolConfig {
        self.pool.pred().config
    }

    /// Gives the buffer back to its pool: it is overwritten with zeros first,
    /// then kept as an idle buffer if fewer than `max_pool_size` are idle, and
    /// given up otherwise.
    pub fn release(self) {
        let PooledBuffer { buffer, pool } = self;
        let (mut inner, handle) = pool.acquire_write();
        inner.release(buffer);
        handle.release_write(inner);
    }

    /// Takes the buffer out of the pool's care, as it is. It does not come
    /// back to the pool.
    pub fn leak(self) -> (b: Buffer)
        ensures
            b@ == self@,
    {
        let PooledBuffer { buffer, pool: _ } = self;
        buffer
    }

    /// Overwrites the buffer with zeros and gives it up at once. It does not
    /// come back to the pool.
    pub fn drop_now(self) {
        let PooledBuffer { buffer, pool: _ } = self;
        buffer.burn_free();
    }

    /// The capacity of the buffer.
    pub fn capacity(&self) -> (n: usize)
        ensures
            n == self@.capacity(),
    {
        self.buffer.capacity()
    }
}

impl std::ops::Deref for PooledBuffer {
    type Target = Buffer;

    fn deref(&self) -> (b: &Buffer)
        ensures
            b@ == self@,
    {
        &self.buffer
    }
}

impl std::ops::DerefMut for PooledBuffer {
    fn deref_mut(&mut self) -> (b: &mut Buffer)
        ensures
            b@ == old(self)@,
            final(self)@ == final(b)@,
            final(self).config() == old(self).config(),
    {
        &mut self.buffer
    }
}

} // verus!
