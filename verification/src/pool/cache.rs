//! A thread's own stash of idle buffers.

use crate::buffer::Buffer;
use crate::buffer::BufferView;
use vstd::prelude::*;

verus! {

/// The largest number of buffers in a [`ThreadCache`].
pub const THREAD_CACHE_CAPACITY: usize = 16;

/// Idle buffers that belong to one thread, which alone uses them: no lock is
/// needed. A cache holds at most [`THREAD_CACHE_CAPACITY`] buffers, all of
/// them clean. A thread passes its cache to the operations of a
/// [`FastBufferPool`](super::FastBufferPool); buffers still in a cache when it
/// is dropped are overwritten with zeros like every buffer and released.
pub struct ThreadCache {
    buffers: Vec<Buffer>,
}

impl View for ThreadCache {
    type V = Seq<BufferView>;

    closed spec fn view(&self) -> Seq<BufferView> {
        self.buffers@.map_values(|b: Buffer| b@)
    }
}

/// The invariant of every cache.
pub open spec fn cache_wf(c: Seq<BufferView>) -> bool {
    &&& c.len() <= THREAD_CACHE_CAPACITY
    &&& forall|i: int| 0 <= i < c.len() ==> (#[trigger] c[i]).is_clean()
}

impl ThreadCache {
    #[verifier::type_invariant]
    spec fn inv(self) -> bool {
        cache_wf(self@)
    }

    /// An empty cache.
    pub fn new() -> (c: ThreadCache)
        ensures
            c@ == Seq::<BufferView>::empty(),
    {
        let c = ThreadCache { buffers: Vec::new() };
        assert(c@ =~= Seq::<BufferView>::empty());
        c
    }

    /// The number of buffers in the cache.
    pub fn len(&self) -> (n: usize)
        ensures
            n == self@.len(),
            n <= THREAD_CACHE_CAPACITY,
    {
        proof {
            use_type_invariant(self);
        }
        self.buffers.len()
    }

    /// Whether the cache holds no buffer.
    pub fn is_empty(&self) -> (b: bool)
        ensures
            b == (self@.len() == 0),
    {
        self.buffers.len() == 0
    }

    /// Takes the buffer that was stored last, if there is one. It is clean.
    pub fn take(&mut self) -> (b: Option<Buffer>)
        ensures
            match b {
                Some(buffer) => old(self)@.len() > 0 && buffer@ == old(self)@.last()
                    && buffer@.is_clean() && final(self)@ == old(self)@.drop_last(),
                None => old(self)@.len() == 0 && final(self)@ == old(self)@,
            },
            cache_wf(final(self)@),
    {
        proof {
            use_type_invariant(&*self);
        }
        let mut buffers: Vec<Buffer> = Vec::new();
        core::mem::swap(&mut self.buffers, &mut buffers);
        assert(self.buffers@.map_values(|b: Buffer| b@) =~= Seq::<BufferView>::empty());
        let popped = buffers.pop();
        proof {
            assert(buffers@.map_values(|b: Buffer| b@) =~= if old(self)@.len() > 0 {
                old(self)@.drop_last()
            } else {
                old(self)@
            });
            if old(self)@.len() > 0 {
                assert(popped->0@ == old(self)@.last());
            }
        }
        core::mem::swap(&mut self.buffers, &mut buffers);
        popped
    }

    /// Stores `buffer`, after overwriting it with zeros, if the cache has
    /// room; hands it back, overwritten too, if the cache is full.
    pub fn store(&mut self, buffer: Buffer) -> (back: Option<Buffer>)
        ensures
            match back {
                Some(b) => old(self)@.len() >= THREAD_CACHE_CAPACITY && b@ == BufferView::fresh(
                    buffer@.capacity(),
                ) && final(self)@ == old(self)@,
                None => old(self)@.len() < THREAD_CACHE_CAPACITY && final(self)@ == old(self)@.push(BufferView::fresh(buffer@.capacity())),
            },
            cache_wf(final(self)@),
    {
        proof {
            use_type_invariant(&*self);
        }
        let mut buffer = buffer;
        buffer.burn();
        if self.buffers.len() >= THREAD_CACHE_CAPACITY {
            return Some(buffer);
        }
        let mut buffers: Vec<Buffer> = Vec::new();
        core::mem::swap(&mut self.buffers, &mut buffers);
        assert(self.buffers@.map_values(|b: Buffer| b@) =~= Seq::<BufferView>::empty());
        buffers.push(buffer);
        proof {
            assert(buffers@.map_values(|b: Buffer| b@) =~= old(self)@.push(
                BufferView::fresh(buffer@.capacity()),
            ));
        }
        core::mem::swap(&mut self.buffers, &mut buffers);
        None
    }
}

impl Default for ThreadCache {
    /// An empty cache.
    fn default() -> (c: ThreadCache)
        ensures
            c@ == Seq::<BufferView>::empty(),
    {
        ThreadCache::new()
    }
}

} // verus!
