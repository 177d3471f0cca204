//! What holds of every pool.
//!
//! The laws speak of views of the pool's state. Each operation of
//! [`PoolInner`](super::PoolInner) states in its contract which view it leaves
//! behind, and [`BufferPool`](super::BufferPool) makes just these steps under
//! its lock, so what is proved here holds of every run of the operations.

use super::standard::PoolView;
use super::PoolConfig;
use crate::buffer::BufferView;
use crate::buffer::BUF_MAX_SIZE;
use vstd::prelude::*;

verus! {

/// One step of a pool.
pub enum PoolOp {
    /// A buffer is handed out.
    Acquire,
    /// A buffer of so many bytes comes back.
    Release(nat),
    /// The idle buffers beyond `min_pool_size` are given up.
    Shrink,
    /// All idle buffers are given up.
    Clear,
    /// The idle list grows towards so many buffers.
    Grow(nat),
}

impl PoolView {
    /// The view after one step.
    pub open spec fn after(self, op: PoolOp) -> PoolView {
        match op {
            PoolOp::Acquire => self.after_acquire(),
            PoolOp::Release(capacity) => self.after_release(capacity),
            PoolOp::Shrink => self.after_shrink(),
            PoolOp::Clear => self.after_clear(),
            PoolOp::Grow(target) => self.after_grow(target),
        }
    }

    /// The view after the steps of `ops`, one after the other.
    pub open spec fn after_all(self, ops: Seq<PoolOp>) -> PoolView
        decreases ops.len(),
    {
        if ops.len() == 0 {
            self
        } else {
            self.after(ops[0]).after_all(ops.drop_first())
        }
    }

    /// Every step keeps the invariant and the configuration, and a pool with
    /// at most `max_pool_size` idle buffers stays so.
    pub proof fn lemma_step(self, op: PoolOp)
        requires
            self.wf(),
        ensures
            self.after(op).wf(),
            self.after(op).config == self.config,
            self.idle.len() <= self.config.max_pool_size ==> self.after(op).idle.len()
                <= self.config.max_pool_size,
    {
    }

    /// No data leakage: whatever a buffer held when it came back, the buffer
    /// that is handed out next is clean, so every byte that its user can
    /// expose is zero.
    pub proof fn lemma_next_out_is_clean(self, capacity: nat)
        requires
            self.wf(),
        ensures
            self.next_out().is_clean(),
            self.after_release(capacity).next_out().is_clean(),
            self.idle.len() < self.config.max_pool_size ==> self.after_release(
                capacity,
            ).next_out() == BufferView::fresh(capacity),
    {
        self.lemma_step(PoolOp::Release(capacity));
    }
}

/// The number of buffers that `ops` hand out and do not take back.
pub open spec fn outstanding(ops: Seq<PoolOp>) -> int
    decreases ops.len(),
{
    if ops.len() == 0 {
        0
    } else {
        (match ops[0] {
            PoolOp::Acquire => 1int,
            PoolOp::Release(_) => -1int,
            _ => 0int,
        }) + outstanding(ops.drop_first())
    }
}

/// A pool as it is made satisfies the invariant, and holds at most
/// `max_pool_size` idle buffers where `min_pool_size` is not above it.
pub proof fn lemma_initial(config: PoolConfig)
    requires
        config.buffer_size <= BUF_MAX_SIZE,
    ensures
        PoolView::initial(config).wf(),
        config.min_pool_size <= config.max_pool_size ==> PoolView::initial(config).idle.len()
            <= config.max_pool_size,
{
}

/// Capacity bound: a pool that holds at most `max_pool_size` idle buffers
/// holds at most so many after any sequence of steps.
pub proof fn lemma_idle_bound(v: PoolView, ops: Seq<PoolOp>)
    requires
        v.wf(),
        v.idle.len() <= v.config.max_pool_size,
    ensures
        v.after_all(ops).wf(),
        v.after_all(ops).config == v.config,
        v.after_all(ops).idle.len() <= v.config.max_pool_size,
    decreases ops.len(),
{
    if ops.len() > 0 {
        v.lemma_step(ops[0]);
        lemma_idle_bound(v.after(ops[0]), ops.drop_first());
    }
}

/// Accounting: after any sequence of steps, as long as the counters have not
/// reached the largest number they can hold, the buffers handed out are the
/// buffers that came back and the buffers that are still out.
pub proof fn lemma_accounting(v: PoolView, ops: Seq<PoolOp>)
    requires
        v.wf(),
        v.total_acquired + ops.len() <= usize::MAX,
        v.total_returned + ops.len() <= usize::MAX,
    ensures
        v.after_all(ops).total_acquired - v.after_all(ops).total_returned == v.total_acquired
            - v.total_returned + outstanding(ops),
        v.after_all(ops).total_acquired <= v.total_acquired + ops.len(),
        v.after_all(ops).total_returned <= v.total_returned + ops.len(),
    decreases ops.len(),
{
    if ops.len() > 0 {
        v.lemma_step(ops[0]);
        lemma_accounting(v.after(ops[0]), ops.drop_first());
    }
}

/// Accounting from the start: in a pool that was made and then used for fewer
/// steps than a counter can count, `total_acquired` is `total_returned` plus
/// the number of buffers that are still out.
pub proof fn lemma_accounting_from_start(config: PoolConfig, ops: Seq<PoolOp>)
    requires
        config.buffer_size <= BUF_MAX_SIZE,
        ops.len() <= usize::MAX,
    ensures
        PoolView::initial(config).after_all(ops).total_acquired == PoolView::initial(
            config,
        ).after_all(ops).total_returned + outstanding(ops),
{
    lemma_initial(config);
    lemma_accounting(PoolView::initial(config), ops);
}

} // verus!
