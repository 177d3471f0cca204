//! Pools that recycle linear buffers.
//!
//! A pool keeps idle buffers and hands them out again instead of allocating.
//! Whatever way a buffer comes back, it is overwritten with zeros before it
//! becomes reachable for the next user.

pub mod cache;
pub mod config;
mod counter;
pub mod fast;
pub mod laws;
mod queue;
pub mod standard;
pub mod stats;

pub use cache::ThreadCache;
pub use config::PoolConfig;
pub use fast::FastBufferPool;
pub use fast::FastPooledBuffer;
pub use standard::BufferPool;
pub use standard::PoolInner;
pub use standard::PooledBuffer;
pub use stats::FastPoolStats;
pub use stats::PoolStats;
