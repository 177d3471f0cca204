//! The configuration of a pool.

use vstd::prelude::*;

verus! {

/// What a pool is made with.
#[derive(Debug, Clone, Copy)]
pub struct PoolConfig {
    /// The size in bytes of each buffer that the pool allocates.
    pub buffer_size: usize,
    /// The largest number of idle buffers that the pool takes back.
    pub max_pool_size: usize,
    /// The number of buffers that the pool allocates when it is made.
    pub min_pool_size: usize,
}

impl PoolConfig {
    /// For small systems: buffers of 1 KB, up to 20 idle, 5 at the start.
    pub fn small() -> (c: PoolConfig)
        ensures
            c == (PoolConfig { buffer_size: 1024, max_pool_size: 20, min_pool_size: 5 }),
    {
        PoolConfig { buffer_size: 1024, max_pool_size: 20, min_pool_size: 5 }
    }

    /// For servers with high throughput: buffers of 64 KB, up to 1000 idle, 50
    /// at the start.
    pub fn large() -> (c: PoolConfig)
        ensures
            c == (PoolConfig { buffer_size: 65536, max_pool_size: 1000, min_pool_size: 50 }),
    {
        PoolConfig { buffer_size: 65536, max_pool_size: 1000, min_pool_size: 50 }
    }

    /// For network packets: buffers of 1500 bytes, up to 500 idle, 20 at the
    /// start.
    pub fn network() -> (c: PoolConfig)
        ensures
            c == (PoolConfig { buffer_size: 1500, max_pool_size: 500, min_pool_size: 20 }),
    {
        PoolConfig { buffer_size: 1500, max_pool_size: 500, min_pool_size: 20 }
    }
}

impl Default for PoolConfig {
    /// For general use: buffers of 8 KB, up to 100 idle, 10 at the start.
    fn default() -> (c: PoolConfig)
        ensures
            c == (PoolConfig { buffer_size: 8192, max_pool_size: 100, min_pool_size: 10 }),
    {
        PoolConfig { buffer_size: 8192, max_pool_size: 100, min_pool_size: 10 }
    }
}

} // verus!
