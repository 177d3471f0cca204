use secbuf::pool::PoolInner;
use secbuf::pool::PoolConfig;
use secbuf::pool::BufferPool;
use secbuf::Buffer;

#[test]
fn test_pool_basic() {
    let pool = BufferPool::new(PoolConfig {
        buffer_size: 1024,
        max_pool_size: 10,
        min_pool_size: 2,
    });
    assert_eq!(pool.available(), 2);
    let _buf = pool.acquire();
    assert_eq!(pool.stats().total_acquired, 1);
}

#[test]
fn standard_test_returned_buffer_is_clean() {
    let pool = BufferPool::new(PoolConfig {
        buffer_size: 64,
        max_pool_size: 2,
        min_pool_size: 0,
    });

    {
        let mut buf = pool.acquire();
        buf.put_bytes(&[0xFF; 16]).unwrap();
        buf.release();
    }

    let mut buf2 = pool.acquire();
    buf2.set_len(16).unwrap();
    assert_eq!(&buf2.as_slice()[..16], &[0u8; 16]);
    assert_eq!(pool.stats().total_allocated, 1);
}

#[test]
fn standard_test_drop_now() {
    let pool = BufferPool::new(PoolConfig {
        buffer_size: 1024,
        max_pool_size: 10,
        min_pool_size: 2,
    });
    let initial_available = pool.available();
    {
        let mut buf = pool.acquire();
        buf.put_u32(12345).unwrap();
        buf.drop_now();
    }
    assert_eq!(pool.available(), initial_available - 1);
}

#[test]
fn standard_test_leak() {
    let pool = BufferPool::new(PoolConfig {
        buffer_size: 1024,
        max_pool_size: 10,
        min_pool_size: 2,
    });
    let pooled = pool.acquire();
    let _owned = pooled.leak();
    assert_eq!(pool.stats().total_acquired, 1);
}

#[test]
fn test_normal_return() {
    let pool = BufferPool::new(PoolConfig {
        buffer_size: 1024,
        max_pool_size: 10,
        min_pool_size: 2,
    });
    let initial = pool.available();
    {
        let buf = pool.acquire();
        buf.release();
    }
    assert_eq!(pool.available(), initial);
}

#[test]
fn test_grow_shrink() {
    let pool = BufferPool::new(PoolConfig {
        buffer_size: 64,
        max_pool_size: 20,
        min_pool_size: 0,
    });
    pool.grow(10);
    assert_eq!(pool.available(), 10);
    pool.shrink();
    assert_eq!(pool.available(), 0);
}

#[test]
fn a_dropped_guard_does_not_come_back() {
    let pool = BufferPool::new(PoolConfig { buffer_size: 32, max_pool_size: 4, min_pool_size: 1 });
    {
        let _guard = pool.acquire();
    }
    let stats = pool.stats();
    assert_eq!((stats.available, stats.total_acquired, stats.total_returned), (0, 1, 0));
    assert_eq!(stats.in_use(), 1);
}

#[test]
fn idle_buffers_never_exceed_the_maximum() {
    let pool = BufferPool::new(PoolConfig { buffer_size: 16, max_pool_size: 2, min_pool_size: 0 });
    let a = pool.acquire();
    let b = pool.acquire();
    let c = pool.acquire();
    a.release();
    b.release();
    c.release();
    let stats = pool.stats();
    assert_eq!(stats.available, 2);
    assert_eq!((stats.total_acquired, stats.total_returned, stats.total_allocated), (3, 3, 3));
    assert_eq!(stats.in_use(), 0);
    assert_eq!(stats.reused(), 0);
    pool.grow(100);
    assert_eq!(pool.available(), 2);
    pool.clear();
    assert_eq!(pool.available(), 0);
}

#[test]
fn the_state_of_one_owner_steps_exactly() {
    let mut state = PoolInner::new(PoolConfig { buffer_size: 8, max_pool_size: 2, min_pool_size: 3 });
    assert_eq!(state.available(), 3);
    let mut loan = state.acquire();
    assert_eq!((state.available(), loan.capacity()), (2, 8));
    loan.put_bytes(&[1; 8]).unwrap();
    state.release(loan);
    assert_eq!(state.available(), 2);
    state.shrink();
    assert_eq!(state.available(), 2);
    state.clear();
    let fresh = state.acquire();
    let stats = state.stats();
    assert_eq!((stats.total_acquired, stats.total_allocated, stats.total_returned), (2, 1, 1));
    assert_eq!((stats.buffer_size, stats.max_pool_size), (8, 2));
    state.release(Buffer::from_vec(vec![5; 4]));
    let mut back = state.acquire();
    assert_eq!(back.capacity(), 4);
    back.set_len(4).unwrap();
    assert_eq!(back.as_slice(), &[0; 4]);
    drop(fresh);
    state.grow(1);
    assert_eq!(state.available(), 1);
    assert_eq!(state.config().min_pool_size, 3);
}

#[test]
fn presets() {
    let d = PoolConfig::default();
    assert_eq!((d.buffer_size, d.max_pool_size, d.min_pool_size), (8192, 100, 10));
    let s = PoolConfig::small();
    assert_eq!((s.buffer_size, s.max_pool_size, s.min_pool_size), (1024, 20, 5));
    let l = PoolConfig::large();
    assert_eq!((l.buffer_size, l.max_pool_size, l.min_pool_size), (65536, 1000, 50));
    let n = PoolConfig::network();
    assert_eq!((n.buffer_size, n.max_pool_size, n.min_pool_size), (1500, 500, 20));
    assert_eq!(BufferPool::default().available(), 10);
}
