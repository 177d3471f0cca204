use secbuf::pool::cache::THREAD_CACHE_CAPACITY;
use secbuf::pool::fast::shared_or_fresh;
use secbuf::pool::fast::shared_takes;
use secbuf::pool::fast::warm_need;
use secbuf::pool::FastBufferPool;
use secbuf::pool::PoolConfig;
use secbuf::pool::ThreadCache;

#[test]
fn test_fast_pool_basic() {
    let mut cache = ThreadCache::new();
    let pool = FastBufferPool::new(PoolConfig {
        buffer_size: 1024,
        max_pool_size: 10,
        min_pool_size: 2,
    });
    let _buf = pool.acquire(&mut cache);
    assert_eq!(pool.stats().acquired, 1);
}

#[test]
fn fast_test_returned_buffer_is_clean() {
    let mut cache = ThreadCache::new();
    let pool = FastBufferPool::new(PoolConfig {
        buffer_size: 64,
        max_pool_size: 4,
        min_pool_size: 0,
    });

    {
        let mut buf = pool.acquire(&mut cache);
        buf.put_bytes(&[0xAA; 32]).unwrap();
        buf.release(&mut cache);
    }

    pool.clear_thread_cache(&mut cache);

    let mut buf2 = pool.acquire(&mut cache);
    buf2.set_len(32).unwrap();
    assert_eq!(&buf2.as_slice()[..32], &[0u8; 32]);
}

#[test]
fn test_buffer_return_to_cache() {
    let mut cache = ThreadCache::new();
    let pool = FastBufferPool::new(PoolConfig {
        buffer_size: 1024,
        max_pool_size: 100,
        min_pool_size: 10,
    });
    {
        let buf = pool.acquire(&mut cache);
        buf.release(&mut cache);
    }
    assert_eq!(pool.stats().returned, 1);
    assert_eq!(cache.len(), 1);
}

#[test]
fn fast_test_drop_now() {
    let mut cache = ThreadCache::new();
    let pool = FastBufferPool::new(PoolConfig {
        buffer_size: 1024,
        max_pool_size: 10,
        min_pool_size: 2,
    });
    let mut buf = pool.acquire(&mut cache);
    buf.put_u32(12345).unwrap();
    buf.drop_now();
    assert_eq!(pool.stats().acquired, 1);
}

#[test]
fn fast_test_leak() {
    let mut cache = ThreadCache::new();
    let pool = FastBufferPool::new(PoolConfig {
        buffer_size: 1024,
        max_pool_size: 10,
        min_pool_size: 2,
    });
    let pooled = pool.acquire(&mut cache);
    let _owned = pooled.leak();
    assert_eq!(pool.stats().acquired, 1);
}

#[test]
fn test_warm() {
    let pool = FastBufferPool::new(PoolConfig {
        buffer_size: 512,
        max_pool_size: 20,
        min_pool_size: 0,
    });
    pool.warm(10);
    assert!(pool.available() <= 10);
    assert_eq!(pool.available(), 10);
    pool.warm(100);
    assert_eq!(pool.available(), 20);
}

#[test]
fn test_clear_thread_cache() {
    let mut cache = ThreadCache::new();
    let pool = FastBufferPool::new(PoolConfig {
        buffer_size: 128,
        max_pool_size: 20,
        min_pool_size: 0,
    });
    for _ in 0..5 {
        let b = pool.acquire(&mut cache);
        b.release(&mut cache);
    }
    pool.clear_thread_cache(&mut cache);
    assert!(pool.available() > 0);
    assert!(cache.is_empty());
}

#[test]
fn test_fast_pool() {
    let mut cache = ThreadCache::new();
    let pool = FastBufferPool::new(PoolConfig {
        buffer_size: 1024,
        max_pool_size: 100,
        min_pool_size: 10,
    });

    let mut buffers = Vec::new();
    for i in 0..50 {
        let mut buf = pool.acquire(&mut cache);
        buf.put_u32(i).unwrap();
        buffers.push(buf);
    }

    for buf in buffers {
        buf.release(&mut cache);
    }

    let stats = pool.stats();
    assert!(stats.acquired >= 50);
    assert_eq!(stats.returned, 50);
    assert_eq!(stats.allocated, 40);
    assert_eq!(stats.in_use(), 0);
    assert_eq!(stats.reused(), 10);
    assert_eq!(cache.len(), THREAD_CACHE_CAPACITY);
    assert_eq!(pool.available(), 34);
}

#[test]
fn the_cascade_tries_the_cache_first() {
    let mut cache = ThreadCache::new();
    let pool = FastBufferPool::new(PoolConfig { buffer_size: 8, max_pool_size: 4, min_pool_size: 1 });
    let mut a = pool.acquire(&mut cache);
    assert_eq!((pool.available(), pool.stats().allocated, pool.stats().cache_hits), (0, 0, 0));
    let b = pool.acquire(&mut cache);
    assert_eq!(pool.stats().allocated, 1);
    a.resize(12).unwrap();
    a.put_bytes(&[0xEE; 12]).unwrap();
    a.release(&mut cache);
    b.release(&mut cache);
    assert_eq!(cache.len(), 2);
    let b2 = pool.acquire(&mut cache);
    assert_eq!(b2.capacity(), 8);
    let mut a2 = pool.acquire(&mut cache);
    assert_eq!(a2.capacity(), 12);
    a2.set_len(12).unwrap();
    assert_eq!(a2.as_slice(), &[0u8; 12]);
    assert_eq!((pool.stats().cache_hits, pool.stats().acquired), (2, 4));
    a2.release_shared();
    assert_eq!((pool.available(), cache.len()), (1, 0));
    let mut again = pool.acquire(&mut cache);
    again.set_len(12).unwrap();
    assert_eq!(again.as_slice(), &[0u8; 12]);
    assert_eq!(pool.stats().returned, 3);
    drop(b2);
}

#[test]
fn a_full_cache_sends_buffers_to_the_shared_collection() {
    let mut cache = ThreadCache::new();
    let pool = FastBufferPool::new(PoolConfig { buffer_size: 4, max_pool_size: 2, min_pool_size: 0 });
    let mut loans = Vec::new();
    for _ in 0..20 {
        loans.push(pool.acquire(&mut cache));
    }
    for loan in loans {
        loan.release(&mut cache);
    }
    assert_eq!(cache.len(), 16);
    assert_eq!(pool.available(), 2);
    assert_eq!(pool.stats().thread_local_lost, 0);
    assert_eq!(pool.stats().leaked_bytes(4), 0);
    assert!(!pool.stats().has_leak_concern());
    pool.clear();
    assert_eq!(pool.available(), 0);
    pool.clear_thread_cache(&mut cache);
    assert_eq!((cache.len(), pool.available()), (0, 2));
    assert_eq!(FastBufferPool::default().available(), 10);
}

#[test]
fn a_cache_keeps_clean_buffers_only() {
    let mut cache = ThreadCache::default();
    assert!(cache.take().is_none());
    let mut dirty = secbuf::Buffer::new(4);
    dirty.put_bytes(&[1, 2, 3, 4]).unwrap();
    assert!(cache.store(dirty).is_none());
    let mut back = cache.take().unwrap();
    assert_eq!((back.pos(), back.len(), back.capacity()), (0, 0, 4));
    back.set_len(4).unwrap();
    assert_eq!(back.as_slice(), &[0; 4]);
    for _ in 0..16 {
        assert!(cache.store(secbuf::Buffer::new(1)).is_none());
    }
    assert!(cache.store(secbuf::Buffer::new(1)).is_some());
    assert_eq!(cache.len(), 16);
}

#[test]
fn the_cascade_decides_for_every_outcome() {
    let mut used = secbuf::Buffer::new(6);
    used.put_bytes(&[9; 6]).unwrap();
    let (mut from_shared, fresh) = shared_or_fresh(Some(used), 32);
    assert!(!fresh);
    assert_eq!((from_shared.capacity(), from_shared.len(), from_shared.pos()), (6, 0, 0));
    from_shared.set_len(6).unwrap();
    assert_eq!(from_shared.as_slice(), &[0; 6]);
    let (allocated, fresh) = shared_or_fresh(None, 32);
    assert!(fresh);
    assert_eq!(allocated.capacity(), 32);

    assert!(shared_takes(3, 4));
    assert!(!shared_takes(4, 4));
    assert!(!shared_takes(0, 0));

    assert_eq!(warm_need(0, 10, 20), 10);
    assert_eq!(warm_need(4, 10, 20), 6);
    assert_eq!(warm_need(10, 10, 20), 0);
    assert_eq!(warm_need(12, 10, 20), 0);
    assert_eq!(warm_need(5, 100, 20), 15);
    assert_eq!(warm_need(25, 100, 20), 0);
}
