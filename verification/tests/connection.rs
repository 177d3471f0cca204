use secbuf::connection::QueueFullError;
use secbuf::pool::BufferPool;
use secbuf::pool::PoolConfig;
use secbuf::Buffer;
use secbuf::ConnectionBufferConfig;
use secbuf::ConnectionBuffers;
use secbuf::PooledConnectionBuffers;
use std::sync::Arc;

fn config(idle_timeout_secs: u64, enable_aggressive_shrinking: bool) -> ConnectionBufferConfig {
    ConnectionBufferConfig {
        idle_timeout_secs,
        enable_aggressive_shrinking,
        ..Default::default()
    }
}

#[test]
fn test_idle_detection() {
    let mut conn = ConnectionBuffers::new();
    conn.init_read_buf(1024);

    assert!(!conn.is_idle());

    assert!(conn.idle_after(120, 0));
}

#[test]
fn test_periodic_cleanup() {
    let mut conn = ConnectionBuffers::with_config(config(0, true));

    conn.init_read_buf(65536);
    if let Some(ref mut buf) = conn.read_buf {
        buf.put_bytes(b"small").unwrap();
    }

    conn.periodic_cleanup_after(1, 0);

    if let Some(ref buf) = conn.read_buf {
        assert!(buf.capacity() < 65536);
        assert_eq!(buf.capacity(), 4096);
    }
}

#[test]
fn connection_test_memory_stats() {
    let mut conn = ConnectionBuffers::new();
    conn.init_read_buf(1024);
    conn.init_write_buf(2048);

    let stats = conn.memory_usage();
    assert_eq!(stats.read_buf_bytes, 1024);
    assert_eq!(stats.write_buf_bytes, 2048);
    let efficiency = stats.total_used as f64 / stats.total_bytes as f64;
    assert!(efficiency < 1.0);
    assert_eq!((stats.total_bytes, stats.total_used, stats.total_wasted), (3072, 0, 3072));
    assert!(stats.is_problematic());
}

#[test]
fn test_aggressive_cleanup() {
    let mut conn = ConnectionBuffers::new();
    conn.init_read_buf(1024);
    conn.add_stream_buf(512);

    conn.aggressive_cleanup();

    assert!(conn.read_buf.is_none());
    assert_eq!(conn.stream_bufs.len(), 0);
}

#[test]
fn the_clock_decides_the_periodic_cleanup() {
    let mut conn = ConnectionBuffers::with_config(config(0, true));
    conn.init_write_buf(65536);
    while conn.idle_duration().as_nanos() == 0 {}
    assert!(conn.is_idle());
    conn.periodic_cleanup();
    assert_eq!(conn.write_buf.as_ref().unwrap().capacity(), 4096);
    assert_eq!(conn.diagnostics().cleanup_counter, 1);
}

#[test]
fn idle_is_judged_to_the_nanosecond() {
    let conn = ConnectionBuffers::with_config(config(30, true));
    assert!(!conn.idle_after(29, 999_999_999));
    assert!(!conn.idle_after(30, 0));
    assert!(conn.idle_after(30, 1));
    assert!(conn.idle_after(31, 0));
}

#[test]
fn periodic_cleanup_leaves_busy_connections_alone() {
    let mut busy = ConnectionBuffers::with_config(config(60, true));
    busy.init_read_buf(65536);
    busy.periodic_cleanup_after(60, 0);
    assert_eq!(busy.read_buf.as_ref().unwrap().capacity(), 65536);

    let mut off = ConnectionBuffers::with_config(config(0, false));
    off.init_read_buf(65536);
    off.periodic_cleanup_after(1000, 0);
    assert_eq!(off.read_buf.as_ref().unwrap().capacity(), 65536);
    assert_eq!(off.diagnostics().cleanup_counter, 1);

    let mut idle = ConnectionBuffers::with_config(config(0, true));
    idle.init_read_buf(4096);
    idle.add_stream_buf(64);
    idle.add_stream_buf(64);
    idle.stream_bufs[0].write(b"ab").unwrap();
    idle.stream_bufs[1].write(b"ab").unwrap();
    idle.stream_bufs[1].incr_read(2).unwrap();
    idle.periodic_cleanup_after(0, 1);
    assert_eq!(idle.read_buf.as_ref().unwrap().capacity(), 4096);
    assert!(idle.stream_bufs[0].is_allocated());
    assert!(!idle.stream_bufs[1].is_allocated());
}

#[test]
fn the_queue_keeps_its_limits() {
    let mut conn = ConnectionBuffers::with_config(ConnectionBufferConfig {
        max_packet_queue_size: 2,
        max_packet_queue_bytes: 10,
        idle_timeout_secs: 60,
        enable_aggressive_shrinking: true,
    });
    assert!(conn.dequeue_packet().is_none());
    let packet = |n: usize| {
        let mut b = Buffer::new(16);
        b.put_bytes(&vec![7u8; n]).unwrap();
        b
    };
    assert_eq!(conn.queue_packet(packet(11)), Err(QueueFullError::TooManyBytes));
    assert_eq!(conn.queue_packet(packet(6)), Ok(()));
    assert!(!conn.is_queue_near_full());
    assert_eq!(conn.queue_packet(packet(5)), Err(QueueFullError::TooManyBytes));
    assert_eq!(conn.queue_packet(packet(4)), Ok(()));
    assert!(conn.is_queue_near_full());
    assert_eq!(conn.queue_packet(packet(0)), Err(QueueFullError::TooManyPackets));
    assert_eq!((conn.packet_queue_len(), conn.packet_queue_bytes()), (2, 10));
    let first = conn.dequeue_packet().unwrap();
    assert_eq!(first.len(), 6);
    assert_eq!((conn.packet_queue_len(), conn.packet_queue_bytes()), (1, 4));
    assert_eq!(QueueFullError::TooManyPackets.message(), "Packet queue full (too many packets)");
    assert_eq!(QueueFullError::TooManyBytes.message(), "Packet queue full (too many bytes)");
}

#[test]
fn reset_burn_and_force_shrink() {
    let mut conn = ConnectionBuffers::default();
    conn.init_read_buf(65536);
    conn.init_write_buf(64);
    conn.add_stream_buf(32);
    conn.read_buf.as_mut().unwrap().put_bytes(b"abc").unwrap();
    conn.write_buf.as_mut().unwrap().put_bytes(b"abc").unwrap();
    conn.stream_bufs[0].write(b"xyz").unwrap();
    conn.queue_packet(Buffer::from_vec(vec![1, 2, 3])).unwrap();

    let stats = conn.memory_usage_after(5, 0);
    assert_eq!(stats.stream_buf_bytes, 32);
    assert_eq!(stats.packet_queue_bytes, 3);
    assert_eq!(stats.total_bytes, 65536 + 64 + 32 + 3);
    assert_eq!(stats.total_used, 3 + 3 + 3 + 3);
    assert_eq!((stats.is_idle, stats.idle_seconds), (false, 5));

    conn.reset();
    assert_eq!(conn.packet_queue_len(), 0);
    assert_eq!(conn.read_buf.as_ref().unwrap().len(), 0);
    assert!(conn.stream_bufs[0].is_allocated() && conn.stream_bufs[0].is_empty());

    conn.force_shrink();
    assert_eq!(conn.read_buf.as_ref().unwrap().capacity(), 4096);
    assert_eq!(conn.write_buf.as_ref().unwrap().capacity(), 64);
    assert!(!conn.stream_bufs[0].is_allocated());

    conn.write_buf.as_mut().unwrap().put_bytes(b"secret").unwrap();
    conn.burn();
    let w = conn.write_buf.as_mut().unwrap();
    assert_eq!((w.len(), w.capacity()), (0, 64));
    w.set_len(6).unwrap();
    assert_eq!(w.as_slice(), &[0; 6]);

    let d = conn.diagnostics();
    assert_eq!(d.stream_buf_count, 1);
    assert_eq!(d.read_buf_info.unwrap().capacity, 4096);
    assert_eq!(d.write_buf_info.unwrap().overhead, 58);
    assert!(d.packet_queue_cap >= d.packet_queue_len);
}

#[test]
fn pooled_connection_buffers() {
    let pool = Arc::new(BufferPool::new(PoolConfig::default()));
    let mut conn = PooledConnectionBuffers::new(Arc::clone(&pool));
    conn.buffers().init_read_buf(8192);
    conn.buffers().init_write_buf(4096);
    assert_eq!(conn.buffers().packet_queue_len(), 0);
    conn.release_to_pool();
    assert!(conn.buffers().read_buf.is_none());
    let mut other = PooledConnectionBuffers::with_config(pool, config(1, false));
    assert!(other.buffers().idle_after(1, 1));
}

#[test]
fn problematic_connections() {
    let mut conn = ConnectionBuffers::new();
    assert!(!conn.memory_usage_after(0, 0).is_problematic());
    conn.init_read_buf(10);
    conn.read_buf.as_mut().unwrap().put_bytes(&[1; 5]).unwrap();
    assert!(!conn.memory_usage_after(0, 0).is_problematic());
    conn.read_buf.as_mut().unwrap().set_len(4).unwrap();
    assert!(conn.memory_usage_after(0, 0).is_problematic());
    conn.init_read_buf(4_000_000);
    conn.read_buf.as_mut().unwrap().set_len(2_500_000).unwrap();
    assert!(!conn.memory_usage_after(60, 0).is_problematic());
    assert!(conn.memory_usage_after(61, 0).is_problematic());
}
