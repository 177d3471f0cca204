use secbuf::pool::BufferPool;
use secbuf::pool::FastBufferPool;
use secbuf::pool::FastPooledBuffer;
use secbuf::pool::PooledBuffer;
use secbuf::pool::ThreadCache;
use secbuf::Buffer;
use secbuf::CircularBuffer;

fn shareable<T: Send + Sync>() {}

fn movable<T: Send>() {}

#[test]
fn pools_can_be_shared_between_threads() {
    shareable::<BufferPool>();
    shareable::<FastBufferPool>();
    movable::<PooledBuffer>();
    movable::<FastPooledBuffer>();
    movable::<ThreadCache>();
    movable::<Buffer>();
    movable::<CircularBuffer>();
}
