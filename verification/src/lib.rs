//! Byte buffers for length-prefixed network protocols.
//!
//! The crate offers a linear [`Buffer`] with a read/write cursor, a
//! [`CircularBuffer`] for streaming data, and two pools that recycle linear
//! buffers. Every buffer is overwritten with zeros before it can reach another
//! user, and again when it is dropped.
//!
//! All operations carry machine-checked contracts: each states, over a
//! mathematical view of the buffer, which inputs succeed, which error is
//! returned otherwise, and what the buffer holds afterwards.

pub mod buffer;
pub mod circular;
pub mod connection;
pub mod erase;
pub mod error;
pub mod pool;
pub mod span;
pub mod wire;

pub use buffer::Buffer;
pub use circular::CircularBuffer;
pub use connection::ConnectionBufferConfig;
pub use connection::ConnectionBuffers;
pub use connection::PooledConnectionBuffers;
pub use error::BufferError;
pub use error::ResultExt;
pub use pool::BufferPool;
pub use pool::FastBufferPool;
pub use pool::FastPoolStats;
pub use pool::FastPooledBuffer;
pub use pool::PoolConfig;
pub use pool::PoolStats;
pub use pool::PooledBuffer;
pub use pool::ThreadCache;
