//! The buffers of one connection: a read buffer, a write buffer, stream
//! buffers and a queue of packets with a cap on their number and their bytes.
//!
//! A connection remembers when it was last used. Buffers that have grown
//! large are cut down when it has been idle for longer than its timeout.

use crate::buffer::Buffer;
use crate::buffer::BufferView;
use crate::buffer::BUF_MAX_SIZE;
use crate::circular::CircularBuffer;
use crate::circular::RingView;
use crate::circular::MAX_CBUF_SIZE;
use crate::pool::BufferPool;
use crate::span::release_spare;
use std::collections::VecDeque;
use std::sync::Arc;
use std::time::Duration;
use std::time::Instant;
use vstd::prelude::*;

verus! {

/// The capacity that a wasteful read or write buffer is cut down to.
pub const TRIMMED_SIZE: usize = 4096;

/// An idle connection that wastes more than this many bytes is a problem.
pub const IDLE_WASTE_LIMIT: usize = 1_048_576;

/// A packet queue with more allocated slots than this is cut down when it is
/// found empty.
pub const QUEUE_SLACK: usize = 20;

/// The limits of a connection's buffers.
#[derive(Debug, Clone, Copy)]
pub struct ConnectionBufferConfig {
    /// The largest number of packets in the queue.
    pub max_packet_queue_size: usize,
    /// The largest number of bytes of all packets in the queue.
    pub max_packet_queue_bytes: usize,
    /// The seconds without use after which the connection counts as idle.
    pub idle_timeout_secs: u64,
    /// Whether the periodic cleanup cuts buffers down.
    pub enable_aggressive_shrinking: bool,
}

impl Default for ConnectionBufferConfig {
    /// Up to 100 packets, up to 10 MB, idle after 60 seconds, with shrinking.
    fn default() -> (c: ConnectionBufferConfig)
        ensures
            c == (ConnectionBufferConfig {
                max_packet_queue_size: 100,
                max_packet_queue_bytes: 10_485_760,
                idle_timeout_secs: 60,
                enable_aggressive_shrinking: true,
            }),
    {
        ConnectionBufferConfig {
            max_packet_queue_size: 100,
            max_packet_queue_bytes: 10_485_760,
            idle_timeout_secs: 60,
            enable_aggressive_shrinking: true,
        }
    }
}

/// Why a packet was not queued.
#[derive(Debug, Clone, Copy, PartialEq, Eq)]
pub enum QueueFullError {
    /// The queue holds as many packets as it may.
    TooManyPackets,
    /// With the packet the queue would hold more bytes than it may.
    TooManyBytes,
}

impl QueueFullError {
    /// The human-readable description of the error.
    pub open spec fn text(self) -> Seq<char> {
        match self {
            QueueFullError::TooManyPackets => "Packet queue full (too many packets)"@,
            QueueFullError::TooManyBytes => "Packet queue full (too many bytes)"@,
        }
    }

    /// Renders the error as text.
    pub fn message(&self) -> (s: String)
        ensures
            s@ == self.text(),
    {
        match self {
            QueueFullError::TooManyPackets => "Packet queue full (too many packets)".to_owned(),
            QueueFullError::TooManyBytes => "Packet queue full (too many bytes)".to_owned(),
        }
    }
}

/// How much memory a connection holds and uses.
#[derive(Debug, Clone, Copy)]
pub struct ConnectionMemoryStats {
    /// The capacity of the read buffer.
    pub read_buf_bytes: usize,
    /// The capacity of the write buffer.
    pub write_buf_bytes: usize,
    /// The sizes of all allocated stream buffers.
    pub stream_buf_bytes: usize,
    /// The bytes of all queued packets.
    pub packet_queue_bytes: usize,
    /// All bytes held.
    pub total_bytes: usize,
    /// All bytes that hold data.
    pub total_used: usize,
    /// All bytes held that hold no data.
    pub total_wasted: usize,
    /// Whether the connection was idle when the numbers were taken.
    pub is_idle: bool,
    /// The whole seconds since the connection was last used.
    pub idle_seconds: u64,
}

impl ConnectionMemoryStats {
    /// Whether less than half the bytes held hold data, or the connection is
    /// idle and wastes more than [`IDLE_WASTE_LIMIT`] bytes.
    pub fn is_problematic(&self) -> (b: bool)
        ensures
            b == (2 * self.total_used < self.total_bytes || (self.is_idle && self.total_wasted
                > IDLE_WASTE_LIMIT)),
    {
        let half: usize = self.total_bytes / 2;
        let under_half: bool = self.total_used < half || (self.total_used == half
            && self.total_bytes % 2 == 1);
        under_half || (self.is_idle && self.total_wasted > IDLE_WASTE_LIMIT)
    }
}

/// What is known of one linear buffer of a connection.
#[derive(Debug, Clone, Copy)]
pub struct BufferDiagnostic {
    /// The capacity.
    pub capacity: usize,
    /// The number of valid bytes.
    pub length: usize,
    /// The bytes of the capacity that hold no valid data.
    pub overhead: usize,
    /// Whether the buffer is wasteful.
    pub is_wasteful: bool,
}

/// What is known of the buffers of a connection.
#[derive(Debug, Clone, Copy)]
pub struct ConnectionDiagnostics {
    /// The read buffer, if there is one.
    pub read_buf_info: Option<BufferDiagnostic>,
    /// The write buffer, if there is one.
    pub write_buf_info: Option<BufferDiagnostic>,
    /// The number of stream buffers.
    pub stream_buf_count: usize,
    /// The number of queued packets.
    pub packet_queue_len: usize,
    /// The number of packets that the queue has room allocated for.
    pub packet_queue_cap: usize,
    /// The number of periodic cleanups so far.
    pub cleanup_counter: usize,
}

/// `std::time::Instant`, a reading of the monotonic clock. Nothing of what is
/// inside it is visible here.
#[verifier::external_type_specification]
#[verifier::external_body]
pub struct ExInstant(Instant);

/// `Instant::now` reads the monotonic clock. Nothing is stated of the result.
pub assume_specification[ Instant::now ]() -> Instant;

/// `Instant::elapsed` is the time since the instant, by the clock at the
/// moment of the call. Nothing is stated of the result.
pub assume_specification[ Instant::elapsed ](since: &Instant) -> Duration;

/// `Duration::as_secs` is the number of whole seconds of the duration.
/// Nothing more is stated of the result.
pub assume_specification[ Duration::as_secs ](d: &Duration) -> u64;

/// `Duration::subsec_nanos` is the part of the duration beyond its whole
/// seconds, in nanoseconds: less than a second.
pub assume_specification[ Duration::subsec_nanos ](d: &Duration) -> (nanos: u32)
    ensures
        nanos < 1_000_000_000,
;

/// Hands the spare allocation of `queue` back through
/// `VecDeque::shrink_to_fit`, which leaves the elements as they are.
#[verifier::external_body]
fn queue_release_spare(queue: &mut VecDeque<Buffer>)
    ensures
        final(queue)@ == old(queue)@,
{
    queue.shrink_to_fit();
}

/// `VecDeque::capacity`: the number of elements that `queue` has room
/// allocated for, which is at least the number it holds.
#[verifier::external_body]
fn queue_capacity(queue: &VecDeque<Buffer>) -> (n: usize)
    ensures
        n >= queue@.len(),
{
    queue.capacity()
}

/// What the buffers of a connection are, mathematically.
pub struct ConnectionView {
    /// The read buffer, if there is one.
    pub read_buf: Option<BufferView>,
    /// The write buffer, if there is one.
    pub write_buf: Option<BufferView>,
    /// The stream buffers.
    pub streams: Seq<RingView>,
    /// The queued packets, oldest first.
    pub packets: Seq<BufferView>,
    /// The limits.
    pub config: ConnectionBufferConfig,
    /// The count of bytes of the queued packets.
    pub queued_bytes: nat,
    /// The number of periodic cleanups so far.
    pub cleanups: nat,
}

/// `n`, or the largest `usize` where `n` is above it.
pub open spec fn capped(n: nat) -> nat {
    if n > usize::MAX {
        usize::MAX as nat
    } else {
        n
    }
}

/// The sizes of all allocated rings among `streams`.
pub open spec fn allocated_bytes(streams: Seq<RingView>) -> nat
    decreases streams.len(),
{
    if streams.len() == 0 {
        0
    } else {
        allocated_bytes(streams.drop_last()) + if streams.last().allocated() {
            streams.last().size
        } else {
            0
        }
    }
}

/// The bytes in use in all rings among `streams`.
pub open spec fn used_bytes(streams: Seq<RingView>) -> nat
    decreases streams.len(),
{
    if streams.len() == 0 {
        0
    } else {
        used_bytes(streams.drop_last()) + streams.last().used
    }
}

/// The capacity of `b`, or zero where there is no buffer.
pub open spec fn capacity_of(b: Option<BufferView>) -> nat {
    match b {
        Some(v) => v.capacity(),
        None => 0,
    }
}

/// The length of `b`, or zero where there is no buffer.
pub open spec fn len_of(b: Option<BufferView>) -> nat {
    match b {
        Some(v) => v.len,
        None => 0,
    }
}

/// The buffer `b` after the idle cleanup: a wasteful buffer is overwritten
/// with zeros and cut down to [`TRIMMED_SIZE`].
pub open spec fn shrunk_if_wasteful(b: Option<BufferView>) -> Option<BufferView> {
    match b {
        Some(v) => if v.wasteful() {
            Some(BufferView::fresh(TRIMMED_SIZE as nat))
        } else {
            Some(v)
        },
        None => None,
    }
}

/// The buffer `b` after the forced cleanup: a wasteful buffer loses its valid
/// data and, as [`Buffer::reset_and_trim`] decides, is cut down to
/// [`TRIMMED_SIZE`].
pub open spec fn trimmed_if_wasteful(b: Option<BufferView>) -> Option<BufferView> {
    match b {
        Some(v) => if v.wasteful() {
            if v.trims_to(TRIMMED_SIZE as nat) {
                Some(BufferView::fresh(TRIMMED_SIZE as nat))
            } else {
                Some(v.emptied())
            }
        } else {
            Some(v)
        },
        None => None,
    }
}

impl ConnectionView {
    /// A connection without buffers.
    pub open spec fn empty(config: ConnectionBufferConfig) -> ConnectionView {
        ConnectionView {
            read_buf: None,
            write_buf: None,
            streams: Seq::empty(),
            packets: Seq::empty(),
            config,
            queued_bytes: 0,
            cleanups: 0,
        }
    }

    /// Whether a time without use of `secs` seconds and `nanos` nanoseconds
    /// is longer than the timeout.
    pub open spec fn idle_after(self, secs: u64, nanos: u32) -> bool {
        secs > self.config.idle_timeout_secs || (secs == self.config.idle_timeout_secs && nanos
            > 0)
    }

    /// Whether the queue is more than four fifths full, by packets or by
    /// bytes.
    pub open spec fn near_full(self) -> bool {
        self.packets.len() > self.config.max_packet_queue_size * 80 / 100 || self.queued_bytes
            > self.config.max_packet_queue_bytes * 80 / 100
    }

    /// After all buffers were emptied, keeping their memory.
    pub open spec fn after_reset(self) -> ConnectionView {
        ConnectionView {
            read_buf: match self.read_buf {
                Some(v) => Some(v.emptied()),
                None => None,
            },
            write_buf: match self.write_buf {
                Some(v) => Some(v.emptied()),
                None => None,
            },
            streams: Seq::new(self.streams.len(), |i: int| self.streams[i].cleared()),
            packets: Seq::empty(),
            config: self.config,
            queued_bytes: 0,
            cleanups: self.cleanups,
        }
    }

    /// After all buffers were overwritten with zeros.
    pub open spec fn after_burn(self) -> ConnectionView {
        ConnectionView {
            read_buf: match self.read_buf {
                Some(v) => Some(BufferView::fresh(v.capacity())),
                None => None,
            },
            write_buf: match self.write_buf {
                Some(v) => Some(BufferView::fresh(v.capacity())),
                None => None,
            },
            streams: Seq::new(
                self.streams.len(),
                |i: int| RingView::unallocated(self.streams[i].size),
            ),
            packets: Seq::empty(),
            config: self.config,
            queued_bytes: 0,
            cleanups: self.cleanups,
        }
    }

    /// After all buffers were overwritten with zeros and released.
    pub open spec fn after_cleanup(self) -> ConnectionView {
        ConnectionView {
            read_buf: None,
            write_buf: None,
            streams: Seq::empty(),
            packets: Seq::empty(),
            config: self.config,
            queued_bytes: 0,
            cleanups: self.cleanups,
        }
    }

    /// After the stream buffers were emptied and their storage released.
    pub open spec fn streams_freed(self) -> Seq<RingView> {
        Seq::new(self.streams.len(), |i: int| RingView::unallocated(self.streams[i].size))
    }

    /// After the stream buffers that are allocated and hold nothing had their
    /// storage released.
    pub open spec fn idle_streams_freed(self) -> Seq<RingView> {
        Seq::new(
            self.streams.len(),
            |i: int|
                if self.streams[i].allocated() && self.streams[i].used == 0 {
                    RingView::unallocated(self.streams[i].size)
                } else {
                    self.streams[i]
                },
        )
    }

    /// After a periodic cleanup that found the connection unused for `secs`
    /// seconds and `nanos` nanoseconds.
    pub open spec fn after_periodic(self, secs: u64, nanos: u32) -> ConnectionView {
        if self.config.enable_aggressive_shrinking && self.idle_after(secs, nanos) {
            ConnectionView {
                read_buf: shrunk_if_wasteful(self.read_buf),
                write_buf: shrunk_if_wasteful(self.write_buf),
                streams: self.idle_streams_freed(),
                packets: self.packets,
                config: self.config,
                queued_bytes: self.queued_bytes,
                cleanups: capped(self.cleanups + 1),
            }
        } else {
            ConnectionView {
                read_buf: self.read_buf,
                write_buf: self.write_buf,
                streams: self.streams,
                packets: self.packets,
                config: self.config,
                queued_bytes: self.queued_bytes,
                cleanups: capped(self.cleanups + 1),
            }
        }
    }

    /// After a forced shrink.
    pub open spec fn after_force_shrink(self) -> ConnectionView {
        ConnectionView {
            read_buf: trimmed_if_wasteful(self.read_buf),
            write_buf: trimmed_if_wasteful(self.write_buf),
            streams: self.streams_freed(),
            packets: self.packets,
            config: self.config,
            queued_bytes: self.queued_bytes,
            cleanups: self.cleanups,
        }
    }

    /// All bytes held: the capacities of the read and write buffers, the
    /// sizes of the allocated stream buffers and the queued bytes.
    pub open spec fn total_bytes(self) -> nat {
        capped(
            capacity_of(self.read_buf) + capacity_of(self.write_buf) + allocated_bytes(
                self.streams,
            ) + self.queued_bytes,
        )
    }

    /// All bytes that hold data.
    pub open spec fn total_used(self) -> nat {
        capped(
            len_of(self.read_buf) + len_of(self.write_buf) + used_bytes(self.streams)
                + self.queued_bytes,
        )
    }
}

/// The buffers of one connection.
pub struct ConnectionBuffers {
    /// The read buffer.
    pub read_buf: Option<Buffer>,
    /// The write buffer.
    pub write_buf: Option<Buffer>,
    /// The stream buffers.
    pub stream_bufs: Vec<CircularBuffer>,
    /// The queue of packets, oldest first.
    pub packet_queue: VecDeque<Buffer>,
    config: ConnectionBufferConfig,
    packet_queue_bytes: usize,
    last_activity: Instant,
    cleanup_counter: usize,
}

/// The view of a buffer that may not be there.
pub open spec fn view_of(b: Option<Buffer>) -> Option<BufferView> {
    match b {
        Some(buffer) => Some(buffer@),
        None => None,
    }
}

impl View for ConnectionBuffers {
    type V = ConnectionView;

    closed spec fn view(&self) -> ConnectionView {
        ConnectionView {
            read_buf: view_of(self.read_buf),
            write_buf: view_of(self.write_buf),
            streams: self.stream_bufs@.map_values(|r: CircularBuffer| r@),
            packets: self.packet_queue@.map_values(|b: Buffer| b@),
            config: self.config,
            queued_bytes: self.packet_queue_bytes as nat,
            cleanups: self.cleanup_counter as nat,
        }
    }
}

/// Empties every ring of `streams`, keeping the storage.
fn clear_streams(streams: &mut Vec<CircularBuffer>)
    ensures
        final(streams)@.len() == old(streams)@.len(),
        forall|i: int|
            0 <= i < old(streams)@.len() ==> (#[trigger] final(streams)@[i])@ == old(streams)@[i]@.cleared(),
{
    let n: usize = streams.len();
    let mut i: usize = 0;
    while i < n
        invariant
            i <= n,
            streams@.len() == n == old(streams)@.len(),
            forall|k: int| 0 <= k < i ==> (#[trigger] streams@[k])@ == old(streams)@[k]@.cleared(),
            forall|k: int| i <= k < n ==> streams@[k] == old(streams)@[k],
        decreases n - i,
    {
        streams[i].clear();
        i = i + 1;
    }
}

/// Overwrites the storage of every ring of `streams` with zeros and releases
/// it.
fn free_streams(streams: &mut Vec<CircularBuffer>)
    ensures
        final(streams)@.len() == old(streams)@.len(),
        forall|i: int|
            0 <= i < old(streams)@.len() ==> (#[trigger] final(streams)@[i])@
                == RingView::unallocated(old(streams)@[i]@.size),
{
    let n: usize = streams.len();
    let mut i: usize = 0;
    while i < n
        invariant
            i <= n,
            streams@.len() == n == old(streams)@.len(),
            forall|k: int|
                0 <= k < i ==> (#[trigger] streams@[k])@ == RingView::unallocated(
                    old(streams)@[k]@.size,
                ),
            forall|k: int| i <= k < n ==> streams@[k] == old(streams)@[k],
        decreases n - i,
    {
        streams[i].free();
        i = i + 1;
    }
}

/// Releases the storage of every ring of `streams` that is allocated and
/// holds nothing, after overwriting it with zeros.
fn free_idle_streams(streams: &mut Vec<CircularBuffer>)
    ensures
        final(streams)@.len() == old(streams)@.len(),
        forall|i: int|
            0 <= i < old(streams)@.len() ==> (#[trigger] final(streams)@[i])@ == if old(streams)@[i]@.allocated() && old(streams)@[i]@.used == 0 {
                RingView::unallocated(old(streams)@[i]@.size)
            } else {
                old(streams)@[i]@
            },
{
    let n: usize = streams.len();
    let mut i: usize = 0;
    while i < n
        invariant
            i <= n,
            streams@.len() == n == old(streams)@.len(),
            forall|k: int|
                0 <= k < i ==> (#[trigger] streams@[k])@ == if old(streams)@[k]@.allocated()
                    && old(streams)@[k]@.used == 0 {
                    RingView::unallocated(old(streams)@[k]@.size)
                } else {
                    old(streams)@[k]@
                },
            forall|k: int| i <= k < n ==> streams@[k] == old(streams)@[k],
        decreases n - i,
    {
        if streams[i].is_idle() {
            streams[i].clear_and_free_if_idle();
        }
        i = i + 1;
    }
}

/// Takes every packet out of `queue`, overwrites it with zeros and gives it
/// up.
fn burn_packets(queue: &mut VecDeque<Buffer>)
    ensures
        final(queue)@.len() == 0,
{
    loop
        ensures
            queue@.len() == 0,
        decreases queue@.len(),
    {
        match queue.pop_front() {
            Some(packet) => {
                packet.burn_free();
            },
            None => {
                break ;
            },
        }
    }
}

/// The sizes of all allocated rings of `streams`, capped at `usize::MAX`.
fn allocated_total(streams: &Vec<CircularBuffer>) -> (total: usize)
    ensures
        total == capped(allocated_bytes(streams@.map_values(|r: CircularBuffer| r@))),
{
    let ghost views = streams@.map_values(|r: CircularBuffer| r@);
    let n: usize = streams.len();
    let mut total: usize = 0;
    let mut i: usize = 0;
    assert(views.take(0) =~= Seq::<RingView>::empty());
    while i < n
        invariant
            i <= n,
            n == streams@.len(),
            views == streams@.map_values(|r: CircularBuffer| r@),
            total == capped(allocated_bytes(views.take(i as int))),
        decreases n - i,
    {
        let size: usize = if streams[i].is_allocated() {
            streams[i].size()
        } else {
            0
        };
        proof {
            assert(views.take(i + 1).drop_last() =~= views.take(i as int));
            assert(views.take(i + 1).last() == streams@[i as int]@);
        }
        total = total.saturating_add(size);
        i = i + 1;
    }
    assert(views.take(n as int) =~= views);
    total
}

/// The bytes in use in all rings of `streams`, capped at `usize::MAX`.
fn used_total(streams: &Vec<CircularBuffer>) -> (total: usize)
    ensures
        total == capped(used_bytes(streams@.map_values(|r: CircularBuffer| r@))),
{
    let ghost views = streams@.map_values(|r: CircularBuffer| r@);
    let n: usize = streams.len();
    let mut total: usize = 0;
    let mut i: usize = 0;
    assert(views.take(0) =~= Seq::<RingView>::empty());
    while i < n
        invariant
            i <= n,
            n == streams@.len(),
            views == streams@.map_values(|r: CircularBuffer| r@),
            total == capped(used_bytes(views.take(i as int))),
        decreases n - i,
    {
        let used: usize = streams[i].used();
        proof {
            assert(views.take(i + 1).drop_last() =~= views.take(i as int));
            assert(views.take(i + 1).last() == streams@[i as int]@);
        }
        total = total.saturating_add(used);
        i = i + 1;
    }
    assert(views.take(n as int) =~= views);
    total
}

/// What is known of `buffer`.
fn diagnose(buffer: &Buffer) -> (d: BufferDiagnostic)
    ensures
        d.capacity == buffer@.capacity(),
        d.length == buffer@.len,
        d.overhead == buffer@.capacity() - buffer@.len,
        d.is_wasteful == buffer@.wasteful(),
{
    BufferDiagnostic {
        capacity: buffer.capacity(),
        length: buffer.len(),
        overhead: buffer.memory_overhead(),
        is_wasteful: buffer.is_wasteful(),
    }
}

/// Whether `d` tells of `b`.
pub open spec fn tells_of(d: Option<BufferDiagnostic>, b: Option<BufferView>) -> bool {
    match (d, b) {
        (Some(info), Some(v)) => info.capacity == v.capacity() && info.length == v.len
            && info.overhead == v.capacity() - v.len && info.is_wasteful == v.wasteful(),
        (None, None) => true,
        _ => false,
    }
}

impl ConnectionBuffers {
    /// A connection without buffers, with the default limits.
    pub fn new() -> (c: ConnectionBuffers)
        ensures
            c@ == ConnectionView::empty(
                ConnectionBufferConfig {
                    max_packet_queue_size: 100,
                    max_packet_queue_bytes: 10_485_760,
                    idle_timeout_secs: 60,
                    enable_aggressive_shrinking: true,
                },
            ),
    {
        Self::with_config(ConnectionBufferConfig::default())
    }

    /// A connection without buffers, with the limits of `config`.
    pub fn with_config(config: ConnectionBufferConfig) -> (c: ConnectionBuffers)
        ensures
            c@ == ConnectionView::empty(config),
    {
        let c = ConnectionBuffers {
            read_buf: None,
            write_buf: None,
            stream_bufs: Vec::new(),
            packet_queue: VecDeque::new(),
            config,
            packet_queue_bytes: 0,
            last_activity: Instant::now(),
            cleanup_counter: 0,
        };
        assert(c@.streams =~= Seq::<RingView>::empty());
        assert(c@.packets =~= Seq::<BufferView>::empty());
        c
    }

    /// Notes that the connection is in use now.
    fn touch(&mut self)
        ensures
            final(self)@ == old(self)@,
            final(self).read_buf == old(self).read_buf,
            final(self).write_buf == old(self).write_buf,
            final(self).stream_bufs == old(self).stream_bufs,
            final(self).packet_queue == old(self).packet_queue,
    {
        self.last_activity = Instant::now();
    }

    /// Replaces the read buffer by a fresh one of `size` bytes.
    pub fn init_read_buf(&mut self, size: usize)
        requires
            size <= BUF_MAX_SIZE,
        ensures
            final(self)@ == (ConnectionView {
                read_buf: Some(BufferView::fresh(size as nat)),
                ..old(self)@
            }),
    {
        self.read_buf = Some(Buffer::new(size));
        self.touch();
    }

    /// Replaces the write buffer by a fresh one of `size` bytes.
    pub fn init_write_buf(&mut self, size: usize)
        requires
            size <= BUF_MAX_SIZE,
        ensures
            final(self)@ == (ConnectionView {
                write_buf: Some(BufferView::fresh(size as nat)),
                ..old(self)@
            }),
    {
        self.write_buf = Some(Buffer::new(size));
        self.touch();
    }

    /// Adds a stream buffer of `size` bytes, whose storage is allocated at its
    /// first write.
    pub fn add_stream_buf(&mut self, size: usize)
        requires
            size <= MAX_CBUF_SIZE,
        ensures
            final(self)@ == (ConnectionView {
                streams: old(self)@.streams.push(RingView::unallocated(size as nat)),
                ..old(self)@
            }),
    {
        self.stream_bufs.push(CircularBuffer::new(size));
        self.touch();
        assert(self@.streams =~= old(self)@.streams.push(RingView::unallocated(size as nat)));
    }

    /// Queues `buf` behind the packets that wait. The packet is refused where
    /// the queue holds `max_packet_queue_size` packets already, or where its
    /// valid bytes would take the queue above `max_packet_queue_bytes`; it is
    /// then dropped, which overwrites it with zeros.
    pub fn queue_packet(&mut self, buf: Buffer) -> (r: Result<(), QueueFullError>)
        ensures
            match r {
                Ok(()) => old(self)@.packets.len() < old(self)@.config.max_packet_queue_size
                    && old(self)@.queued_bytes + buf@.len <= old(self)@.config.max_packet_queue_bytes && final(self)@ == (ConnectionView {
                    packets: old(self)@.packets.push(buf@),
                    queued_bytes: old(self)@.queued_bytes + buf@.len,
                    ..old(self)@
                }),
                Err(e) => final(self)@ == old(self)@ && if old(self)@.packets.len() >= old(self)@.config.max_packet_queue_size {
                    e == QueueFullError::TooManyPackets
                } else {
                    old(self)@.queued_bytes + buf@.len > old(self)@.config.max_packet_queue_bytes && e == QueueFullError::TooManyBytes
                },
            },
    {
        if self.packet_queue.len() >= self.config.max_packet_queue_size {
            return Err(QueueFullError::TooManyPackets);
        }
        let buf_len: usize = buf.len();
        let limit: usize = self.config.max_packet_queue_bytes;
        if buf_len > limit || self.packet_queue_bytes > limit - buf_len {
            return Err(QueueFullError::TooManyBytes);
        }
        self.packet_queue_bytes = self.packet_queue_bytes + buf_len;
        self.packet_queue.push_back(buf);
        self.touch();
        assert(self@.packets =~= old(self)@.packets.push(buf@));
        Ok(())
    }

    /// Takes the oldest packet out of the queue, if there is one. Its valid
    /// bytes leave the count of queued bytes, which does not go below zero.
    pub fn dequeue_packet(&mut self) -> (r: Option<Buffer>)
        ensures
            match r {
                Some(buf) => old(self)@.packets.len() > 0 && buf@ == old(self)@.packets[0]
                    && final(self)@ == (ConnectionView {
                    packets: old(self)@.packets.drop_first(),
                    queued_bytes: if old(self)@.queued_bytes >= buf@.len {
                        (old(self)@.queued_bytes - buf@.len) as nat
                    } else {
                        0
                    },
                    ..old(self)@
                }),
                None => old(self)@.packets.len() == 0 && final(self)@ == old(self)@,
            },
    {
        match self.packet_queue.pop_front() {
            Some(buf) => {
                self.packet_queue_bytes = self.packet_queue_bytes.saturating_sub(buf.len());
                self.touch();
                assert(self@.packets =~= old(self)@.packets.drop_first());
                Some(buf)
            },
            None => None,
        }
    }

    /// The number of queued packets.
    pub fn packet_queue_len(&self) -> (n: usize)
        ensures
            n == self@.packets.len(),
    {
        self.packet_queue.len()
    }

    /// The count of bytes of the queued packets.
    pub fn packet_queue_bytes(&self) -> (n: usize)
        ensures
            n == self@.queued_bytes,
    {
        self.packet_queue_bytes
    }

    /// Whether the queue is more than four fifths full, by packets or by
    /// bytes.
    pub fn is_queue_near_full(&self) -> (b: bool)
        ensures
            b == self@.near_full(),
    {
        let packets: u128 = self.packet_queue.len() as u128;
        let bytes: u128 = self.packet_queue_bytes as u128;
        let max_packets: u128 = self.config.max_packet_queue_size as u128;
        let max_bytes: u128 = self.config.max_packet_queue_bytes as u128;
        packets > max_packets * 80 / 100 || bytes > max_bytes * 80 / 100
    }

    /// The time since the connection was last used.
    pub fn idle_duration(&self) -> Duration {
        self.last_activity.elapsed()
    }

    /// Whether a connection that was last used `secs` seconds and `nanos`
    /// nanoseconds ago has been idle for longer than its timeout.
    pub fn idle_after(&self, secs: u64, nanos: u32) -> (b: bool)
        ensures
            b == self@.idle_after(secs, nanos),
    {
        secs > self.config.idle_timeout_secs || (secs == self.config.idle_timeout_secs && nanos
            > 0)
    }

    /// Whether the connection has been idle for longer than its timeout, by
    /// the clock at the moment of the call.
    pub fn is_idle(&self) -> bool {
        let d = self.idle_duration();
        self.idle_after(d.as_secs(), d.subsec_nanos())
    }

    /// Empties all buffers and the queue. The buffers keep their memory and
    /// their bytes; the queued packets are dropped, which overwrites them with
    /// zeros.
    pub fn reset(&mut self)
        ensures
            final(self)@ == old(self)@.after_reset(),
    {
        match &mut self.read_buf {
            Some(buf) => {
                buf.reset();
            },
            None => {},
        }
        match &mut self.write_buf {
            Some(buf) => {
                buf.reset();
            },
            None => {},
        }
        clear_streams(&mut self.stream_bufs);
        self.packet_queue.clear();
        self.packet_queue_bytes = 0;
        self.touch();
        assert(self@.streams =~= old(self)@.after_reset().streams);
        assert(self@.packets =~= old(self)@.after_reset().packets);
    }

    /// Overwrites all buffers with zeros. The read and write buffers keep
    /// their memory, the stream buffers release their storage, and the queued
    /// packets are given up.
    pub fn burn(&mut self)
        ensures
            final(self)@ == old(self)@.after_burn(),
    {
        match &mut self.read_buf {
            Some(buf) => {
                buf.burn();
            },
            None => {},
        }
        match &mut self.write_buf {
            Some(buf) => {
                buf.burn();
            },
            None => {},
        }
        free_streams(&mut self.stream_bufs);
        burn_packets(&mut self.packet_queue);
        self.packet_queue_bytes = 0;
        assert(self@.streams =~= old(self)@.after_burn().streams);
        assert(self@.packets =~= old(self)@.after_burn().packets);
    }

    /// Overwrites all buffers with zeros and releases them: the connection is
    /// left without buffers.
    pub fn aggressive_cleanup(&mut self)
        ensures
            final(self)@ == old(self)@.after_cleanup(),
    {
        match self.read_buf.take() {
            Some(buf) => {
                let mut buf = buf;
                buf.burn_and_free_memory();
            },
            None => {},
        }
        match self.write_buf.take() {
            Some(buf) => {
                let mut buf = buf;
                buf.burn_and_free_memory();
            },
            None => {},
        }
        free_streams(&mut self.stream_bufs);
        self.stream_bufs.clear();
        release_spare(&mut self.stream_bufs);
        burn_packets(&mut self.packet_queue);
        queue_release_spare(&mut self.packet_queue);
        self.packet_queue_bytes = 0;
        assert(self@.streams =~= old(self)@.after_cleanup().streams);
        assert(self@.packets =~= old(self)@.after_cleanup().packets);
    }

    /// The periodic cleanup of a connection that was last used `secs` seconds
    /// and `nanos` nanoseconds ago. It is counted. Where shrinking is enabled
    /// and the connection has been idle for longer than its timeout, a
    /// wasteful read or write buffer is overwritten with zeros and cut down to
    /// [`TRIMMED_SIZE`], and every stream buffer that is allocated and holds
    /// nothing releases its storage.
    pub fn periodic_cleanup_after(&mut self, secs: u64, nanos: u32)
        ensures
            final(self)@ == old(self)@.after_periodic(secs, nanos),
    {
        self.cleanup_counter = self.cleanup_counter.saturating_add(1);
        if !self.config.enable_aggressive_shrinking {
            return ;
        }
        if !self.idle_after(secs, nanos) {
            return ;
        }
        match &mut self.read_buf {
            Some(buf) => {
                if buf.is_wasteful() {
                    buf.aggressive_shrink(TRIMMED_SIZE);
                }
            },
            None => {},
        }
        match &mut self.write_buf {
            Some(buf) => {
                if buf.is_wasteful() {
                    buf.aggressive_shrink(TRIMMED_SIZE);
                }
            },
            None => {},
        }
        free_idle_streams(&mut self.stream_bufs);
        if self.packet_queue.len() == 0 && queue_capacity(&self.packet_queue) > QUEUE_SLACK {
            queue_release_spare(&mut self.packet_queue);
        }
        assert(self@.streams =~= old(self)@.after_periodic(secs, nanos).streams);
    }

    /// The periodic cleanup, by the clock at the moment of the call: see
    /// [`periodic_cleanup_after`](Self::periodic_cleanup_after).
    pub fn periodic_cleanup(&mut self)
        ensures
            exists|secs: u64, nanos: u32| final(self)@ == old(self)@.after_periodic(secs, nanos),
    {
        let d = self.idle_duration();
        let secs: u64 = d.as_secs();
        let nanos: u32 = d.subsec_nanos();
        self.periodic_cleanup_after(secs, nanos);
    }

    /// Cuts the buffers down at once, idle or not: a wasteful read or write
    /// buffer loses its valid data and is trimmed to [`TRIMMED_SIZE`], and
    /// every stream buffer is emptied and releases its storage.
    pub fn force_shrink(&mut self)
        ensures
            final(self)@ == old(self)@.after_force_shrink(),
    {
        match &mut self.read_buf {
            Some(buf) => {
                if buf.is_wasteful() {
                    buf.reset_and_trim(TRIMMED_SIZE);
                }
            },
            None => {},
        }
        match &mut self.write_buf {
            Some(buf) => {
                if buf.is_wasteful() {
                    buf.reset_and_trim(TRIMMED_SIZE);
                }
            },
            None => {},
        }
        free_streams(&mut self.stream_bufs);
        queue_release_spare(&mut self.packet_queue);
        assert(self@.streams =~= old(self)@.after_force_shrink().streams);
    }

    /// The memory statistics of a connection that was last used `secs` seconds
    /// and `nanos` nanoseconds ago. Sums above `usize::MAX` are reported as
    /// `usize::MAX`.
    pub fn memory_usage_after(&self, secs: u64, nanos: u32) -> (st: ConnectionMemoryStats)
        ensures
            st.read_buf_bytes == capacity_of(self@.read_buf),
            st.write_buf_bytes == capacity_of(self@.write_buf),
            st.stream_buf_bytes == capped(allocated_bytes(self@.streams)),
            st.packet_queue_bytes == self@.queued_bytes,
            st.total_bytes == self@.total_bytes(),
            st.total_used == self@.total_used(),
            st.total_wasted == if self@.total_bytes() >= self@.total_used() {
                self@.total_bytes() - self@.total_used()
            } else {
                0
            },
            st.is_idle == self@.idle_after(secs, nanos),
            st.idle_seconds == secs,
    {
        let read_buf_bytes: usize = match &self.read_buf {
            Some(b) => b.capacity(),
            None => 0,
        };
        let write_buf_bytes: usize = match &self.write_buf {
            Some(b) => b.capacity(),
            None => 0,
        };
        let stream_buf_bytes: usize = allocated_total(&self.stream_bufs);
        let read_buf_used: usize = match &self.read_buf {
            Some(b) => b.len(),
            None => 0,
        };
        let write_buf_used: usize = match &self.write_buf {
            Some(b) => b.len(),
            None => 0,
        };
        let stream_buf_used: usize = used_total(&self.stream_bufs);
        let total_bytes: usize = read_buf_bytes.saturating_add(write_buf_bytes).saturating_add(
            stream_buf_bytes,
        ).saturating_add(self.packet_queue_bytes);
        let total_used: usize = read_buf_used.saturating_add(write_buf_used).saturating_add(
            stream_buf_used,
        ).saturating_add(self.packet_queue_bytes);
        ConnectionMemoryStats {
            read_buf_bytes,
            write_buf_bytes,
            stream_buf_bytes,
            packet_queue_bytes: self.packet_queue_bytes,
            total_bytes,
            total_used,
            total_wasted: total_bytes.saturating_sub(total_used),
            is_idle: self.idle_after(secs, nanos),
            idle_seconds: secs,
        }
    }

    /// The memory statistics, by the clock at the moment of the call: see
    /// [`memory_usage_after`](Self::memory_usage_after).
    pub fn memory_usage(&self) -> (st: ConnectionMemoryStats)
        ensures
            st.read_buf_bytes == capacity_of(self@.read_buf),
            st.write_buf_bytes == capacity_of(self@.write_buf),
            st.stream_buf_bytes == capped(allocated_bytes(self@.streams)),
            st.packet_queue_bytes == self@.queued_bytes,
            st.total_bytes == self@.total_bytes(),
            st.total_used == self@.total_used(),
            st.total_wasted == if self@.total_bytes() >= self@.total_used() {
                self@.total_bytes() - self@.total_used()
            } else {
                0
            },
    {
        let d = self.idle_duration();
        let secs: u64 = d.as_secs();
        let nanos: u32 = d.subsec_nanos();
        self.memory_usage_after(secs, nanos)
    }

    /// What is known of the buffers.
    pub fn diagnostics(&self) -> (d: ConnectionDiagnostics)
        ensures
            tells_of(d.read_buf_info, self@.read_buf),
            tells_of(d.write_buf_info, self@.write_buf),
            d.stream_buf_count == self@.streams.len(),
            d.packet_queue_len == self@.packets.len(),
            d.packet_queue_cap >= d.packet_queue_len,
            d.cleanup_counter == self@.cleanups,
    {
        ConnectionDiagnostics {
            read_buf_info: match &self.read_buf {
                Some(b) => Some(diagnose(b)),
                None => None,
            },
            write_buf_info: match &self.write_buf {
                Some(b) => Some(diagnose(b)),
                None => None,
            },
            stream_buf_count: self.stream_bufs.len(),
            packet_queue_len: self.packet_queue.len(),
            packet_queue_cap: queue_capacity(&self.packet_queue),
            cleanup_counter: self.cleanup_counter,
        }
    }
}

impl Default for ConnectionBuffers {
    /// A connection without buffers, with the default limits.
    fn default() -> (c: ConnectionBuffers) {
        ConnectionBuffers::new()
    }
}

/// The buffers of a connection that belongs to a pool.
pub struct PooledConnectionBuffers {
    buffers: ConnectionBuffers,
    pool: Option<Arc<BufferPool>>,
}

impl View for PooledConnectionBuffers {
    type V = ConnectionView;

    closed spec fn view(&self) -> ConnectionView {
        self.buffers@
    }
}

impl PooledConnectionBuffers {
    /// Whether the connection still belongs to its pool.
    pub closed spec fn attached(&self) -> bool {
        self.pool is Some
    }

    /// A connection without buffers, with the default limits, that belongs to
    /// `pool`.
    pub fn new(pool: Arc<BufferPool>) -> (c: PooledConnectionBuffers)
        ensures
            c.attached(),
            c@ == ConnectionView::empty(
                ConnectionBufferConfig {
                    max_packet_queue_size: 100,
                    max_packet_queue_bytes: 10_485_760,
                    idle_timeout_secs: 60,
                    enable_aggressive_shrinking: true,
                },
            ),
    {
        PooledConnectionBuffers { buffers: ConnectionBuffers::new(), pool: Some(pool) }
    }

    /// A connection without buffers, with the limits of `config`, that belongs
    /// to `pool`.
    pub fn with_config(pool: Arc<BufferPool>, config: ConnectionBufferConfig) -> (c:
        PooledConnectionBuffers)
        ensures
            c.attached(),
            c@ == ConnectionView::empty(config),
    {
        PooledConnectionBuffers { buffers: ConnectionBuffers::with_config(config), pool: Some(pool) }
    }

    /// The buffers, open for use.
    pub fn buffers(&mut self) -> (b: &mut ConnectionBuffers)
        ensures
            b@ == old(self)@,
            final(self)@ == final(b)@,
            final(self).attached() == old(self).attached(),
    {
        &mut self.buffers
    }

    /// Overwrites all buffers with zeros, releases them and lets go of the
    /// pool.
    pub fn release_to_pool(&mut self)
        ensures
            final(self)@ == old(self)@.after_cleanup(),
            !final(self).attached(),
    {
        self.buffers.aggressive_cleanup();
        self.pool = None;
    }
}

} // verus!
