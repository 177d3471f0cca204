//! The circular buffer: a fixed-size ring of bytes for streaming data.
//!
//! A [`CircularBuffer`] of `size` bytes holds up to `size` bytes in the order
//! in which they were written. Its storage is allocated at the first write.
//! The bytes in use start at `read_pos` and run forward through the ring,
//! wrapping from the last offset to offset 0, up to `write_pos`.

use crate::erase::wipe_from;
use crate::erase::zeros;
use crate::error::BufferError;
use crate::span::extract;
use crate::span::overlay;
use crate::span::overwrite;
use crate::span::span_mut;
use vstd::arithmetic::power2::lemma2_to64;
use vstd::arithmetic::power2::lemma_pow2_strictly_increases;
use vstd::arithmetic::power2::pow2;
use vstd::bits::lemma_usize_low_bits_mask_is_mod;
use vstd::bits::lemma_usize_shl_is_mul;
use vstd::bits::low_bits_mask;
use vstd::prelude::*;

pub mod arith;
pub mod laws;

verus! {

/// The largest size of a circular buffer.
pub const MAX_CBUF_SIZE: usize = 100_000_000;

/// The largest exponent `k` for which a ring of `2^k` bytes can be made.
pub const MAX_CBUF_LOG2: u32 = 26;

/// What a circular buffer is, mathematically.
pub struct RingView {
    /// The number of bytes the ring can hold.
    pub size: nat,
    /// The number of bytes in use.
    pub used: nat,
    /// The ring offset of the oldest byte in use.
    pub read_pos: nat,
    /// The ring offset at which the next byte is written.
    pub write_pos: nat,
    /// The storage, once it is allocated: `size` bytes.
    pub storage: Option<Seq<u8>>,
}

impl RingView {
    /// The position `delta` steps after `pos`, walking forward through the
    /// ring.
    pub open spec fn wrap(self, pos: nat, delta: nat) -> nat {
        if self.size == 0 {
            0
        } else {
            (pos + delta) % self.size
        }
    }

    /// The invariant of every circular buffer: no more bytes are in use than
    /// fit, both positions are ring offsets, walking `used` steps from
    /// `read_pos` leads to `write_pos`, and allocated storage has `size` bytes.
    pub open spec fn wf(self) -> bool {
        &&& self.size <= MAX_CBUF_SIZE
        &&& self.used <= self.size
        &&& self.size == 0 ==> self.read_pos == 0
        &&& self.size > 0 ==> self.read_pos < self.size
        &&& self.write_pos == self.wrap(self.read_pos, self.used)
        &&& self.storage matches Some(s) ==> s.len() == self.size
    }

    /// A ring of `size` bytes that holds nothing and has no storage yet.
    pub open spec fn unallocated(size: nat) -> RingView {
        RingView { size, used: 0, read_pos: 0, write_pos: 0, storage: None }
    }

    /// Whether the storage is allocated.
    pub open spec fn allocated(self) -> bool {
        self.storage is Some
    }

    /// The number of bytes that can still be written.
    pub open spec fn available(self) -> nat {
        (self.size - self.used) as nat
    }

    /// The bytes of the ring by offset. Storage that is not allocated yet
    /// reads as the zeros it is allocated with.
    pub open spec fn cells(self) -> Seq<u8> {
        match self.storage {
            Some(s) => s,
            None => zeros(self.size),
        }
    }

    /// The `n` bytes met when walking forward from offset `from`.
    pub open spec fn run(self, from: nat, n: nat) -> Seq<u8> {
        Seq::new(n, |i: int| self.cells()[((from + i) % (self.size as int)) as int])
    }

    /// The bytes in use, oldest first.
    pub open spec fn contents(self) -> Seq<u8> {
        self.run(self.read_pos, self.used)
    }

    /// The bytes that a read or a peek can deliver: the contents, or nothing
    /// while the storage is not allocated.
    pub open spec fn readable(self) -> Seq<u8> {
        if self.allocated() {
            self.contents()
        } else {
            Seq::empty()
        }
    }

    /// The storage after `src` was laid into the ring from offset `from` on,
    /// wrapping to offset 0 at the end.
    pub open spec fn laid(self, from: nat, src: Seq<u8>) -> Seq<u8> {
        Seq::new(
            self.size,
            |j: int|
                {
                    let i = (j - from + self.size) % (self.size as int);
                    if i < src.len() {
                        src[i]
                    } else {
                        self.cells()[j]
                    }
                },
        )
    }

    /// After `n` more bytes of the ring were declared in use.
    pub open spec fn committed(self, n: nat) -> RingView {
        RingView {
            size: self.size,
            used: self.used + n,
            read_pos: self.read_pos,
            write_pos: self.wrap(self.write_pos, n),
            storage: self.storage,
        }
    }

    /// After the `n` oldest bytes were given up.
    pub open spec fn consumed(self, n: nat) -> RingView {
        RingView {
            size: self.size,
            used: (self.used - n) as nat,
            read_pos: self.wrap(self.read_pos, n),
            write_pos: self.write_pos,
            storage: self.storage,
        }
    }

    /// After `src` was written. Writing nothing changes nothing; any other
    /// write allocates the storage if need be.
    pub open spec fn wrote(self, src: Seq<u8>) -> RingView {
        if src.len() == 0 {
            self
        } else {
            RingView {
                size: self.size,
                used: self.used + src.len(),
                read_pos: self.read_pos,
                write_pos: self.wrap(self.write_pos, src.len()),
                storage: Some(self.laid(self.write_pos, src)),
            }
        }
    }

    /// The number of bytes that a read into `room` bytes delivers.
    pub open spec fn deliverable(self, room: nat) -> nat {
        if room <= self.readable().len() {
            room
        } else {
            self.readable().len()
        }
    }

    /// The bytes that a read into room for `room` bytes delivers.
    pub open spec fn delivered(self, room: nat) -> Seq<u8> {
        self.readable().subrange(0, self.deliverable(room) as int)
    }

    /// The view after a read into room for `room` bytes.
    pub open spec fn after_read(self, room: nat) -> RingView {
        self.consumed(self.deliverable(room))
    }

    /// The same ring with `cells` as its allocated storage.
    pub open spec fn with_storage(self, cells: Seq<u8>) -> RingView {
        RingView {
            size: self.size,
            used: self.used,
            read_pos: self.read_pos,
            write_pos: self.write_pos,
            storage: Some(cells),
        }
    }

    /// The same ring, holding nothing, with both positions at offset 0.
    pub open spec fn cleared(self) -> RingView {
        RingView { size: self.size, used: 0, read_pos: 0, write_pos: 0, storage: self.storage }
    }

    /// The first of the two runs in which the bytes in use lie in the storage:
    /// from `read_pos` up to the end of the ring, or all of them if they do not
    /// wrap.
    pub open spec fn head_len(self) -> nat {
        if self.used <= self.size - self.read_pos {
            self.used
        } else {
            (self.size - self.read_pos) as nat
        }
    }
}

/// The text that tells of a contiguous window refused because it would run
/// past the end of the ring.
pub open spec fn wrap_refusal() -> Seq<char> {
    "contiguous write would pass the end of the ring"@
}

/// Whether `n` is `2^k` for some `k` up to [`MAX_CBUF_LOG2`].
pub open spec fn small_power_of_two(n: nat) -> bool {
    exists|k: nat| k <= MAX_CBUF_LOG2 && n == pow2(k)
}

/// The cursors of a ring, which change together.
#[derive(Clone, Copy)]
struct Cursors {
    used: usize,
    read_pos: usize,
    write_pos: usize,
}

/// A circular byte buffer. Its storage is overwritten with zeros before it is
/// released.
pub struct CircularBuffer {
    data: Option<Vec<u8>>,
    size: usize,
    cur: Cursors,
    is_pow2: bool,
    was_allocated: bool,
}

/// Memory statistics of a circular buffer.
#[derive(Debug, Clone, Copy)]
pub struct CircularBufferMemoryStats {
    /// Whether the storage is allocated.
    pub allocated: bool,
    /// The size of the ring.
    pub size: usize,
    /// The number of bytes in use.
    pub used: usize,
    /// The number of allocated bytes that are not in use.
    pub wasted: usize,
}

impl View for CircularBuffer {
    type V = RingView;

    closed spec fn view(&self) -> RingView {
        RingView {
            size: self.size as nat,
            used: self.cur.used as nat,
            read_pos: self.cur.read_pos as nat,
            write_pos: self.cur.write_pos as nat,
            storage: match self.data {
                Some(v) => Some(v@),
                None => None,
            },
        }
    }
}

/// Whether `size` is a power of two, told by its having exactly one bit set.
fn single_bit(size: usize) -> (b: bool)
    requires
        size <= MAX_CBUF_SIZE,
    ensures
        b == small_power_of_two(size as nat),
{
    let b: bool = size != 0 && (size & (size - 1)) == 0;
    proof {
        if b {
            let s = size;
            assert(s <= 100_000_000 && s != 0 && s & ((s - 1) as usize) == 0 ==> s == 0x1 || s
                == 0x2 || s == 0x4 || s == 0x8 || s == 0x10 || s == 0x20 || s == 0x40 || s == 0x80
                || s == 0x100 || s == 0x200 || s == 0x400 || s == 0x800 || s == 0x1000 || s
                == 0x2000 || s == 0x4000 || s == 0x8000 || s == 0x1_0000 || s == 0x2_0000 || s
                == 0x4_0000 || s == 0x8_0000 || s == 0x10_0000 || s == 0x20_0000 || s
                == 0x40_0000 || s == 0x80_0000 || s == 0x100_0000 || s == 0x200_0000 || s
                == 0x400_0000) by (bit_vector);
            lemma2_to64();
            let k: nat = if s == 0x1 {
                0
            } else if s == 0x2 {
                1
            } else if s == 0x4 {
                2
            } else if s == 0x8 {
                3
            } else if s == 0x10 {
                4
            } else if s == 0x20 {
                5
            } else if s == 0x40 {
                6
            } else if s == 0x80 {
                7
            } else if s == 0x100 {
                8
            } else if s == 0x200 {
                9
            } else if s == 0x400 {
                10
            } else if s == 0x800 {
                11
            } else if s == 0x1000 {
                12
            } else if s == 0x2000 {
                13
            } else if s == 0x4000 {
                14
            } else if s == 0x8000 {
                15
            } else if s == 0x1_0000 {
                16
            } else if s == 0x2_0000 {
                17
            } else if s == 0x4_0000 {
                18
            } else if s == 0x8_0000 {
                19
            } else if s == 0x10_0000 {
                20
            } else if s == 0x20_0000 {
                21
            } else if s == 0x40_0000 {
                22
            } else if s == 0x80_0000 {
                23
            } else if s == 0x100_0000 {
                24
            } else if s == 0x200_0000 {
                25
            } else {
                26
            };
            assert(k <= MAX_CBUF_LOG2 && size as nat == pow2(k));
        } else if small_power_of_two(size as nat) {
            let k = choose|k: nat| k <= MAX_CBUF_LOG2 && size as nat == pow2(k);
            let s = size;
            lemma2_to64();
            assert(k == 0 || k == 1 || k == 2 || k == 3 || k == 4 || k == 5 || k == 6 || k == 7
                || k == 8 || k == 9 || k == 10 || k == 11 || k == 12 || k == 13 || k == 14 || k
                == 15 || k == 16 || k == 17 || k == 18 || k == 19 || k == 20 || k == 21 || k == 22
                || k == 23 || k == 24 || k == 25 || k == 26);
            assert(s == 0x1 || s == 0x2 || s == 0x4 || s == 0x8 || s == 0x10 || s == 0x20 || s
                == 0x40 || s == 0x80 || s == 0x100 || s == 0x200 || s == 0x400 || s == 0x800 || s
                == 0x1000 || s == 0x2000 || s == 0x4000 || s == 0x8000 || s == 0x1_0000 || s
                == 0x2_0000 || s == 0x4_0000 || s == 0x8_0000 || s == 0x10_0000 || s
                == 0x20_0000 || s == 0x40_0000 || s == 0x80_0000 || s == 0x100_0000 || s
                == 0x200_0000 || s == 0x400_0000);
            assert(s == 0x1 || s == 0x2 || s == 0x4 || s == 0x8 || s == 0x10 || s == 0x20 || s
                == 0x40 || s == 0x80 || s == 0x100 || s == 0x200 || s == 0x400 || s == 0x800 || s
                == 0x1000 || s == 0x2000 || s == 0x4000 || s == 0x8000 || s == 0x1_0000 || s
                == 0x2_0000 || s == 0x4_0000 || s == 0x8_0000 || s == 0x10_0000 || s
                == 0x20_0000 || s == 0x40_0000 || s == 0x80_0000 || s == 0x100_0000 || s
                == 0x200_0000 || s == 0x400_0000 ==> s != 0 && s & ((s - 1) as usize) == 0)
                by (bit_vector);
            assert(false);
        }
    }
    b
}

/// Overwrites the storage in `slot`, if there is any, with zeros in place.
fn wipe_slot(slot: &mut Option<Vec<u8>>)
    ensures
        match *old(slot) {
            Some(v) => *final(slot) matches Some(w) && w@ == zeros(v@.len()),
            None => *final(slot) is None,
        },
    opens_invariants none
    no_unwind
{
    match slot {
        Some(storage) => {
            wipe_from(storage, 0);
            assert(storage@ =~= zeros(old(slot)->0@.len()));
        },
        None => {},
    }
}

/// The mutable window `from..to` of the storage in `slot`.
fn slot_span_mut(slot: &mut Option<Vec<u8>>, from: usize, to: usize) -> (s: &mut [u8])
    requires
        *old(slot) matches Some(v) && from <= to <= v@.len(),
    ensures
        s@ == old(slot)->0@.subrange(from as int, to as int),
        final(s)@.len() == s@.len(),
        *final(slot) matches Some(w) && w@ == overlay(old(slot)->0@, from as int, final(s)@),
    opens_invariants none
    no_unwind
{
    match slot {
        Some(storage) => span_mut(storage, from, to),
        None => &mut [],
    }
}

impl CircularBuffer {
    #[verifier::type_invariant]
    spec fn inv(self) -> bool {
        &&& self@.wf()
        &&& self.is_pow2 == small_power_of_two(self.size as nat)
        &&& self.data is Some ==> self.was_allocated
    }

    /// A ring of `size` bytes whose storage is allocated at the first write,
    /// or `SizeTooBig` above [`MAX_CBUF_SIZE`].
    pub fn try_new(size: usize) -> (r: Result<CircularBuffer, BufferError>)
        ensures
            match r {
                Ok(b) => size <= MAX_CBUF_SIZE && b@ == RingView::unallocated(size as nat)
                    && b@.wf(),
                Err(e) => size > MAX_CBUF_SIZE && e == BufferError::SizeTooBig,
            },
    {
        if size > MAX_CBUF_SIZE {
            return Err(BufferError::SizeTooBig);
        }
        Ok(Self::new(size))
    }

    /// A ring of `size` bytes whose storage is allocated at the first write.
    pub fn new(size: usize) -> (b: CircularBuffer)
        requires
            size <= MAX_CBUF_SIZE,
        ensures
            b@ == RingView::unallocated(size as nat),
            b@.wf(),
    {
        let is_pow2: bool = single_bit(size);
        proof {
            if size > 0 {
                arith::lemma_wrap_once(0, size as int);
            }
        }
        CircularBuffer {
            data: None,
            size,
            cur: Cursors { used: 0, read_pos: 0, write_pos: 0 },
            is_pow2,
            was_allocated: false,
        }
    }

    /// A ring of `2^size_log2` bytes, whose positions wrap by a bit mask, or
    /// `SizeTooBig` where that size is above [`MAX_CBUF_SIZE`].
    pub fn try_new_pow2(size_log2: u32) -> (r: Result<CircularBuffer, BufferError>)
        ensures
            match r {
                Ok(b) => size_log2 <= MAX_CBUF_LOG2 && b@ == RingView::unallocated(
                    pow2(size_log2 as nat),
                ) && b@.wf(),
                Err(e) => size_log2 > MAX_CBUF_LOG2 && e == BufferError::SizeTooBig,
            },
    {
        if size_log2 > MAX_CBUF_LOG2 {
            return Err(BufferError::SizeTooBig);
        }
        Ok(Self::new_pow2(size_log2))
    }

    /// A ring of `2^size_log2` bytes, whose positions wrap by a bit mask.
    pub fn new_pow2(size_log2: u32) -> (b: CircularBuffer)
        requires
            size_log2 <= MAX_CBUF_LOG2,
        ensures
            b@ == RingView::unallocated(pow2(size_log2 as nat)),
            b@.wf(),
    {
        proof {
            lemma2_to64();
            if size_log2 < MAX_CBUF_LOG2 {
                lemma_pow2_strictly_increases(size_log2 as nat, MAX_CBUF_LOG2 as nat);
            }
            lemma_usize_shl_is_mul(1usize, size_log2 as usize);
        }
        let size: usize = 1usize << size_log2;
        proof {
            arith::lemma_wrap_once(0, size as int);
        }
        CircularBuffer {
            data: None,
            size,
            cur: Cursors { used: 0, read_pos: 0, write_pos: 0 },
            is_pow2: true,
            was_allocated: false,
        }
    }

    /// The number of bytes in use.
    pub fn used(&self) -> (n: usize)
        ensures
            n == self@.used,
    {
        self.cur.used
    }

    /// The number of bytes that can still be written.
    pub fn available(&self) -> (n: usize)
        ensures
            n == self@.available(),
            n == self@.size - self@.used,
    {
        proof {
            use_type_invariant(self);
        }
        self.size - self.cur.used
    }

    /// The number of bytes the ring can hold.
    pub fn size(&self) -> (n: usize)
        ensures
            n == self@.size,
    {
        self.size
    }

    /// Whether no byte is in use.
    pub fn is_empty(&self) -> (b: bool)
        ensures
            b == (self@.used == 0),
    {
        self.cur.used == 0
    }

    /// Whether the ring is full.
    pub fn is_full(&self) -> (b: bool)
        ensures
            b == (self@.used == self@.size),
    {
        self.cur.used == self.size
    }

    /// Whether the storage is allocated.
    pub fn is_allocated(&self) -> (b: bool)
        ensures
            b == self@.allocated(),
    {
        self.data.is_some()
    }

    /// Whether the storage is allocated while no byte is in use.
    pub fn is_idle(&self) -> (b: bool)
        ensures
            b == (self@.allocated() && self@.used == 0),
    {
        proof {
            use_type_invariant(self);
        }
        self.was_allocated && self.is_empty() && self.data.is_some()
    }

    /// The position `delta` steps after `pos`: by a bit mask where the size is
    /// a power of two, by the remainder otherwise.
    fn wrap_pos(&self, pos: usize, delta: usize) -> (r: usize)
        requires
            pos <= self.size,
            delta <= self.size,
        ensures
            r == self@.wrap(pos as nat, delta as nat),
    {
        proof {
            use_type_invariant(self);
        }
        if self.size == 0 {
            return 0;
        }
        let new_pos: usize = pos + delta;
        if self.is_pow2 {
            proof {
                let k = choose|k: nat| k <= MAX_CBUF_LOG2 && self.size as nat == pow2(k);
                lemma_usize_low_bits_mask_is_mod(new_pos, k);
                assert(low_bits_mask(k) == self.size - 1);
            }
            new_pos & (self.size - 1)
        } else {
            new_pos % self.size
        }
    }

    /// The bytes in use as they lie in the storage, without copying: first
    /// the run from `read_pos` on, then the run from offset 0 that follows
    /// where the bytes wrap. The second is empty where they do not wrap; both
    /// are empty while the storage is not allocated.
    pub fn read_ptrs(&self) -> (r: (&[u8], &[u8]))
        ensures
            r.0@ + r.1@ == self@.readable(),
            r.0@.len() == if self@.allocated() {
                self@.head_len()
            } else {
                0
            },
    {
        proof {
            use_type_invariant(self);
        }
        let used: usize = self.cur.used;
        let read_pos: usize = self.cur.read_pos;
        match &self.data {
            Some(v) => {
                if used == 0 {
                    let none = vstd::slice::slice_subrange(v.as_slice(), 0, 0);
                    assert(none@ + none@ =~= self@.readable());
                    return (none, none);
                }
                let len1: usize = if used <= self.size - read_pos {
                    used
                } else {
                    self.size - read_pos
                };
                let head = vstd::slice::slice_subrange(v.as_slice(), read_pos, read_pos + len1);
                let tail = vstd::slice::slice_subrange(v.as_slice(), 0, used - len1);
                proof {
                    arith::lemma_run_two_parts(self@, read_pos as nat, used as nat);
                    assert(head@ + tail@ =~= self@.readable());
                }
                (head, tail)
            },
            None => {
                let none: &[u8] = &[];
                assert(none@ + none@ =~= self@.readable());
                (none, none)
            },
        }
    }

    /// Allocates the storage if it is not allocated yet.
    fn materialize(&mut self)
        ensures
            final(self)@ == old(self)@.with_storage(old(self)@.cells()),
            final(self).data is Some,
    {
        proof {
            use_type_invariant(&*self);
        }
        if self.data.is_none() {
            let storage: Vec<u8> = vec![0u8; self.size];
            assert(storage@ =~= zeros(self.size as nat));
            self.was_allocated = true;
            self.data = Some(storage);
        }
    }

    /// The `len` bytes of the storage at `write_pos`, open for writing in
    /// place; the storage is allocated if need be. Nothing is committed: after
    /// writing, the caller calls [`incr_write`](Self::incr_write) with the
    /// number of bytes written. A window that would run past the end of the
    /// ring is refused as `InvalidState`.
    pub fn write_ptr(&mut self, len: usize) -> (r: Result<&mut [u8], BufferError>)
        ensures
            match r {
                Ok(s) => ({
                    &&& len <= old(self)@.available()
                    &&& old(self)@.write_pos + len <= old(self)@.size
                    &&& s@ == old(self)@.run(old(self)@.write_pos, len as nat)
                    &&& final(s)@.len() == len
                    &&& final(self)@ == old(self)@.with_storage(
                        old(self)@.laid(old(self)@.write_pos, final(s)@),
                    )
                }),
                Err(e) => ({
                    &&& final(self)@ == old(self)@
                    &&& len > old(self)@.available() ==> e == BufferError::InsufficientSpace
                    &&& len <= old(self)@.available() ==> old(self)@.write_pos + len > old(self)@.size
                    &&& len <= old(self)@.available() ==> (e matches BufferError::InvalidState(m)
                        && m@ == wrap_refusal())
                }),
            },
            final(self)@.wf(),
    {
        proof {
            use_type_invariant(&*self);
        }
        if len > self.size - self.cur.used {
            return Err(BufferError::InsufficientSpace);
        }
        let start: usize = self.cur.write_pos;
        if len > self.size - start {
            return Err(
                BufferError::InvalidState("contiguous write would pass the end of the ring".to_owned()),
            );
        }
        self.materialize();
        proof {
            use_type_invariant(&*self);
        }
        let window = slot_span_mut(&mut self.data, start, start + len);
        proof {
            if self.size > 0 {
                arith::lemma_run_two_parts(old(self)@, start as nat, len as nat);
                arith::lemma_laid_two_parts(old(self)@, start as nat, final(window)@);
                assert(final(window)@.subrange(0, len as int) =~= final(window)@);
            }
            assert(overlay(old(self)@.cells(), start as int, final(window)@) =~= old(self)@.laid(
                start as nat,
                final(window)@,
            ));
        }
        Ok(window)
    }

    /// Declares the `len` bytes of the storage from `write_pos` on to be in
    /// use, as after a write through [`write_ptr`](Self::write_ptr).
    pub fn incr_write(&mut self, len: usize) -> (r: Result<(), BufferError>)
        ensures
            match r {
                Ok(()) => len <= old(self)@.available() && final(self)@ == old(self)@.committed(
                    len as nat,
                ),
                Err(e) => len > old(self)@.available() && e == BufferError::InsufficientSpace
                    && final(self)@ == old(self)@,
            },
            final(self)@.wf(),
    {
        proof {
            use_type_invariant(&*self);
        }
        if len > self.size - self.cur.used {
            return Err(BufferError::InsufficientSpace);
        }
        let write_pos: usize = self.wrap_pos(self.cur.write_pos, len);
        proof {
            arith::lemma_wrap_wrap(self@, self@.read_pos, self@.used, len as nat);
        }
        self.cur = Cursors { used: self.cur.used + len, read_pos: self.cur.read_pos, write_pos };
        Ok(())
    }

    /// Gives up the `len` oldest bytes without copying them.
    pub fn incr_read(&mut self, len: usize) -> (r: Result<(), BufferError>)
        ensures
            match r {
                Ok(()) => len <= old(self)@.used && final(self)@ == old(self)@.consumed(
                    len as nat,
                ),
                Err(e) => len > old(self)@.used && e == BufferError::BufferOverflow && final(self)@ == old(self)@,
            },
            final(self)@.wf(),
    {
        proof {
            use_type_invariant(&*self);
        }
        if len > self.cur.used {
            return Err(BufferError::BufferOverflow);
        }
        self.advance_read(len);
        Ok(())
    }

    /// Moves `read_pos` forward over the `n` oldest bytes.
    fn advance_read(&mut self, n: usize)
        requires
            n <= old(self)@.used,
        ensures
            final(self)@ == old(self)@.consumed(n as nat),
            final(self)@.wf(),
    {
        proof {
            use_type_invariant(&*self);
        }
        let read_pos: usize = self.wrap_pos(self.cur.read_pos, n);
        proof {
            arith::lemma_wrap_wrap(self@, self@.read_pos, n as nat, (self@.used - n) as nat);
            if self@.size > 0 {
                vstd::arithmetic::div_mod::lemma_mod_bound(
                    (self@.read_pos + n) as int,
                    self@.size as int,
                );
            }
        }
        self.cur = Cursors { used: self.cur.used - n, read_pos, write_pos: self.cur.write_pos };
    }

    /// Appends `data` to the bytes in use, all of it or nothing. The storage
    /// is allocated at the first write that is not empty.
    pub fn write(&mut self, data: &[u8]) -> (r: Result<usize, BufferError>)
        ensures
            match r {
                Ok(n) => n == data@.len() && data@.len() <= old(self)@.available() && final(self)@ == old(self)@.wrote(data@),
                Err(e) => data@.len() > old(self)@.available() && e
                    == BufferError::InsufficientSpace && final(self)@ == old(self)@,
            },
            final(self)@.wf(),
    {
        proof {
            use_type_invariant(&*self);
        }
        let n: usize = data.len();
        if n == 0 {
            return Ok(0);
        }
        if self.size - self.cur.used < n {
            return Err(BufferError::InsufficientSpace);
        }
        self.materialize();
        proof {
            use_type_invariant(&*self);
        }
        let start: usize = self.cur.write_pos;
        let until_end: usize = self.size - start;
        let first: usize = if n <= until_end { n } else { until_end };
        let mut slot: Option<Vec<u8>> = None;
        core::mem::swap(&mut self.data, &mut slot);
        let mut storage: Vec<u8> = slot.unwrap();
        overwrite(&mut storage, start, vstd::slice::slice_subrange(data, 0, first));
        if first < n {
            overwrite(&mut storage, 0, vstd::slice::slice_subrange(data, first, n));
        }
        let write_pos: usize = self.wrap_pos(start, n);
        proof {
            arith::lemma_laid_two_parts(old(self)@, start as nat, data@);
            arith::lemma_wrap_wrap(old(self)@, old(self)@.read_pos, old(self)@.used, n as nat);
        }
        self.data = Some(storage);
        self.cur = Cursors { used: self.cur.used + n, read_pos: self.cur.read_pos, write_pos };
        Ok(n)
    }

    /// Copies the oldest bytes into the front of `output`, as many as fit and
    /// are there, and leaves the ring as it is.
    pub fn peek(&self, output: &mut [u8]) -> (r: Result<usize, BufferError>)
        ensures
            r == Ok::<usize, BufferError>(self@.deliverable(old(output)@.len()) as usize),
            final(output)@ == overlay(old(output)@, 0, self@.delivered(old(output)@.len())),
    {
        proof {
            use_type_invariant(self);
        }
        let room: usize = output.len();
        let used: usize = self.cur.used;
        let read_pos: usize = self.cur.read_pos;
        match &self.data {
            Some(storage) => {
                let to_read: usize = if room <= used { room } else { used };
                if to_read == 0 {
                    assert(output@ =~= overlay(old(output)@, 0, self@.readable().subrange(0, 0)));
                    return Ok(0);
                }
                let until_end: usize = self.size - read_pos;
                let first: usize = if to_read <= until_end { to_read } else { until_end };
                extract(storage, read_pos, output, 0, first);
                if first < to_read {
                    extract(storage, 0, output, first, to_read - first);
                }
                proof {
                    arith::lemma_run_two_parts(self@, read_pos as nat, to_read as nat);
                    assert(self@.readable().subrange(0, to_read as int) =~= self@.run(
                        read_pos as nat,
                        to_read as nat,
                    ));
                    assert(output@ =~= overlay(
                        old(output)@,
                        0,
                        self@.readable().subrange(0, to_read as int),
                    ));
                }
                Ok(to_read)
            },
            None => {
                assert(output@ =~= overlay(old(output)@, 0, self@.readable().subrange(0, 0)));
                Ok(0)
            },
        }
    }

    /// Moves the oldest bytes into the front of `output`, as many as fit and
    /// are there. Nothing is read while the storage is not allocated.
    pub fn read(&mut self, output: &mut [u8]) -> (r: Result<usize, BufferError>)
        ensures
            r == Ok::<usize, BufferError>(old(self)@.deliverable(old(output)@.len()) as usize),
            final(output)@ == overlay(old(output)@, 0, old(self)@.delivered(old(output)@.len())),
            final(self)@ == old(self)@.after_read(old(output)@.len()),
            final(self)@.wf(),
    {
        proof {
            use_type_invariant(&*self);
        }
        let r = self.peek(output);
        match r {
            Ok(n) => {
                if n > 0 {
                    self.advance_read(n);
                } else {
                    proof {
                        if self@.size > 0 {
                            arith::lemma_wrap_once(self@.read_pos as int, self@.size as int);
                        }
                    }
                }
            },
            Err(_) => {},
        }
        r
    }

    /// Gives up all bytes in use and moves both positions to offset 0. The
    /// storage stays allocated, with its bytes.
    pub fn clear(&mut self)
        ensures
            final(self)@ == old(self)@.cleared(),
            final(self)@.wf(),
    {
        proof {
            use_type_invariant(&*self);
            if self@.size > 0 {
                arith::lemma_wrap_once(0, self@.size as int);
            }
        }
        self.cur = Cursors { used: 0, read_pos: 0, write_pos: 0 };
    }

    /// Overwrites the storage with zeros in place, releases it and gives up
    /// all bytes in use.
    pub fn free(&mut self)
        ensures
            final(self)@ == RingView::unallocated(old(self)@.size),
            final(self)@.wf(),
    {
        self.clear();
        proof {
            use_type_invariant(&*self);
        }
        let mut slot: Option<Vec<u8>> = None;
        core::mem::swap(&mut self.data, &mut slot);
        match slot {
            Some(storage) => {
                let mut storage = storage;
                wipe_from(&mut storage, 0);
            },
            None => {},
        }
    }

    /// Overwrites the storage with zeros in place, then gives the buffer up.
    pub fn burn_free(self) {
        let mut this = self;
        this.free();
    }

    /// Gives up all bytes in use and releases the storage, which is idle from
    /// then on, after overwriting it with zeros.
    pub fn clear_and_free_if_idle(&mut self)
        ensures
            final(self)@ == RingView::unallocated(old(self)@.size),
            final(self)@.wf(),
    {
        self.clear();
        if self.is_idle() {
            self.free();
        }
    }

    /// Overwrites the storage with zeros in place and gives up all bytes in
    /// use. The storage stays allocated.
    pub fn zero_in_place(&mut self)
        ensures
            final(self)@ == (RingView {
                size: old(self)@.size,
                used: 0,
                read_pos: 0,
                write_pos: 0,
                storage: if old(self)@.allocated() {
                    Some(zeros(old(self)@.size))
                } else {
                    None
                },
            }),
            final(self)@.wf(),
    {
        self.clear();
        proof {
            use_type_invariant(&*self);
        }
        wipe_slot(&mut self.data);
        proof {
            if self@.allocated() {
                assert(self@.storage->0 =~= zeros(old(self)@.size));
            }
        }
    }

    /// The memory statistics: of an allocated ring, every byte not in use
    /// counts as wasted.
    pub fn memory_stats(&self) -> (st: CircularBufferMemoryStats)
        ensures
            st.allocated == self@.allocated(),
            st.size == self@.size,
            st.used == self@.used,
            st.wasted == if self@.allocated() {
                self@.available()
            } else {
                0
            },
    {
        proof {
            use_type_invariant(self);
        }
        CircularBufferMemoryStats {
            allocated: self.data.is_some(),
            size: self.size,
            used: self.cur.used,
            wasted: if self.data.is_some() {
                self.size - self.cur.used
            } else {
                0
            },
        }
    }
}

impl Drop for CircularBuffer {
    /// Overwrites the storage with zeros in place before it is released.
    fn drop(&mut self)
        opens_invariants none
        no_unwind
    {
        proof {
            use_type_invariant(&*self);
        }
        wipe_slot(&mut self.data);
    }
}

} // verus!
