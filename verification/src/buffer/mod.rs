//! The linear buffer: a byte region with a cursor and a length of valid data.
//!
//! A [`Buffer`] owns a region of `capacity` bytes. The first `len` of them are
//! valid data, and the cursor `pos` marks where the next read or write
//! happens. At every moment `pos <= len <= capacity`.

use crate::erase::wipe_from;
use crate::erase::zeros;
use crate::error::BufferError;
use crate::span::overlay;
use crate::span::release_spare;
use crate::span::span_mut;
use vstd::prelude::*;

pub mod laws;
pub mod ops;
pub mod unchecked;

verus! {

/// The largest single increment of the cursor or the length.
pub const BUF_MAX_INCR: usize = 1_000_000_000;

/// The largest size a buffer can be created with or resized to.
pub const BUF_MAX_SIZE: usize = 1_000_000_000;

/// A capacity up to this many bytes is never called wasteful.
pub const WASTE_FLOOR: usize = 8192;

/// What a buffer is, mathematically: its whole region, the cursor and the
/// length of valid data.
pub struct BufferView {
    /// Every byte of the allocated region.
    pub bytes: Seq<u8>,
    /// The read/write cursor.
    pub pos: nat,
    /// The number of valid bytes, counted from the start of the region.
    pub len: nat,
}

impl BufferView {
    /// The invariant of every buffer: `pos <= len <= capacity`.
    pub open spec fn wf(self) -> bool {
        self.pos <= self.len <= self.bytes.len()
    }

    /// The size of the region.
    pub open spec fn capacity(self) -> nat {
        self.bytes.len()
    }

    /// The number of valid bytes from the cursor on.
    pub open spec fn remaining(self) -> nat {
        if self.pos <= self.len {
            (self.len - self.pos) as nat
        } else {
            0
        }
    }

    /// The valid data.
    pub open spec fn valid(self) -> Seq<u8> {
        self.bytes.subrange(0, self.len as int)
    }

    /// The `n` bytes at the cursor.
    pub open spec fn window(self, n: nat) -> Seq<u8> {
        self.bytes.subrange(self.pos as int, (self.pos + n) as int)
    }

    /// A region of `n` zero bytes with no valid data.
    pub open spec fn fresh(n: nat) -> BufferView {
        BufferView { bytes: zeros(n), pos: 0, len: 0 }
    }

    /// Whether nothing of an earlier use is left: all bytes are zero and the
    /// cursor and the length are zero.
    pub open spec fn is_clean(self) -> bool {
        self == Self::fresh(self.capacity())
    }

    /// The same region with the cursor at `pos`.
    pub open spec fn at(self, pos: nat) -> BufferView {
        BufferView { bytes: self.bytes, pos, len: self.len }
    }

    /// The same region with `len` valid bytes; a cursor beyond `len` is pulled
    /// back to it.
    pub open spec fn with_len(self, len: nat) -> BufferView {
        BufferView { bytes: self.bytes, pos: if self.pos <= len { self.pos } else { len }, len }
    }

    /// The same region with no valid data.
    pub open spec fn emptied(self) -> BufferView {
        BufferView { bytes: self.bytes, pos: 0, len: 0 }
    }

    /// After `src` was written at the cursor: the bytes are in place, the
    /// cursor is behind them, and the length reaches at least the cursor.
    pub open spec fn written(self, src: Seq<u8>) -> BufferView {
        BufferView {
            bytes: overlay(self.bytes, self.pos as int, src),
            pos: self.pos + src.len(),
            len: if self.len >= self.pos + src.len() {
                self.len
            } else {
                self.pos + src.len()
            },
        }
    }

    /// After `n` bytes were read at the cursor.
    pub open spec fn advanced(self, n: nat) -> BufferView {
        BufferView { bytes: self.bytes, pos: self.pos + n, len: self.len }
    }

    /// After the region was cut or grown to `n` bytes: a longer region ends in
    /// zeros, and cursor and length never exceed `n`.
    pub open spec fn resized(self, n: nat) -> BufferView {
        BufferView {
            bytes: if n <= self.bytes.len() {
                self.bytes.subrange(0, n as int)
            } else {
                self.bytes + zeros((n - self.bytes.len()) as nat)
            },
            pos: if self.pos <= n { self.pos } else { n },
            len: if self.len <= n { self.len } else { n },
        }
    }

    /// Writing `a` and then `b` is writing `a + b`.
    pub proof fn lemma_written_twice(self, a: Seq<u8>, b: Seq<u8>)
        requires
            self.pos + a.len() + b.len() <= self.capacity(),
        ensures
            self.written(a).written(b) == self.written(a + b),
    {
        assert(self.written(a).written(b).bytes =~= self.written(a + b).bytes);
    }

    /// Whether the capacity is more than four times the length and also above
    /// [`WASTE_FLOOR`].
    pub open spec fn wasteful(self) -> bool {
        self.capacity() > 4 * self.len && self.capacity() > WASTE_FLOOR
    }

    /// Whether a buffer of this capacity is cut down when trimmed to `target`.
    pub open spec fn trims_to(self, target: nat) -> bool {
        self.capacity() > 4 * target && self.capacity() > WASTE_FLOOR
    }
}

/// A linear byte buffer with a cursor. Its bytes are overwritten with zeros
/// when it is dropped.
pub struct Buffer {
    data: Vec<u8>,
    pos: usize,
    len: usize,
}

impl View for Buffer {
    type V = BufferView;

    closed spec fn view(&self) -> BufferView {
        BufferView { bytes: self.data@, pos: self.pos as nat, len: self.len as nat }
    }
}

impl Buffer {
    #[verifier::type_invariant]
    spec fn inv(self) -> bool {
        self.pos <= self.len <= self.data@.len()
    }

    /// Moves the storage out and leaves an empty buffer behind.
    fn take_storage(&mut self) -> (data: Vec<u8>)
        ensures
            data@ == old(self).data@,
            final(self).data@.len() == 0,
            final(self).pos == 0,
            final(self).len == 0,
    {
        proof {
            use_type_invariant(&*self);
        }
        self.pos = 0;
        self.len = 0;
        let mut data: Vec<u8> = Vec::new();
        core::mem::swap(&mut self.data, &mut data);
        data
    }

    /// Installs `data` as the storage of an empty buffer.
    fn put_storage(&mut self, data: Vec<u8>, pos: usize, len: usize)
        requires
            old(self).data@.len() == 0,
            pos <= len <= data@.len(),
        ensures
            final(self).data@ == data@,
            final(self).pos == pos,
            final(self).len == len,
    {
        proof {
            use_type_invariant(&*self);
        }
        let mut data = data;
        core::mem::swap(&mut self.data, &mut data);
        self.len = len;
        self.pos = pos;
    }

    /// A zero-filled buffer of `size` bytes, or `SizeTooBig` above
    /// [`BUF_MAX_SIZE`].
    pub fn try_new(size: usize) -> (r: Result<Buffer, BufferError>)
        ensures
            match r {
                Ok(b) => size <= BUF_MAX_SIZE && b@ == BufferView::fresh(size as nat) && b@.wf(),
                Err(e) => size > BUF_MAX_SIZE && e == BufferError::SizeTooBig,
            },
    {
        if size > BUF_MAX_SIZE {
            return Err(BufferError::SizeTooBig);
        }
        let data: Vec<u8> = vec![0u8; size];
        assert(data@ =~= zeros(size as nat));
        Ok(Buffer { data, pos: 0, len: 0 })
    }

    /// A zero-filled buffer of `size` bytes.
    pub fn new(size: usize) -> (b: Buffer)
        requires
            size <= BUF_MAX_SIZE,
        ensures
            b@ == BufferView::fresh(size as nat),
            b@.wf(),
    {
        let data: Vec<u8> = vec![0u8; size];
        assert(data@ =~= zeros(size as nat));
        Buffer { data, pos: 0, len: 0 }
    }

    /// A buffer whose region of `capacity` zero bytes is allocated at once and
    /// holds no valid data yet, or `SizeTooBig` above [`BUF_MAX_SIZE`].
    pub fn try_with_capacity(capacity: usize) -> (r: Result<Buffer, BufferError>)
        ensures
            match r {
                Ok(b) => capacity <= BUF_MAX_SIZE && b@ == BufferView::fresh(capacity as nat)
                    && b@.wf(),
                Err(e) => capacity > BUF_MAX_SIZE && e == BufferError::SizeTooBig,
            },
    {
        Self::try_new(capacity)
    }

    /// A buffer whose region of `capacity` zero bytes is allocated at once and
    /// holds no valid data yet.
    pub fn with_capacity(capacity: usize) -> (b: Buffer)
        requires
            capacity <= BUF_MAX_SIZE,
        ensures
            b@ == BufferView::fresh(capacity as nat),
            b@.wf(),
    {
        Self::new(capacity)
    }

    /// A buffer that takes `data` as its region: all of it is valid, and the
    /// cursor is at the start.
    pub fn from_vec(data: Vec<u8>) -> (b: Buffer)
        ensures
            b@ == (BufferView { bytes: data@, pos: 0, len: data@.len() }),
            b@.wf(),
    {
        let len: usize = data.len();
        Buffer { data, pos: 0, len }
    }

    /// The size of the region.
    pub fn capacity(&self) -> (n: usize)
        ensures
            n == self@.capacity(),
    {
        self.data.len()
    }

    /// The number of valid bytes.
    pub fn len(&self) -> (n: usize)
        ensures
            n == self@.len,
    {
        self.len
    }

    /// Whether the buffer holds no valid data.
    pub fn is_empty(&self) -> (b: bool)
        ensures
            b == (self@.len == 0),
    {
        self.len == 0
    }

    /// The cursor.
    pub fn pos(&self) -> (n: usize)
        ensures
            n == self@.pos,
    {
        self.pos
    }

    /// The number of valid bytes from the cursor on.
    pub fn remaining(&self) -> (n: usize)
        ensures
            n == self@.remaining(),
            n == self@.len - self@.pos,
    {
        proof {
            use_type_invariant(self);
        }
        self.len - self.pos
    }

    /// Whether at least `count` valid bytes lie at the cursor.
    pub fn has_remaining(&self, count: usize) -> (b: bool)
        ensures
            b == (self@.remaining() >= count),
    {
        self.remaining() >= count
    }

    /// Moves the cursor to `pos`, which must not lie beyond the valid data.
    pub fn set_pos(&mut self, pos: usize) -> (r: Result<(), BufferError>)
        ensures
            match r {
                Ok(()) => pos <= old(self)@.len && final(self)@ == old(self)@.at(pos as nat),
                Err(e) => pos > old(self)@.len && e == BufferError::PositionOutOfBounds
                    && final(self)@ == old(self)@,
            },
            final(self)@.wf(),
    {
        proof {
            use_type_invariant(&*self);
        }
        if pos > self.len {
            return Err(BufferError::PositionOutOfBounds);
        }
        self.pos = pos;
        Ok(())
    }

    /// Declares the first `len` bytes of the region valid. A cursor beyond
    /// `len` is pulled back to `len`.
    pub fn set_len(&mut self, len: usize) -> (r: Result<(), BufferError>)
        ensures
            match r {
                Ok(()) => len <= old(self)@.capacity() && final(self)@ == old(self)@.with_len(
                    len as nat,
                ),
                Err(e) => len > old(self)@.capacity() && e == BufferError::PositionOutOfBounds
                    && final(self)@ == old(self)@,
            },
            final(self)@.wf(),
    {
        proof {
            use_type_invariant(&*self);
        }
        if len > self.data.len() {
            return Err(BufferError::PositionOutOfBounds);
        }
        if self.pos > len {
            self.pos = len;
        }
        self.len = len;
        Ok(())
    }

    /// Moves the cursor forward by `n`, at most [`BUF_MAX_INCR`] at a time and
    /// not beyond the valid data.
    pub fn incr_pos(&mut self, n: usize) -> (r: Result<(), BufferError>)
        ensures
            match r {
                Ok(()) => n <= BUF_MAX_INCR && old(self)@.pos + n <= old(self)@.len && final(self)@ == old(self)@.advanced(n as nat),
                Err(e) => final(self)@ == old(self)@ && if n > BUF_MAX_INCR {
                    e == BufferError::IncrementTooLarge
                } else {
                    old(self)@.pos + n > old(self)@.len && e == BufferError::PositionOutOfBounds
                },
            },
            final(self)@.wf(),
    {
        proof {
            use_type_invariant(&*self);
        }
        if n > BUF_MAX_INCR {
            return Err(BufferError::IncrementTooLarge);
        }
        if n > self.len - self.pos {
            return Err(BufferError::PositionOutOfBounds);
        }
        self.pos = self.pos + n;
        Ok(())
    }

    /// Extends the valid data by `n` bytes, at most [`BUF_MAX_INCR`] at a time
    /// and not beyond the capacity.
    pub fn incr_len(&mut self, n: usize) -> (r: Result<(), BufferError>)
        ensures
            match r {
                Ok(()) => n <= BUF_MAX_INCR && old(self)@.len + n <= old(self)@.capacity()
                    && final(self)@ == old(self)@.with_len(old(self)@.len + n as nat),
                Err(e) => final(self)@ == old(self)@ && if n > BUF_MAX_INCR {
                    e == BufferError::IncrementTooLarge
                } else {
                    old(self)@.len + n > old(self)@.capacity() && e
                        == BufferError::PositionOutOfBounds
                },
            },
            final(self)@.wf(),
    {
        proof {
            use_type_invariant(&*self);
        }
        if n > BUF_MAX_INCR {
            return Err(BufferError::IncrementTooLarge);
        }
        if n > self.data.len() - self.len {
            return Err(BufferError::PositionOutOfBounds);
        }
        self.len = self.len + n;
        Ok(())
    }

    /// Extends the valid data by `n` bytes after a write through
    /// [`get_write_ptr`](Self::get_write_ptr); the same as
    /// [`incr_len`](Self::incr_len).
    pub fn incr_write_pos(&mut self, n: usize) -> (r: Result<(), BufferError>)
        ensures
            match r {
                Ok(()) => n <= BUF_MAX_INCR && old(self)@.len + n <= old(self)@.capacity()
                    && final(self)@ == old(self)@.with_len(old(self)@.len + n as nat),
                Err(e) => final(self)@ == old(self)@ && if n > BUF_MAX_INCR {
                    e == BufferError::IncrementTooLarge
                } else {
                    old(self)@.len + n > old(self)@.capacity() && e
                        == BufferError::PositionOutOfBounds
                },
            },
            final(self)@.wf(),
    {
        self.incr_len(n)
    }

    /// Forgets the valid data: cursor and length become zero, the bytes stay.
    pub fn reset(&mut self)
        ensures
            final(self)@ == old(self)@.emptied(),
            final(self)@.wf(),
    {
        proof {
            use_type_invariant(&*self);
        }
        self.pos = 0;
        self.len = 0;
    }

    /// Forgets the valid data; the same as [`reset`](Self::reset).
    pub fn clear(&mut self)
        ensures
            final(self)@ == old(self)@.emptied(),
            final(self)@.wf(),
    {
        self.reset()
    }

    /// Overwrites the whole region with zeros and forgets the valid data. The
    /// region keeps its size.
    pub fn burn(&mut self)
        ensures
            final(self)@ == BufferView::fresh(old(self)@.capacity()),
            final(self)@.is_clean(),
            final(self)@.wf(),
        opens_invariants none
        no_unwind
    {
        proof {
            use_type_invariant(&*self);
        }
        self.pos = 0;
        self.len = 0;
        wipe_from(&mut self.data, 0);
        assert(self.data@ =~= zeros(old(self).data@.len()));
    }

    /// Overwrites the whole region with zeros, then gives the buffer up.
    pub fn burn_free(self) {
        let mut this = self;
        this.burn();
    }

    /// Overwrites the whole region with zeros, then releases it: the buffer is
    /// left with capacity zero.
    pub fn burn_and_free_memory(&mut self)
        ensures
            final(self)@ == BufferView::fresh(0),
            final(self)@.wf(),
    {
        let mut data = self.take_storage();
        wipe_from(&mut data, 0);
        data.clear();
        release_spare(&mut data);
        self.put_storage(data, 0, 0);
        assert(self.data@ =~= zeros(0));
    }

    /// Forgets the valid data and, where the capacity is more than four times
    /// `target_size` and above [`WASTE_FLOOR`], replaces the region by
    /// `target_size` zero bytes after overwriting it with zeros.
    pub fn reset_and_trim(&mut self, target_size: usize)
        ensures
            final(self)@ == if old(self)@.trims_to(target_size as nat) {
                BufferView::fresh(target_size as nat)
            } else {
                old(self)@.emptied()
            },
            final(self)@.wf(),
    {
        self.reset();
        let cap: usize = self.data.len();
        let should_shrink: bool = cap > WASTE_FLOOR && cap / 4 >= target_size && (cap / 4
            > target_size || cap % 4 != 0);
        if should_shrink {
            let mut data = self.take_storage();
            wipe_from(&mut data, 0);
            data.truncate(target_size);
            release_spare(&mut data);
            self.put_storage(data, 0, 0);
            assert(self.data@ =~= zeros(target_size as nat));
        }
    }

    /// Overwrites the whole region with zeros and replaces it by `keep_size`
    /// zero bytes.
    pub fn aggressive_shrink(&mut self, keep_size: usize)
        ensures
            final(self)@ == BufferView::fresh(keep_size as nat),
            final(self)@.wf(),
    {
        let mut data = self.take_storage();
        wipe_from(&mut data, 0);
        let ghost wiped = data@;
        data.resize(keep_size, 0u8);
        assert forall|i: int| 0 <= i < keep_size implies data@[i] == 0u8 by {
            if i < wiped.len() && keep_size > wiped.len() {
                assert(data@.subrange(0, wiped.len() as int)[i] == data@[i]);
            }
        }
        release_spare(&mut data);
        self.put_storage(data, 0, 0);
        assert(self.data@ =~= zeros(keep_size as nat));
    }

    /// Whether the capacity is more than four times the length and above
    /// [`WASTE_FLOOR`].
    pub fn is_wasteful(&self) -> (b: bool)
        ensures
            b == self@.wasteful(),
    {
        let cap: usize = self.data.len();
        cap > WASTE_FLOOR && cap / 4 >= self.len && (cap / 4 > self.len || cap % 4 != 0)
    }

    /// The number of bytes of the region that hold no valid data.
    pub fn memory_overhead(&self) -> (n: usize)
        ensures
            n == self@.capacity() - self@.len,
    {
        proof {
            use_type_invariant(self);
        }
        self.data.len() - self.len
    }

    /// An independent copy of the buffer. The copy holds the same bytes, so it
    /// has to be erased on its own.
    pub fn clone_unsecure(&self) -> (b: Buffer)
        ensures
            b@ == self@,
            b@.wf(),
    {
        proof {
            use_type_invariant(self);
        }
        let data: Vec<u8> = self.data.clone();
        assert(data@ =~= self.data@);
        Buffer { data, pos: self.pos, len: self.len }
    }

    /// The valid data.
    pub fn as_slice(&self) -> (s: &[u8])
        ensures
            s@ == self@.valid(),
    {
        proof {
            use_type_invariant(self);
        }
        vstd::slice::slice_subrange(self.data.as_slice(), 0, self.len)
    }

    /// The valid data, open for writing in place. Cursor and length stay; the
    /// bytes behind the valid data stay too.
    pub fn as_mut_slice(&mut self) -> (s: &mut [u8])
        ensures
            s@ == old(self)@.valid(),
            final(s)@.len() == s@.len(),
            final(self)@ == (BufferView {
                bytes: overlay(old(self)@.bytes, 0, final(s)@),
                pos: old(self)@.pos,
                len: old(self)@.len,
            }),
            final(self)@.wf(),
    {
        proof {
            use_type_invariant(&*self);
        }
        let n: usize = self.len;
        span_mut(&mut self.data, 0, n)
    }

    /// Cuts or grows the region to `new_size` bytes. Bytes that are cut off
    /// are overwritten with zeros before they are released; bytes that are
    /// added are zero. Cursor and length are pulled back to `new_size` where
    /// they were beyond it.
    pub fn resize(&mut self, new_size: usize) -> (r: Result<(), BufferError>)
        ensures
            match r {
                Ok(()) => new_size <= BUF_MAX_SIZE && final(self)@ == old(self)@.resized(
                    new_size as nat,
                ),
                Err(e) => new_size > BUF_MAX_SIZE && e == BufferError::SizeTooBig && final(self)@
                    == old(self)@,
            },
            final(self)@.wf(),
    {
        proof {
            use_type_invariant(&*self);
        }
        if new_size > BUF_MAX_SIZE {
            return Err(BufferError::SizeTooBig);
        }
        let pos: usize = if self.pos <= new_size { self.pos } else { new_size };
        let len: usize = if self.len <= new_size { self.len } else { new_size };
        let mut data = self.take_storage();
        if new_size < data.len() {
            wipe_from(&mut data, new_size);
        }
        data.resize(new_size, 0u8);
        self.put_storage(data, pos, len);
        assert(self.data@ =~= old(self)@.resized(new_size as nat).bytes);
        Ok(())
    }

    /// Asks the allocator for room for `additional` more bytes, so that a later
    /// [`resize`](Self::resize) need not move the data. The region that the
    /// buffer works on stays as it is.
    pub fn reserve(&mut self, additional: usize)
        ensures
            final(self)@ == old(self)@,
            final(self)@.wf(),
    {
        proof {
            use_type_invariant(&*self);
        }
        let pos: usize = self.pos;
        let len: usize = self.len;
        let mut data = self.take_storage();
        let _ = data.try_reserve(additional);
        self.put_storage(data, pos, len);
    }

    /// Cuts the region down to the valid data. The bytes that are cut off are
    /// overwritten with zeros before they are released.
    pub fn shrink_to_fit(&mut self)
        ensures
            final(self)@ == old(self)@.resized(old(self)@.len),
            final(self)@.capacity() == old(self)@.len,
            final(self)@.wf(),
    {
        proof {
            use_type_invariant(&*self);
        }
        let pos: usize = self.pos;
        let len: usize = self.len;
        let mut data = self.take_storage();
        wipe_from(&mut data, len);
        data.truncate(len);
        release_spare(&mut data);
        self.put_storage(data, pos, len);
        assert(self.data@ =~= old(self)@.bytes.subrange(0, len as int));
    }
}

impl AsRef<[u8]> for Buffer {
    /// The valid data.
    fn as_ref(&self) -> (s: &[u8])
        ensures
            s@ == self@.valid(),
    {
        self.as_slice()
    }
}

impl Drop for Buffer {
    /// Overwrites the whole region with zeros before the memory is released.
    fn drop(&mut self)
        opens_invariants none
        no_unwind
    {
        proof {
            use_type_invariant(&*self);
        }
        wipe_from(&mut self.data, 0);
    }
}

} // verus!
