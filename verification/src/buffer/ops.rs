//! Checked reads and writes at the cursor.
//!
//! Writes are checked against the capacity and reads against the length of
//! valid data; each makes its check once and then works without further ones.
//! An operation that fails leaves the buffer as it was, except where a
//! length-prefixed string fails after its prefix: the prefix then stays
//! written, or read.

use super::Buffer;
use super::BufferView;
use crate::error::BufferError;
use crate::span::overlay;
use crate::span::span_mut;
use crate::wire::be32;
use crate::wire::be32_value;
use crate::wire::be64;
use crate::wire::be64_value;
use crate::wire::framed;
use crate::wire::MAX_STRING_LEN;
use vstd::prelude::*;

verus! {

/// The longest window that [`Buffer::get_ptr`] and [`Buffer::get_write_ptr`]
/// hand out.
pub const MAX_PTR_LEN: usize = 100_000_000;

/// The text that tells of a window of `len` bytes refused at the limit `max`:
/// `Requested slice length`, the length, `exceeds maximum`, the limit, with
/// both numbers in decimal.
pub uninterp spec fn window_limit_message(len: usize, max: usize) -> Seq<char>;

/// Makes the text of [`window_limit_message`] with `format!`, which writes the
/// two numbers in decimal into the sentence.
#[verifier::external_body]
fn window_limit_text(len: usize, max: usize) -> (text: String)
    ensures
        text@ == window_limit_message(len, max),
{
    format!("Requested slice length {} exceeds maximum {}", len, max)
}

impl BufferView {
    /// The length that the four bytes at the cursor announce.
    pub open spec fn announced(self) -> nat {
        be32_value(self.window(4)) as nat
    }
}

impl Buffer {
    /// Writes `val` at the cursor, big-endian.
    pub fn put_u32(&mut self, val: u32) -> (r: Result<(), BufferError>)
        ensures
            match r {
                Ok(()) => old(self)@.pos + 4 <= old(self)@.capacity() && final(self)@ == old(self)@.written(be32(val)),
                Err(e) => old(self)@.pos + 4 > old(self)@.capacity() && e
                    == BufferError::BufferOverflow && final(self)@ == old(self)@,
            },
            final(self)@.wf(),
    {
        proof {
            use_type_invariant(&*self);
        }
        if self.capacity() - self.pos() < 4 {
            return Err(BufferError::BufferOverflow);
        }
        self.put_u32_unchecked(val);
        Ok(())
    }

    /// Reads a big-endian `u32` at the cursor.
    pub fn get_u32(&mut self) -> (r: Result<u32, BufferError>)
        ensures
            match r {
                Ok(v) => old(self)@.pos + 4 <= old(self)@.len && v == be32_value(
                    old(self)@.window(4),
                ) && final(self)@ == old(self)@.advanced(4),
                Err(e) => old(self)@.pos + 4 > old(self)@.len && e == BufferError::BufferOverflow
                    && final(self)@ == old(self)@,
            },
            final(self)@.wf(),
    {
        proof {
            use_type_invariant(&*self);
        }
        if self.remaining() < 4 {
            return Err(BufferError::BufferOverflow);
        }
        Ok(self.get_u32_unchecked())
    }

    /// Writes `val` at the cursor, big-endian.
    pub fn put_u64(&mut self, val: u64) -> (r: Result<(), BufferError>)
        ensures
            match r {
                Ok(()) => old(self)@.pos + 8 <= old(self)@.capacity() && final(self)@ == old(self)@.written(be64(val)),
                Err(e) => old(self)@.pos + 8 > old(self)@.capacity() && e
                    == BufferError::BufferOverflow && final(self)@ == old(self)@,
            },
            final(self)@.wf(),
    {
        proof {
            use_type_invariant(&*self);
        }
        if self.capacity() - self.pos() < 8 {
            return Err(BufferError::BufferOverflow);
        }
        self.put_u64_unchecked(val);
        Ok(())
    }

    /// Reads a big-endian `u64` at the cursor.
    pub fn get_u64(&mut self) -> (r: Result<u64, BufferError>)
        ensures
            match r {
                Ok(v) => old(self)@.pos + 8 <= old(self)@.len && v == be64_value(
                    old(self)@.window(8),
                ) && final(self)@ == old(self)@.advanced(8),
                Err(e) => old(self)@.pos + 8 > old(self)@.len && e == BufferError::BufferOverflow
                    && final(self)@ == old(self)@,
            },
            final(self)@.wf(),
    {
        proof {
            use_type_invariant(&*self);
        }
        if self.remaining() < 8 {
            return Err(BufferError::BufferOverflow);
        }
        Ok(self.get_u64_unchecked())
    }

    /// Writes `bytes` at the cursor.
    pub fn put_bytes(&mut self, bytes: &[u8]) -> (r: Result<(), BufferError>)
        ensures
            match r {
                Ok(()) => old(self)@.pos + bytes@.len() <= old(self)@.capacity() && final(self)@
                    == old(self)@.written(bytes@),
                Err(e) => old(self)@.pos + bytes@.len() > old(self)@.capacity() && e
                    == BufferError::BufferOverflow && final(self)@ == old(self)@,
            },
            final(self)@.wf(),
    {
        proof {
            use_type_invariant(&*self);
        }
        if self.capacity() - self.pos() < bytes.len() {
            return Err(BufferError::BufferOverflow);
        }
        self.put_bytes_unchecked(bytes);
        Ok(())
    }

    /// Writes `bytes` at the cursor; the same as [`put_bytes`](Self::put_bytes).
    pub fn put_bytes_fast(&mut self, bytes: &[u8]) -> (r: Result<(), BufferError>)
        ensures
            match r {
                Ok(()) => old(self)@.pos + bytes@.len() <= old(self)@.capacity() && final(self)@
                    == old(self)@.written(bytes@),
                Err(e) => old(self)@.pos + bytes@.len() > old(self)@.capacity() && e
                    == BufferError::BufferOverflow && final(self)@ == old(self)@,
            },
            final(self)@.wf(),
    {
        self.put_bytes(bytes)
    }

    /// Reads `len` bytes at the cursor into a vector of their own.
    pub fn get_bytes(&mut self, len: usize) -> (r: Result<Vec<u8>, BufferError>)
        ensures
            match r {
                Ok(v) => old(self)@.pos + len <= old(self)@.len && v@ == old(self)@.window(
                    len as nat,
                ) && final(self)@ == old(self)@.advanced(len as nat),
                Err(e) => old(self)@.pos + len > old(self)@.len && e
                    == BufferError::BufferOverflow && final(self)@ == old(self)@,
            },
            final(self)@.wf(),
    {
        proof {
            use_type_invariant(&*self);
        }
        if self.remaining() < len {
            return Err(BufferError::BufferOverflow);
        }
        let bytes = self.get_bytes_unchecked(len);
        Ok(vstd::slice::slice_to_vec(bytes))
    }

    /// Reads `len` bytes at the cursor without copying them.
    pub fn get_bytes_ref(&mut self, len: usize) -> (r: Result<&[u8], BufferError>)
        ensures
            match r {
                Ok(s) => old(self)@.pos + len <= old(self)@.len && s@ == old(self)@.window(
                    len as nat,
                ) && final(self)@ == old(self)@.advanced(len as nat),
                Err(e) => old(self)@.pos + len > old(self)@.len && e
                    == BufferError::BufferOverflow && final(self)@ == old(self)@,
            },
            final(self)@.wf(),
    {
        proof {
            use_type_invariant(&*self);
        }
        if self.remaining() < len {
            return Err(BufferError::BufferOverflow);
        }
        Ok(self.get_bytes_unchecked(len))
    }

    /// The `len` valid bytes at the cursor, which stays where it is. A window
    /// longer than [`MAX_PTR_LEN`] is refused as `InvalidData`.
    pub fn get_ptr(&self, len: usize) -> (r: Result<&[u8], BufferError>)
        ensures
            match r {
                Ok(s) => len <= MAX_PTR_LEN && self@.pos + len <= self@.len && s@
                    == self@.window(len as nat),
                Err(e) => if len > MAX_PTR_LEN {
                    e matches BufferError::InvalidData(m) && m@ == window_limit_message(
                        len,
                        MAX_PTR_LEN,
                    )
                } else {
                    self@.pos + len > self@.len && e == BufferError::BufferOverflow
                },
            },
    {
        proof {
            use_type_invariant(self);
        }
        if len > MAX_PTR_LEN {
            return Err(BufferError::InvalidData(window_limit_text(len, MAX_PTR_LEN)));
        }
        if self.len - self.pos < len {
            return Err(BufferError::BufferOverflow);
        }
        Ok(vstd::slice::slice_subrange(self.data.as_slice(), self.pos, self.pos + len))
    }

    /// The `len` bytes of the region at the cursor, open for writing in place.
    /// Cursor and length stay where they are: after writing, the caller
    /// extends the length with [`incr_write_pos`](Self::incr_write_pos). A
    /// window longer than [`MAX_PTR_LEN`] is refused as `InvalidData`.
    pub fn get_write_ptr(&mut self, len: usize) -> (r: Result<&mut [u8], BufferError>)
        ensures
            match r {
                Ok(s) => len <= MAX_PTR_LEN && old(self)@.pos + len <= old(self)@.capacity()
                    && s@ == old(self)@.window(len as nat) && final(s)@.len() == len && final(self)@ == (BufferView {
                    bytes: overlay(old(self)@.bytes, old(self)@.pos as int, final(s)@),
                    pos: old(self)@.pos,
                    len: old(self)@.len,
                }),
                Err(e) => final(self)@ == old(self)@ && if len > MAX_PTR_LEN {
                    e matches BufferError::InvalidData(m) && m@ == window_limit_message(
                        len,
                        MAX_PTR_LEN,
                    )
                } else {
                    old(self)@.pos + len > old(self)@.capacity() && e
                        == BufferError::BufferOverflow
                },
            },
            final(self)@.wf(),
    {
        proof {
            use_type_invariant(&*self);
        }
        if len > MAX_PTR_LEN {
            return Err(BufferError::InvalidData(window_limit_text(len, MAX_PTR_LEN)));
        }
        if self.data.len() - self.pos < len {
            return Err(BufferError::BufferOverflow);
        }
        let start: usize = self.pos;
        Ok(span_mut(&mut self.data, start, start + len))
    }

    /// Writes one byte at the cursor.
    pub fn put_byte(&mut self, val: u8) -> (r: Result<(), BufferError>)
        ensures
            match r {
                Ok(()) => old(self)@.pos < old(self)@.capacity() && final(self)@ == old(self)@.written(seq![val]),
                Err(e) => old(self)@.pos >= old(self)@.capacity() && e
                    == BufferError::BufferOverflow && final(self)@ == old(self)@,
            },
            final(self)@.wf(),
    {
        proof {
            use_type_invariant(&*self);
        }
        if self.pos >= self.data.len() {
            return Err(BufferError::BufferOverflow);
        }
        let p: usize = self.pos;
        self.data[p] = val;
        if p + 1 > self.len {
            self.len = p + 1;
        }
        self.pos = p + 1;
        assert(self.data@ =~= overlay(old(self).data@, p as int, seq![val]));
        Ok(())
    }

    /// Reads one byte at the cursor.
    pub fn get_byte(&mut self) -> (r: Result<u8, BufferError>)
        ensures
            match r {
                Ok(b) => old(self)@.pos < old(self)@.len && b == old(self)@.bytes[old(self)@.pos as int] && final(self)@ == old(self)@.advanced(1),
                Err(e) => old(self)@.pos >= old(self)@.len && e == BufferError::BufferOverflow
                    && final(self)@ == old(self)@,
            },
            final(self)@.wf(),
    {
        proof {
            use_type_invariant(&*self);
        }
        if self.pos >= self.len {
            return Err(BufferError::BufferOverflow);
        }
        let byte: u8 = self.data[self.pos];
        self.pos = self.pos + 1;
        Ok(byte)
    }

    /// Reads one byte at the cursor as a truth value: zero is `false`, every
    /// other byte `true`.
    pub fn get_bool(&mut self) -> (r: Result<bool, BufferError>)
        ensures
            match r {
                Ok(b) => old(self)@.pos < old(self)@.len && b == (old(self)@.bytes[old(self)@.pos as int] != 0) && final(self)@ == old(self)@.advanced(1),
                Err(e) => old(self)@.pos >= old(self)@.len && e == BufferError::BufferOverflow
                    && final(self)@ == old(self)@,
            },
            final(self)@.wf(),
    {
        match self.get_byte() {
            Ok(b) => Ok(b != 0),
            Err(e) => Err(e),
        }
    }

    /// Writes `s` at the cursor as a length-prefixed string. A string longer
    /// than [`MAX_STRING_LEN`] is refused before anything is written. Where
    /// the prefix fits and the string does not, the prefix stays written.
    pub fn put_string(&mut self, s: &[u8]) -> (r: Result<(), BufferError>)
        ensures
            match r {
                Ok(()) => s@.len() <= MAX_STRING_LEN && old(self)@.pos + 4 + s@.len() <= old(self)@.capacity() && final(self)@ == old(self)@.written(framed(s@)),
                Err(e) => if s@.len() > MAX_STRING_LEN {
                    e == BufferError::InvalidString && final(self)@ == old(self)@
                } else if old(self)@.pos + 4 > old(self)@.capacity() {
                    e == BufferError::BufferOverflow && final(self)@ == old(self)@
                } else {
                    old(self)@.pos + 4 + s@.len() > old(self)@.capacity() && e
                        == BufferError::BufferOverflow && final(self)@ == old(self)@.written(
                        be32(s@.len() as u32),
                    )
                },
            },
            final(self)@.wf(),
    {
        proof {
            use_type_invariant(&*self);
        }
        if s.len() > MAX_STRING_LEN {
            return Err(BufferError::InvalidString);
        }
        match self.put_u32(s.len() as u32) {
            Ok(()) => {},
            Err(e) => {
                return Err(e);
            },
        }
        let r = self.put_bytes(s);
        proof {
            if r is Ok {
                old(self)@.lemma_written_twice(be32(s@.len() as u32), s@);
            }
        }
        r
    }

    /// Reads a length-prefixed string at the cursor. Where the prefix can be
    /// read and the string cannot, the cursor stays behind the prefix.
    pub fn get_string(&mut self) -> (r: Result<Vec<u8>, BufferError>)
        ensures
            match r {
                Ok(v) => old(self)@.pos + 4 <= old(self)@.len && old(self)@.announced()
                    <= MAX_STRING_LEN && old(self)@.pos + 4 + old(self)@.announced() <= old(self)@.len && v@ == old(self)@.advanced(4).window(old(self)@.announced()) && final(self)@ == old(self)@.advanced(4 + old(self)@.announced()),
                Err(e) => if old(self)@.pos + 4 > old(self)@.len {
                    e == BufferError::BufferOverflow && final(self)@ == old(self)@
                } else if old(self)@.announced() > MAX_STRING_LEN {
                    e == BufferError::InvalidString && final(self)@ == old(self)@.advanced(4)
                } else {
                    old(self)@.pos + 4 + old(self)@.announced() > old(self)@.len && e
                        == BufferError::BufferOverflow && final(self)@ == old(self)@.advanced(4)
                },
            },
            final(self)@.wf(),
    {
        proof {
            use_type_invariant(&*self);
        }
        let len: usize = match self.get_u32() {
            Ok(n) => n as usize,
            Err(e) => {
                return Err(e);
            },
        };
        if len > MAX_STRING_LEN {
            return Err(BufferError::InvalidString);
        }
        self.get_bytes(len)
    }

    /// Skips a length-prefixed string at the cursor. Where the prefix can be
    /// read and the string is not all there, the cursor stays behind the
    /// prefix.
    pub fn eat_string(&mut self) -> (r: Result<(), BufferError>)
        ensures
            match r {
                Ok(()) => old(self)@.pos + 4 <= old(self)@.len && old(self)@.announced()
                    <= MAX_STRING_LEN && old(self)@.pos + 4 + old(self)@.announced() <= old(self)@.len && final(self)@ == old(self)@.advanced(4 + old(self)@.announced()),
                Err(e) => if old(self)@.pos + 4 > old(self)@.len {
                    e == BufferError::BufferOverflow && final(self)@ == old(self)@
                } else if old(self)@.announced() > MAX_STRING_LEN {
                    e == BufferError::InvalidString && final(self)@ == old(self)@.advanced(4)
                } else {
                    old(self)@.pos + 4 + old(self)@.announced() > old(self)@.len && e
                        == BufferError::PositionOutOfBounds && final(self)@ == old(self)@.advanced(4)
                },
            },
            final(self)@.wf(),
    {
        proof {
            use_type_invariant(&*self);
        }
        let len: usize = match self.get_u32() {
            Ok(n) => n as usize,
            Err(e) => {
                return Err(e);
            },
        };
        if len > MAX_STRING_LEN {
            return Err(BufferError::InvalidString);
        }
        self.incr_pos(len)
    }
}

} // verus!
