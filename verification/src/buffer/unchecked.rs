//! Reads and writes at the cursor for callers that have already checked the
//! bounds. Each states the bound as its precondition and then cannot fail.

use super::Buffer;
use crate::span::overwrite;
use crate::wire::be32;
use crate::wire::be32_value;
use crate::wire::be64;
use crate::wire::be64_value;
use crate::wire::decode_u32;
use crate::wire::encode_u32;
use crate::wire::encode_u64;
use crate::wire::join_u64;
use vstd::prelude::*;

verus! {

impl Buffer {
    /// Writes `bytes` at the cursor. The caller guarantees that they fit into
    /// the capacity.
    pub fn put_bytes_unchecked(&mut self, bytes: &[u8])
        requires
            old(self)@.pos + bytes@.len() <= old(self)@.capacity(),
        ensures
            final(self)@ == old(self)@.written(bytes@),
            final(self)@.wf(),
    {
        proof {
            use_type_invariant(&*self);
        }
        let start: usize = self.pos;
        assert(self.data@.len() == self.data.len());
        let end: usize = start + bytes.len();
        let len: usize = if self.len >= end { self.len } else { end };
        let mut data = self.take_storage();
        overwrite(&mut data, start, bytes);
        self.put_storage(data, end, len);
    }

    /// Reads `len` bytes at the cursor without copying them. The caller
    /// guarantees that so many valid bytes are left.
    pub fn get_bytes_unchecked(&mut self, len: usize) -> (s: &[u8])
        requires
            old(self)@.pos + len <= old(self)@.len,
        ensures
            s@ == old(self)@.window(len as nat),
            final(self)@ == old(self)@.advanced(len as nat),
            final(self)@.wf(),
    {
        proof {
            use_type_invariant(&*self);
        }
        let start: usize = self.pos;
        self.pos = start + len;
        vstd::slice::slice_subrange(self.data.as_slice(), start, start + len)
    }

    /// Writes `val` at the cursor, big-endian. The caller guarantees room for
    /// four bytes.
    pub fn put_u32_unchecked(&mut self, val: u32)
        requires
            old(self)@.pos + 4 <= old(self)@.capacity(),
        ensures
            final(self)@ == old(self)@.written(be32(val)),
            final(self)@.wf(),
    {
        let b: [u8; 4] = encode_u32(val);
        self.put_bytes_unchecked(b.as_slice());
    }

    /// Reads a big-endian `u32` at the cursor. The caller guarantees that four
    /// valid bytes are left.
    pub fn get_u32_unchecked(&mut self) -> (v: u32)
        requires
            old(self)@.pos + 4 <= old(self)@.len,
        ensures
            v == be32_value(old(self)@.window(4)),
            final(self)@ == old(self)@.advanced(4),
            final(self)@.wf(),
    {
        proof {
            use_type_invariant(&*self);
        }
        let p: usize = self.pos;
        let v: u32 = decode_u32(self.data[p], self.data[p + 1], self.data[p + 2], self.data[p + 3]);
        assert(seq![self.data@[p as int], self.data@[p + 1], self.data@[p + 2], self.data@[p + 3]]
            =~= self@.window(4));
        self.pos = p + 4;
        v
    }

    /// Writes `val` at the cursor, big-endian. The caller guarantees room for
    /// eight bytes.
    pub fn put_u64_unchecked(&mut self, val: u64)
        requires
            old(self)@.pos + 8 <= old(self)@.capacity(),
        ensures
            final(self)@ == old(self)@.written(be64(val)),
            final(self)@.wf(),
    {
        let b: [u8; 8] = encode_u64(val);
        self.put_bytes_unchecked(b.as_slice());
    }

    /// Reads a big-endian `u64` at the cursor. The caller guarantees that
    /// eight valid bytes are left.
    pub fn get_u64_unchecked(&mut self) -> (v: u64)
        requires
            old(self)@.pos + 8 <= old(self)@.len,
        ensures
            v == be64_value(old(self)@.window(8)),
            final(self)@ == old(self)@.advanced(8),
            final(self)@.wf(),
    {
        proof {
            use_type_invariant(&*self);
        }
        let p: usize = self.pos;
        let hi: u32 = decode_u32(self.data[p], self.data[p + 1], self.data[p + 2], self.data[p + 3]);
        let lo: u32 = decode_u32(
            self.data[p + 4],
            self.data[p + 5],
            self.data[p + 6],
            self.data[p + 7],
        );
        assert(seq![self.data@[p as int], self.data@[p + 1], self.data@[p + 2], self.data@[p + 3]]
            =~= self@.window(8).subrange(0, 4));
        assert(seq![self.data@[p + 4], self.data@[p + 5], self.data@[p + 6], self.data@[p + 7]]
            =~= self@.window(8).subrange(4, 8));
        self.pos = p + 8;
        join_u64(hi, lo)
    }
}

} // verus!
