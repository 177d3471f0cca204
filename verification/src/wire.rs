//! The wire form of fixed-width integers: unsigned, big-endian.

use vstd::arithmetic::div_mod::lemma_fundamental_div_mod_converse;
use vstd::prelude::*;

verus! {

/// The four bytes of `v`, most significant first.
pub open spec fn be32(v: u32) -> Seq<u8> {
    seq![
        (v / 0x100_0000) as u8,
        (v / 0x1_0000 % 0x100) as u8,
        (v / 0x100 % 0x100) as u8,
        (v % 0x100) as u8,
    ]
}

/// The number whose big-endian form is the first four bytes of `s`.
pub open spec fn be32_value(s: Seq<u8>) -> u32
    recommends
        s.len() >= 4,
{
    (s[0] as int * 0x100_0000 + s[1] as int * 0x1_0000 + s[2] as int * 0x100 + s[3] as int) as u32
}

/// The eight bytes of `v`, most significant first.
pub open spec fn be64(v: u64) -> Seq<u8> {
    be32((v / 0x1_0000_0000) as u32) + be32((v % 0x1_0000_0000) as u32)
}

/// The number whose big-endian form is the first eight bytes of `s`.
pub open spec fn be64_value(s: Seq<u8>) -> u64
    recommends
        s.len() >= 8,
{
    (be32_value(s.subrange(0, 4)) as int * 0x1_0000_0000 + be32_value(s.subrange(4, 8)) as int) as u64
}

/// The longest byte string that the length-prefixed framing carries.
pub const MAX_STRING_LEN: usize = 400_000;

/// A length-prefixed string on the wire: the length as four big-endian bytes,
/// then the bytes themselves.
pub open spec fn framed(s: Seq<u8>) -> Seq<u8>
    recommends
        s.len() <= MAX_STRING_LEN,
{
    be32(s.len() as u32) + s
}

/// Decoding undoes encoding, for four bytes.
pub proof fn lemma_be32_value_of_be32(v: u32)
    ensures
        be32(v).len() == 4,
        be32_value(be32(v)) == v,
{
}

/// Encoding undoes decoding, for four bytes.
pub proof fn lemma_be32_of_be32_value(s: Seq<u8>)
    requires
        s.len() == 4,
    ensures
        be32(be32_value(s)) == s,
{
    let a = s[0] as int;
    let b = s[1] as int;
    let c = s[2] as int;
    let d = s[3] as int;
    let n = a * 0x100_0000 + b * 0x1_0000 + c * 0x100 + d;
    assert(0 <= n <= u32::MAX);
    assert(n / 0x100_0000 == a && n / 0x1_0000 % 0x100 == b && n / 0x100 % 0x100 == c && n % 0x100
        == d) by {
        lemma_digits(a, b, c, d);
    }
    assert(be32(be32_value(s)) =~= s);
}

proof fn lemma_digits(a: int, b: int, c: int, d: int)
    requires
        0 <= a < 0x100,
        0 <= b < 0x100,
        0 <= c < 0x100,
        0 <= d < 0x100,
    ensures
        ({
            let n = a * 0x100_0000 + b * 0x1_0000 + c * 0x100 + d;
            &&& n / 0x100_0000 == a
            &&& n / 0x1_0000 % 0x100 == b
            &&& n / 0x100 % 0x100 == c
            &&& n % 0x100 == d
        }),
{
    let n = a * 0x100_0000 + b * 0x1_0000 + c * 0x100 + d;
    lemma_fundamental_div_mod_converse(n, 0x100_0000, a, b * 0x1_0000 + c * 0x100 + d);
    lemma_fundamental_div_mod_converse(n, 0x1_0000, a * 0x100 + b, c * 0x100 + d);
    lemma_fundamental_div_mod_converse(a * 0x100 + b, 0x100, a, b);
    lemma_fundamental_div_mod_converse(n, 0x100, a * 0x1_0000 + b * 0x100 + c, d);
    lemma_fundamental_div_mod_converse(a * 0x1_0000 + b * 0x100 + c, 0x100, a * 0x100 + b, c);
}

/// Decoding undoes encoding, for eight bytes.
pub proof fn lemma_be64_value_of_be64(v: u64)
    ensures
        be64(v).len() == 8,
        be64_value(be64(v)) == v,
{
    let hi = (v / 0x1_0000_0000) as u32;
    let lo = (v % 0x1_0000_0000) as u32;
    lemma_be32_value_of_be32(hi);
    lemma_be32_value_of_be32(lo);
    assert(be64(v).subrange(0, 4) =~= be32(hi));
    assert(be64(v).subrange(4, 8) =~= be32(lo));
}

/// Encoding undoes decoding, for eight bytes.
pub proof fn lemma_be64_of_be64_value(s: Seq<u8>)
    requires
        s.len() == 8,
    ensures
        be64(be64_value(s)) == s,
{
    let hi = be32_value(s.subrange(0, 4));
    let lo = be32_value(s.subrange(4, 8));
    let n = hi as int * 0x1_0000_0000 + lo as int;
    lemma_fundamental_div_mod_converse(n, 0x1_0000_0000, hi as int, lo as int);
    assert(be64_value(s) == n);
    assert((be64_value(s) / 0x1_0000_0000) as u32 == hi);
    assert((be64_value(s) % 0x1_0000_0000) as u32 == lo);
    lemma_be32_of_be32_value(s.subrange(0, 4));
    lemma_be32_of_be32_value(s.subrange(4, 8));
    assert(s =~= s.subrange(0, 4) + s.subrange(4, 8));
}

/// The big-endian bytes of `v`.
pub(crate) fn encode_u32(v: u32) -> (b: [u8; 4])
    ensures
        b@ == be32(v),
{
    let b0: u8 = (v >> 24) as u8;
    let b1: u8 = ((v >> 16) & 0xff) as u8;
    let b2: u8 = ((v >> 8) & 0xff) as u8;
    let b3: u8 = (v & 0xff) as u8;
    assert(v >> 24 == v / 0x100_0000 && (v >> 16) & 0xff == v / 0x1_0000 % 0x100 && (v >> 8) & 0xff
        == v / 0x100 % 0x100 && v & 0xff == v % 0x100) by (bit_vector);
    let b: [u8; 4] = [b0, b1, b2, b3];
    assert(b@ =~= be32(v));
    b
}

/// The number that four big-endian bytes stand for.
pub(crate) fn decode_u32(b0: u8, b1: u8, b2: u8, b3: u8) -> (v: u32)
    ensures
        v == be32_value(seq![b0, b1, b2, b3]),
{
    let v: u32 = ((b0 as u32) << 24) | ((b1 as u32) << 16) | ((b2 as u32) << 8) | (b3 as u32);
    assert(((b0 as u32) << 24) | ((b1 as u32) << 16) | ((b2 as u32) << 8) | (b3 as u32) == (b0 as u32)
        * 0x100_0000 + (b1 as u32) * 0x1_0000 + (b2 as u32) * 0x100 + (b3 as u32)) by (bit_vector);
    v
}

/// The big-endian bytes of `v`.
pub(crate) fn encode_u64(v: u64) -> (b: [u8; 8])
    ensures
        b@ == be64(v),
{
    let hi: u32 = (v >> 32) as u32;
    let lo: u32 = (v & 0xffff_ffff) as u32;
    assert(v >> 32 == v / 0x1_0000_0000 && v & 0xffff_ffff == v % 0x1_0000_0000) by (bit_vector);
    let h: [u8; 4] = encode_u32(hi);
    let l: [u8; 4] = encode_u32(lo);
    let b: [u8; 8] = [h[0], h[1], h[2], h[3], l[0], l[1], l[2], l[3]];
    assert(b@ =~= be64(v));
    b
}

/// The number that the two big-endian halves `hi` and `lo` stand for.
pub(crate) fn join_u64(hi: u32, lo: u32) -> (v: u64)
    ensures
        v == hi as int * 0x1_0000_0000 + lo as int,
{
    let v: u64 = ((hi as u64) << 32) | (lo as u64);
    assert(((hi as u64) << 32) | (lo as u64) == (hi as u64) * 0x1_0000_0000 + (lo as u64))
        by (bit_vector);
    v
}

} // verus!
