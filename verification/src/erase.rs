//! Secure erasure: overwriting bytes with zeros in a way the compiler keeps.

use vstd::prelude::*;
use zeroize::Zeroize;

verus! {

/// A run of `n` zero bytes.
pub open spec fn zeros(n: nat) -> Seq<u8> {
    Seq::new(n, |i: int| 0u8)
}

/// Whether every byte of `s` is zero.
pub open spec fn all_zero(s: Seq<u8>) -> bool {
    forall|i: int| 0 <= i < s.len() ==> s[i] == 0u8
}

/// Overwrites `data[from..]` with zeros by `Zeroize::zeroize` on that byte
/// slice, which writes each byte with a volatile store. The bytes before
/// `from` and the length stay as they were. The call does not unwind: its only
/// assertion is that the slice is no longer than `isize::MAX`, which holds of
/// every slice.
#[verifier::external_body]
pub(crate) fn wipe_from(data: &mut Vec<u8>, from: usize)
    requires
        from <= old(data)@.len(),
    ensures
        final(data)@ == old(data)@.subrange(0, from as int) + zeros(
            (old(data)@.len() - from) as nat,
        ),
    opens_invariants none
    no_unwind
{
    data[from..].zeroize();
}

} // verus!
