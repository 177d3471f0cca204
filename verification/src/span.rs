//! Copies between byte runs, and mutable windows into a vector.

use vstd::prelude::*;

verus! {

/// `dst` with the bytes from offset `at` on replaced by `src`.
pub open spec fn overlay(dst: Seq<u8>, at: int, src: Seq<u8>) -> Seq<u8>
    recommends
        0 <= at,
        at + src.len() <= dst.len(),
{
    dst.subrange(0, at) + src + dst.subrange(at + src.len(), dst.len() as int)
}

/// The mutable window `data[from..to]`, by the slice index operator of std.
/// While the window is borrowed the bytes outside it cannot change, and a
/// slice cannot change its length, so afterwards `data` is its old self with
/// the window's final bytes in place. The range is in bounds, so the operator
/// does not panic.
#[verifier::external_body]
pub(crate) fn span_mut(data: &mut Vec<u8>, from: usize, to: usize) -> (s: &mut [u8])
    requires
        from <= to <= old(data)@.len(),
    ensures
        s@ == old(data)@.subrange(from as int, to as int),
        final(s)@.len() == s@.len(),
        final(data)@ == overlay(old(data)@, from as int, final(s)@),
    opens_invariants none
    no_unwind
{
    &mut data[from..to]
}

/// Hands the spare allocation of `items` back through `Vec::shrink_to_fit`,
/// which leaves the elements as they are.
#[verifier::external_body]
pub(crate) fn release_spare<T>(items: &mut Vec<T>)
    ensures
        final(items)@ == old(items)@,
{
    items.shrink_to_fit();
}

/// Copies `src` over `dst[at..at + src.len()]`.
pub(crate) fn overwrite(dst: &mut Vec<u8>, at: usize, src: &[u8])
    requires
        at + src@.len() <= old(dst)@.len(),
    ensures
        final(dst)@ == overlay(old(dst)@, at as int, src@),
{
    let n: usize = src.len();
    assert(dst@.len() == dst.len());
    let mut i: usize = 0;
    while i < n
        invariant
            i <= n,
            n == src@.len(),
            at + n <= dst@.len() <= usize::MAX,
            dst@.len() == old(dst)@.len(),
            forall|k: int| 0 <= k < at ==> dst@[k] == old(dst)@[k],
            forall|k: int| at <= k < at + i ==> dst@[k] == src@[k - at],
            forall|k: int| at + i <= k < dst@.len() ==> dst@[k] == old(dst)@[k],
        decreases n - i,
    {
        dst[at + i] = src[i];
        i = i + 1;
    }
    assert(dst@ =~= overlay(old(dst)@, at as int, src@));
}

/// Copies `src[from..from + n]` over `dst[at..at + n]`.
pub(crate) fn extract(src: &Vec<u8>, from: usize, dst: &mut [u8], at: usize, n: usize)
    requires
        from + n <= src@.len(),
        at + n <= old(dst)@.len(),
    ensures
        final(dst)@ == overlay(old(dst)@, at as int, src@.subrange(from as int, from + n)),
{
    assert(src@.len() == src.len() && dst@.len() == dst.len());
    let mut i: usize = 0;
    while i < n
        invariant
            i <= n,
            from + n <= src@.len() <= usize::MAX,
            at + n <= dst@.len() <= usize::MAX,
            dst@.len() == old(dst)@.len(),
            forall|k: int| 0 <= k < at ==> dst@[k] == old(dst)@[k],
            forall|k: int| at <= k < at + i ==> dst@[k] == src@[from + k - at],
            forall|k: int| at + i <= k < dst@.len() ==> dst@[k] == old(dst)@[k],
        decreases n - i,
    {
        dst[at + i] = src[from + i];
        i = i + 1;
    }
    assert(dst@ =~= overlay(old(dst)@, at as int, src@.subrange(from as int, from + n)));
}

} // verus!
