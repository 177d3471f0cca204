//! Arithmetic of ring offsets.

use super::RingView;
use crate::span::overlay;
use vstd::arithmetic::div_mod::lemma_add_mod_noop_right;
use vstd::arithmetic::div_mod::lemma_fundamental_div_mod_converse;
use vstd::arithmetic::div_mod::lemma_mod_bound;
use vstd::prelude::*;

verus! {

/// A number below twice the modulus wraps at most once.
pub proof fn lemma_wrap_once(x: int, m: int)
    requires
        0 < m,
        0 <= x < 2 * m,
    ensures
        x % m == if x < m {
            x
        } else {
            x - m
        },
{
    if x < m {
        lemma_fundamental_div_mod_converse(x, m, 0, x);
    } else {
        lemma_fundamental_div_mod_converse(x, m, 1, x - m);
    }
}

/// Walking `a` steps and then `b` steps is walking `a + b` steps.
pub proof fn lemma_wrap_wrap(v: RingView, pos: nat, a: nat, b: nat)
    ensures
        v.wrap(v.wrap(pos, a), b) == v.wrap(pos, a + b),
{
    if v.size > 0 {
        let m = v.size as int;
        let x = (pos + a) as int;
        lemma_add_mod_noop_right(b as int, x, m);
        lemma_mod_bound(x, m);
        assert((x % m + b) % m == (x + b) % m);
    }
}

/// The ring offset that lies `i` steps after `from` is `i` steps after `from`
/// and no fewer.
pub proof fn lemma_steps_back(size: int, from: int, i: int)
    requires
        0 < size,
        0 <= from < size,
        0 <= i < size,
    ensures
        ((from + i) % size - from + size) % size == i,
{
    lemma_wrap_once(from + i, size);
    if from + i < size {
        lemma_wrap_once(i + size, size);
    } else {
        lemma_wrap_once(i, size);
    }
}

/// Laying bytes into the ring is at most two plain copies: one from `from` up
/// to the end of the ring, and one from offset 0 for what is left.
pub proof fn lemma_laid_two_parts(v: RingView, from: nat, src: Seq<u8>)
    requires
        0 < v.size,
        from < v.size,
        src.len() <= v.size,
        v.cells().len() == v.size,
    ensures
        ({
            let first = if src.len() <= v.size - from {
                src.len() as int
            } else {
                v.size - from
            };
            let head = overlay(v.cells(), from as int, src.subrange(0, first));
            v.laid(from, src) == if first < src.len() {
                overlay(head, 0, src.subrange(first, src.len() as int))
            } else {
                head
            }
        }),
{
    let size = v.size as int;
    let first = if src.len() <= v.size - from {
        src.len() as int
    } else {
        v.size - from
    };
    let head = overlay(v.cells(), from as int, src.subrange(0, first));
    let both = if first < src.len() {
        overlay(head, 0, src.subrange(first, src.len() as int))
    } else {
        head
    };
    assert forall|j: int| 0 <= j < size implies v.laid(from, src)[j] == both[j] by {
        lemma_wrap_once(j - from + size, size);
    }
    assert(v.laid(from, src) =~= both);
}

/// A walk through the ring is at most two plain runs of the storage.
pub proof fn lemma_run_two_parts(v: RingView, from: nat, n: nat)
    requires
        0 < v.size,
        from < v.size,
        n <= v.size,
        v.cells().len() == v.size,
    ensures
        v.run(from, n) == if n <= v.size - from {
            v.cells().subrange(from as int, (from + n) as int)
        } else {
            v.cells().subrange(from as int, v.size as int) + v.cells().subrange(
                0,
                n - (v.size - from),
            )
        },
{
    let parts = if n <= v.size - from {
        v.cells().subrange(from as int, (from + n) as int)
    } else {
        v.cells().subrange(from as int, v.size as int) + v.cells().subrange(
            0,
            n - (v.size - from),
        )
    };
    assert forall|i: int| 0 <= i < n implies v.run(from, n)[i] == parts[i] by {
        lemma_wrap_once(from + i, v.size as int);
    }
    assert(v.run(from, n) =~= parts);
}

} // verus!
