//! Counters that threads share without a lock.
//!
//! The counters are atomic numbers that are read and changed with relaxed
//! ordering. Each change is exact, and a counter wraps around when it passes
//! the largest number it can hold. A value read while other threads are at
//! work may be out of date by the time it is used, so nothing is proved from
//! it.

use std::sync::atomic::AtomicUsize;
use std::sync::atomic::Ordering;
use vstd::prelude::*;

verus! {

/// A counter that starts at zero.
pub(crate) fn counter() -> AtomicUsize {
    AtomicUsize::new(0)
}

/// Adds one to `counter`.
pub(crate) fn count_up(counter: &AtomicUsize) {
    let _ = counter.fetch_add(1, Ordering::Relaxed);
}

/// Takes one from `counter`.
pub(crate) fn count_down(counter: &AtomicUsize) {
    let _ = counter.fetch_sub(1, Ordering::Relaxed);
}

/// The value of `counter` at the moment of the call.
pub(crate) fn count(counter: &AtomicUsize) -> usize {
    counter.load(Ordering::Relaxed)
}

} // verus!
