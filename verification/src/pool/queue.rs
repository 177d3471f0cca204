//! The shared collection of idle buffers: a lock-free queue and a count.

use super::counter::count;
use super::counter::count_down;
use super::counter::count_up;
use super::counter::counter;
use crate::buffer::Buffer;
use crossbeam::queue::SegQueue;
use std::sync::atomic::AtomicUsize;
use vstd::prelude::*;

verus! {

/// `crossbeam::queue::SegQueue`, an unbounded lock-free queue. Nothing of
/// what is inside it is visible here.
#[verifier::external_type_specification]
#[verifier::external_body]
#[verifier::reject_recursive_types(T)]
pub struct ExSegQueue<T>(SegQueue<T>);

/// `SegQueue::new` makes an empty queue. Nothing is stated of it.
pub assume_specification<T>[ SegQueue::<T>::new ]() -> SegQueue<T>;

/// `SegQueue::push` adds a value at the tail. Other threads push and pop at
/// the same time, so nothing is stated of the queue afterwards.
pub assume_specification<T>[ SegQueue::<T>::push ](queue: &SegQueue<T>, value: T);

/// `SegQueue::pop` takes the value at the head, or returns `None` where the
/// queue is empty. Other threads push and pop at the same time, so nothing is
/// stated of which way it goes, nor of the value.
pub assume_specification<T>[ SegQueue::<T>::pop ](queue: &SegQueue<T>) -> Option<T>;

/// A lock-free queue of buffers with a count of them. The count is changed
/// right after each push and pop, not together with it, so it is the length
/// of the queue only while no other thread is at work.
pub(crate) struct LockFreeQueue {
    items: SegQueue<Buffer>,
    size: AtomicUsize,
}

impl LockFreeQueue {
    /// An empty queue.
    pub(crate) fn new() -> LockFreeQueue {
        LockFreeQueue { items: SegQueue::new(), size: counter() }
    }

    /// Adds `item` at the tail.
    pub(crate) fn push(&self, item: Buffer) {
        self.items.push(item);
        count_up(&self.size);
    }

    /// Takes the buffer at the head, if there is one.
    pub(crate) fn pop(&self) -> Option<Buffer> {
        let item = self.items.pop();
        if item.is_some() {
            count_down(&self.size);
        }
        item
    }

    /// The count of buffers at the moment of the call.
    pub(crate) fn len(&self) -> usize {
        count(&self.size)
    }
}

} // verus!
