//! The source of request identifiers.

use crate::types::RequestId;
use std::sync::atomic::AtomicUsize;
use std::sync::atomic::Ordering;
use std::sync::Arc;
use vstd::prelude::*;

verus! {

/// Hands out request identifiers from one shared counter.
///
/// The counter starts at zero and every allocation takes its current value and
/// advances it by one, in a single atomic step. Clones share the counter, so
/// an identifier taken through one clone is never handed out through another.
///
/// The counter wraps around after `usize::MAX`: a process must not allocate
/// more than `usize::MAX` identifiers from one allocator.
pub struct RequestIdAllocator {
    counter: Arc<AtomicUsize>,
}

/// `Arc::clone`: another pointer to the same allocation, here to the same
/// counter.
#[verifier::external_body]
fn share(counter: &Arc<AtomicUsize>) -> (shared: Arc<AtomicUsize>)
    ensures
        shared == *counter,
{
    Arc::clone(counter)
}

impl Clone for RequestIdAllocator {
    /// Another handle on the same allocator: both draw on one counter.
    fn clone(&self) -> (copy: RequestIdAllocator)
        ensures
            copy == *self,
    {
        RequestIdAllocator { counter: share(&self.counter) }
    }
}

impl RequestIdAllocator {
    /// A fresh allocator, whose first identifier is zero.
    pub fn new() -> RequestIdAllocator {
        RequestIdAllocator { counter: Arc::new(AtomicUsize::new(0)) }
    }

    /// Takes the next identifier. Never blocks and never fails.
    ///
    /// The value returned is whatever the shared counter held at the moment of
    /// the atomic read-and-increment. It depends on every other holder of the
    /// counter, so no contract can say which value it is.
    pub fn next(&self) -> RequestId {
        self.counter.fetch_add(1, Ordering::AcqRel)
    }
}

} // verus!
