//! The shared progress counter, as the engine and the reporter see it.
//!
//! The running process keeps the counter in an atomic cell shared between two
//! threads; this module captures the value and the operations on it. The one
//! invariant is monotonicity: the count of bytes moved never decreases.

use vstd::prelude::*;

verus! {

/// Write access to the progress counter: the engine's side. The engine only
/// ever adds to the count; the reporter's side only loads it.
pub trait ProgressCounter {
    /// The count of bytes recorded so far.
    spec fn count(&self) -> u64;

    /// Add `n` bytes to the count; the count never decreases.
    fn fetch_add(&mut self, n: u64)
        requires
            old(self).count() + n <= u64::MAX,
        ensures
            final(self).count() == old(self).count() + n,
    ;
}

/// A monotonically increasing count of bytes that have left the engine's
/// control into the output.
pub struct ByteCounter {
    value: u64,
}

impl ByteCounter {
    /// The current count.
    pub closed spec fn view(&self) -> u64 {
        self.value
    }

    /// A fresh counter starts at zero.
    pub fn new() -> (r: ByteCounter)
        ensures
            r@ == 0,
    {
        ByteCounter { value: 0 }
    }

    /// Read the current count.
    pub fn load(&self) -> (r: u64)
        ensures
            r == self@,
    {
        self.value
    }
}

impl ProgressCounter for ByteCounter {
    open spec fn count(&self) -> u64 {
        self.view()
    }

    fn fetch_add(&mut self, n: u64) {
        self.value = self.value + n;
    }
}

} // verus!
