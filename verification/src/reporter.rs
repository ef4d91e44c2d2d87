//! The rate reporter's tick logic.
//!
//! The reporter polls the shared counter once per second from its own thread
//! and renders a smoothed throughput figure. The polling loop, the sleep and
//! the rendering live outside the library; this module holds the decision
//! taken on each tick: compare the freshly loaded count against the last
//! observed one, and either emit a new rate sample (count changed) or extend
//! the elapsed-tick tally (count unchanged). The reporter only ever reads the
//! counter: it has no way to affect the engine.

use vstd::prelude::*;

verus! {

/// One throughput sample: `bytes` moved over `ticks` whole ticks since the
/// count last changed. The rate to render is `bytes` per `ticks` seconds.
#[derive(Clone, Copy, Debug, PartialEq, Eq, Structural)]
pub struct RateSample {
    /// Bytes moved since the previously observed count.
    pub bytes: u64,
    /// Whole ticks elapsed since the count last changed, at least one.
    pub ticks: u64,
}

/// The reporter's own state between ticks: the counter value observed when the
/// count last changed, and the ticks elapsed since.
pub struct Reporter {
    last: u64,
    ticks: u64,
}

impl Reporter {
    /// The counter value observed when the count last changed.
    pub closed spec fn last(&self) -> u64 {
        self.last
    }

    /// Whole ticks elapsed since the count last changed.
    pub closed spec fn ticks(&self) -> u64 {
        self.ticks
    }

    /// A fresh reporter: nothing observed yet, one tick elapsed.
    pub fn new() -> (r: Reporter)
        ensures
            r.last() == 0,
            r.ticks() == 1,
    {
        Reporter { last: 0, ticks: 1 }
    }

    /// One tick: `count` is the counter value just loaded. The count never
    /// decreases, so `count` is at least the last observed value.
    ///
    /// If the count changed, the tick emits a sample of the bytes moved since
    /// the last change over the ticks that change took, remembers the new
    /// count and resets the tally to one. If it is unchanged, the tick emits
    /// nothing and extends the tally, so the next sample averages over the
    /// whole stretch since the last change.
    pub fn tick(&mut self, count: u64) -> (r: Option<RateSample>)
        requires
            old(self).last() <= count,
        ensures
            count != old(self).last() ==> {
                &&& r == Some(
                    RateSample {
                        bytes: (count - old(self).last()) as u64,
                        ticks: old(self).ticks(),
                    },
                )
                &&& final(self).last() == count
                &&& final(self).ticks() == 1
            },
            count == old(self).last() ==> {
                &&& r is None
                &&& final(self).last() == old(self).last()
                &&& final(self).ticks() == if old(self).ticks() == u64::MAX {
                    u64::MAX
                } else {
                    (old(self).ticks() + 1) as u64
                }
            },
    {
        if count != self.last {
            let sample = RateSample { bytes: count - self.last, ticks: self.ticks };
            self.last = count;
            self.ticks = 1;
            Some(sample)
        } else {
            if self.ticks != u64::MAX {
                self.ticks = self.ticks + 1;
            }
            None
        }
    }
}

} // verus!
