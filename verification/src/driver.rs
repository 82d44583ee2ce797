//! The attempt counter of one chain, with its safety-valve check.
//!
//! `ChainMiddleware::run` drives a whole chain itself; a host that must
//! interleave the engine's decisions with work of its own (an asynchronous
//! transport, say) creates one `ChainDriver` per chain and consults it
//! around every send: attempt only while `may_attempt` allows it, and
//! count each send with `record_attempt`. The driver keeps the counter and
//! the limit; the safety valve fires strictly before any attempt past the
//! maximum.

use vstd::prelude::*;

verus! {

/// One chain's attempt counter and maximum chain length. The counter never
/// passes the maximum.
pub struct ChainDriver {
    attempts: u32,
    max: u32,
}

impl ChainDriver {
    /// How many send attempts have been recorded.
    pub closed spec fn spec_attempts(&self) -> u32 {
        self.attempts
    }

    /// The maximum chain length this driver enforces.
    pub closed spec fn spec_max(&self) -> u32 {
        self.max
    }

    /// A fresh counter for one chain, set to zero, bounded by `max`.
    pub fn new(max: u32) -> (d: Self)
        ensures
            d.spec_attempts() == 0,
            d.spec_max() == max,
    {
        ChainDriver { attempts: 0, max }
    }

    /// Whether another send attempt is allowed, i.e. the counter has not
    /// reached the maximum chain length. When this returns false the chain
    /// must terminate with the chain-length-exceeded error.
    pub fn may_attempt(&self) -> (r: bool)
        ensures
            r == (self.spec_attempts() < self.spec_max()),
    {
        self.attempts < self.max
    }

    /// Count one send attempt. Callers attempt a send only after
    /// `may_attempt` allowed it.
    pub fn record_attempt(&mut self)
        requires
            old(self).spec_attempts() < old(self).spec_max(),
        ensures
            final(self).spec_attempts() == old(self).spec_attempts() + 1,
            final(self).spec_max() == old(self).spec_max(),
    {
        self.attempts = self.attempts + 1;
    }

    /// How many send attempts have been recorded so far.
    pub fn attempts(&self) -> (r: u32)
        ensures
            r == self.spec_attempts(),
    {
        self.attempts
    }
}

} // verus!
