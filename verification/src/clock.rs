use vstd::prelude::*;

verus! {

use crate::consts::CHUNK_SIZE;

/// Monotonic sample counter for one render session.  It is advanced in
/// whole chunks by exactly one driver (the render loop, or the live
/// output callback); every node compares its cache stamp against it to
/// detect staleness.
pub struct Clock {
    time: u64,
}

/// What one advance does to the counter: it moves forward by exactly one
/// chunk length.
pub open spec fn advanced_once(t: int) -> int {
    t + CHUNK_SIZE as int
}

/// The counter after `n` advances from `t`.
pub open spec fn advanced(t: int, n: nat) -> int
    decreases n,
{
    if n == 0 {
        t
    } else {
        advanced_once(advanced(t, (n - 1) as nat))
    }
}

/// Clock additivity: advancing `n` times by the chunk size yields a total
/// elapsed time of exactly `n` times the chunk size.
pub proof fn lemma_clock_additivity(t: int, n: nat)
    ensures
        advanced(t, n) == t + n * CHUNK_SIZE,
    decreases n,
{
    if n == 0 {
        assert(advanced(t, 0) == t + 0 * CHUNK_SIZE) by (nonlinear_arith);
    } else {
        lemma_clock_additivity(t, (n - 1) as nat);
        assert((n - 1) * CHUNK_SIZE + CHUNK_SIZE == n * CHUNK_SIZE) by (nonlinear_arith);
    }
}

impl Clock {
    pub fn new() -> (c: Clock)
        ensures
            c.time() == 0,
    {
        Clock { time: 0 }
    }

    pub closed spec fn spec_time(&self) -> u64 {
        self.time
    }

    #[verifier::when_used_as_spec(spec_time)]
    pub fn time(&self) -> (t: u64)
        ensures
            t == self.spec_time(),
    {
        self.time
    }

    pub fn increment(&mut self)
        requires
            old(self).time() + CHUNK_SIZE <= u64::MAX,
        ensures
            final(self).time() == advanced_once(old(self).time() as int),
    {
        self.time = self.time + (CHUNK_SIZE as u64);
    }
}

} // verus!
