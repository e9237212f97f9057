use vstd::prelude::*;

verus! {

use crate::consts::SAMPLE_RATE;

/// Samples in `n` quarter notes at `bpm` beats per minute: `60/bpm`
/// seconds per beat, times the sample rate, truncated to an integer.
pub open spec fn quarter_samples(n: int, bpm: int) -> int
    recommends
        bpm >= 1,
{
    (60 * SAMPLE_RATE * n) / bpm
}

/// Samples in `n` bars of 4/4 time: four quarter notes per bar.
pub open spec fn bar_samples(n: int, bpm: int) -> int
    recommends
        bpm >= 1,
{
    (240 * SAMPLE_RATE * n) / bpm
}

/// Samples in `n` eighth notes: half a quarter note each.
pub open spec fn eigth_samples(n: int, bpm: int) -> int
    recommends
        bpm >= 1,
{
    (30 * SAMPLE_RATE * n) / bpm
}

/// Samples in `n` sixteenth notes: a quarter of a quarter note each.
pub open spec fn sixteenth_samples(n: int, bpm: int) -> int
    recommends
        bpm >= 1,
{
    (15 * SAMPLE_RATE * n) / bpm
}

/// Converts musical positions under a fixed 4/4 meter to absolute sample
/// timestamps.  Each addition returns a new calculator so call sites can
/// chain additions without mutating a shared instance.
pub struct TimeCalculator {
    sample_time: u64,
    bpm: u64,
}

impl TimeCalculator {
    pub closed spec fn spec_time(&self) -> u64 {
        self.sample_time
    }

    pub closed spec fn spec_bpm(&self) -> u64 {
        self.bpm
    }

    pub closed spec fn wf(&self) -> bool {
        self.bpm >= 1
    }

    pub fn new(bpm: u64) -> (c: TimeCalculator)
        requires
            bpm >= 1,
        ensures
            c.wf(),
            c.spec_time() == 0,
            c.spec_bpm() == bpm,
    {
        TimeCalculator { sample_time: 0, bpm }
    }

    #[verifier::when_used_as_spec(spec_time)]
    pub fn time(&self) -> (t: u64)
        ensures
            t == self.spec_time(),
    {
        self.sample_time
    }

    pub fn add_seconds(&self, seconds: u64) -> (r: TimeCalculator)
        requires
            self.wf(),
            self.spec_time() + SAMPLE_RATE * seconds <= u64::MAX,
        ensures
            r.wf(),
            r.spec_bpm() == self.spec_bpm(),
            r.spec_time() == self.spec_time() + SAMPLE_RATE * seconds,
    {
        proof {
            assert((SAMPLE_RATE as int) * (seconds as int) <= u64::MAX as int);
        }
        let p: u128 = (SAMPLE_RATE as u128) * (seconds as u128);
        TimeCalculator { sample_time: self.sample_time + (p as u64), bpm: self.bpm }
    }

    pub fn add_quarters(&self, quarters: u64) -> (r: TimeCalculator)
        requires
            self.wf(),
            self.spec_time() + quarter_samples(quarters as int, self.spec_bpm() as int)
                <= u64::MAX,
        ensures
            r.wf(),
            r.spec_bpm() == self.spec_bpm(),
            r.spec_time() == self.spec_time()
                + quarter_samples(quarters as int, self.spec_bpm() as int),
    {
        let d: u64 = scaled_beat_samples(60 * SAMPLE_RATE, quarters, self.bpm);
        TimeCalculator { sample_time: self.sample_time + d, bpm: self.bpm }
    }

    pub fn add_bars(&self, bars: u64) -> (r: TimeCalculator)
        requires
            self.wf(),
            self.spec_time() + bar_samples(bars as int, self.spec_bpm() as int) <= u64::MAX,
        ensures
            r.wf(),
            r.spec_bpm() == self.spec_bpm(),
            r.spec_time() == self.spec_time() + bar_samples(bars as int, self.spec_bpm() as int),
    {
        let d: u64 = scaled_beat_samples(240 * SAMPLE_RATE, bars, self.bpm);
        TimeCalculator { sample_time: self.sample_time + d, bpm: self.bpm }
    }

    pub fn add_eigths(&self, eigths: u64) -> (r: TimeCalculator)
        requires
            self.wf(),
            self.spec_time() + eigth_samples(eigths as int, self.spec_bpm() as int) <= u64::MAX,
        ensures
            r.wf(),
            r.spec_bpm() == self.spec_bpm(),
            r.spec_time() == self.spec_time()
                + eigth_samples(eigths as int, self.spec_bpm() as int),
    {
        let d: u64 = scaled_beat_samples(30 * SAMPLE_RATE, eigths, self.bpm);
        TimeCalculator { sample_time: self.sample_time + d, bpm: self.bpm }
    }

    pub fn add_sixteenths(&self, sixteenths: u64) -> (r: TimeCalculator)
        requires
            self.wf(),
            self.spec_time() + sixteenth_samples(sixteenths as int, self.spec_bpm() as int)
                <= u64::MAX,
        ensures
            r.wf(),
            r.spec_bpm() == self.spec_bpm(),
            r.spec_time() == self.spec_time()
                + sixteenth_samples(sixteenths as int, self.spec_bpm() as int),
    {
        let d: u64 = scaled_beat_samples(15 * SAMPLE_RATE, sixteenths, self.bpm);
        TimeCalculator { sample_time: self.sample_time + d, bpm: self.bpm }
    }
}

/// `(mult * n) / bpm` computed without intermediate overflow.
fn scaled_beat_samples(mult: u64, n: u64, bpm: u64) -> (r: u64)
    requires
        bpm >= 1,
        mult <= 0x1_0000_0000,
        (mult as int * n as int) / (bpm as int) <= u64::MAX,
    ensures
        r as int == (mult as int * n as int) / (bpm as int),
{
    proof {
        assert((mult as int) * (n as int) <= 0x1_0000_0000 * 0xffff_ffff_ffff_ffffint)
            by (nonlinear_arith)
            requires
                0 <= mult <= 0x1_0000_0000,
                0 <= n <= 0xffff_ffff_ffff_ffffint,
        ;
    }
    let p: u128 = (mult as u128) * (n as u128);
    let d: u128 = p / (bpm as u128);
    d as u64
}

} // verus!
