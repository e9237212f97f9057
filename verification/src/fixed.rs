//! Fixed-point sample arithmetic.
//!
//! Every signal value in the graph is an `i64` holding a 48.16 fixed-point
//! number: full scale (an amplitude of one) is `FP_ONE`.  All per-sample
//! operations are total — they saturate at the representation's bounds
//! instead of failing — so the per-tick hot path can never raise an error.

use vstd::prelude::*;

verus! {

/// Fixed-point scale: the representation of amplitude 1.0.
pub const FP_ONE: i64 = 65536;

/// Fixed-point representation of amplitude 0.5.
pub const FP_HALF: i64 = 32768;

/// Clamping into the representable `i64` range.
pub open spec fn sat64(x: int) -> int {
    if x > i64::MAX {
        i64::MAX as int
    } else if x < i64::MIN {
        i64::MIN as int
    } else {
        x
    }
}

/// Division truncated toward zero (the rounding of a hardware divide),
/// for a positive divisor.
pub open spec fn tdiv(p: int, d: int) -> int
    recommends
        d > 0,
{
    if p >= 0 {
        p / d
    } else {
        -((-p) / d)
    }
}

/// Remainder with the sign of the dividend (the rounding companion of
/// `tdiv`), for a positive divisor.
pub open spec fn trem(p: int, d: int) -> int
    recommends
        d > 0,
{
    if p >= 0 {
        p % d
    } else {
        -((-p) % d)
    }
}

/// The product of two fixed-point values: the wide product scaled back
/// down, truncated toward zero, saturated into `i64`.
pub open spec fn fp_mul_spec(a: int, b: int) -> int {
    sat64(tdiv(a * b, FP_ONE as int))
}

/// Saturating addition of two samples.
pub fn sat_add(a: i64, b: i64) -> (r: i64)
    ensures
        r as int == sat64(a as int + b as int),
{
    match a.checked_add(b) {
        Some(v) => v,
        None => {
            if a < 0 {
                i64::MIN
            } else {
                i64::MAX
            }
        },
    }
}

/// Fixed-point multiplication, truncated toward zero and saturating.
pub fn fp_mul(a: i64, b: i64) -> (r: i64)
    ensures
        r as int == fp_mul_spec(a as int, b as int),
{
    proof {
        assert((a as int) * (b as int) <= 0x4000_0000_0000_0000_0000_0000_0000_0000int
            && (a as int) * (b as int) >= -0x4000_0000_0000_0000_0000_0000_0000_0000int)
            by (nonlinear_arith)
            requires
                -0x8000_0000_0000_0000int <= a as int <= 0x7fff_ffff_ffff_ffffint,
                -0x8000_0000_0000_0000int <= b as int <= 0x7fff_ffff_ffff_ffffint,
        ;
    }
    let p: i128 = (a as i128) * (b as i128);
    if p >= 0 {
        let q: u128 = (p as u128) / 65536;
        if q >= 0x8000_0000_0000_0000u128 {
            i64::MAX
        } else {
            q as i64
        }
    } else {
        let q: u128 = ((-p) as u128) / 65536;
        if q >= 0x8000_0000_0000_0000u128 {
            i64::MIN
        } else {
            -(q as i64)
        }
    }
}

/// Truncation of a fixed-point value by an integer divisor (used to scale
/// an oscillator increment down by the sample rate).
pub fn tdiv_i64(a: i64, d: u64) -> (r: i64)
    requires
        0 < d <= 0x7fff_ffff_ffff_ffff,
    ensures
        r as int == tdiv(a as int, d as int),
{
    if a >= 0 {
        let q: u64 = (a as u64) / d;
        q as i64
    } else if a == i64::MIN {
        let q: u64 = 0x8000_0000_0000_0000u64 / d;
        if q == 0x8000_0000_0000_0000u64 {
            i64::MIN
        } else {
            -(q as i64)
        }
    } else {
        let q: u64 = ((-a) as u64) / d;
        -(q as i64)
    }
}

/// Wrap of a fixed-point value modulo a positive bound, keeping the sign
/// of the value (used to wrap an oscillator's phase at the table length).
pub fn trem_i64(a: i64, d: i64) -> (r: i64)
    requires
        d >= 1,
    ensures
        r as int == trem(a as int, d as int),
        -d < r < d,
{
    if a >= 0 {
        let q: u64 = (a as u64) % (d as u64);
        q as i64
    } else if a == i64::MIN {
        let q: u64 = 0x8000_0000_0000_0000u64 % (d as u64);
        -(q as i64)
    } else {
        let q: u64 = ((-a) as u64) % (d as u64);
        -(q as i64)
    }
}

/// The buffer index a fixed-point position selects in a table of `len`
/// entries: the integer part, saturated into `[0, len)` the way a float
/// position cast to an index saturates.
pub open spec fn fp_index_spec(pos: int, len: int) -> int
    recommends
        len > 0,
{
    if pos < 0 {
        0
    } else if pos / (FP_ONE as int) >= len {
        len - 1
    } else {
        pos / (FP_ONE as int)
    }
}

/// Index selection for a fixed-point position (see `fp_index_spec`).
pub fn fp_index(pos: i64, len: usize) -> (i: usize)
    requires
        len > 0,
    ensures
        i as int == fp_index_spec(pos as int, len as int),
        i < len,
{
    if pos < 0 {
        0
    } else {
        let q: u64 = (pos as u64) / 65536;
        if q >= len as u64 {
            len - 1
        } else {
            q as usize
        }
    }
}

} // verus!
