use vstd::prelude::*;

verus! {

use crate::consts::CHUNK_SIZE;
use crate::fixed::{sat64, tdiv, fp_mul_spec, sat_add, fp_mul, FP_ONE, FP_HALF};

/// The −3 dB center attenuation of the constant-power pan law,
/// `10^(-3/20) ≈ 0.7079`, at the fixed-point scale.
pub const PAN_CENTER_GAIN: i64 = 46396;

/// A waveshaper that clamps every sample into `[-FP_ONE, FP_ONE]`.
pub struct HardClipper {}

/// Hard clipping: anything above full scale maps to full scale, anything
/// below negative full scale maps to negative full scale, everything in
/// between passes through unchanged.
pub open spec fn clip_spec(s: int) -> int {
    if s > FP_ONE {
        FP_ONE as int
    } else if s < -FP_ONE {
        -FP_ONE as int
    } else {
        s
    }
}

impl HardClipper {
    pub fn new() -> (c: HardClipper) {
        HardClipper {  }
    }

    pub fn shape(&self, sample: i64) -> (r: i64)
        ensures
            r == clip_spec(sample as int),
    {
        if sample > FP_ONE {
            FP_ONE
        } else if sample < -FP_ONE {
            -FP_ONE
        } else {
            sample
        }
    }
}

/// The sum a mixer produces at offset `j`: the inputs' samples at `j`,
/// added left to right with saturation.
pub open spec fn mix_sample(inputs: Seq<Seq<i64>>, j: int) -> int
    decreases inputs.len(),
{
    if inputs.len() == 0 {
        0
    } else {
        sat64(mix_sample(inputs.drop_last(), j) + inputs.last()[j])
    }
}

/// The squared pan position, the control value of the pan law.
pub open spec fn pan_squared(p: int) -> int {
    fp_mul_spec(p, p)
}

/// Gain of the channel the position points away from:
/// `a − p²·a`, zero at the extremes.
pub open spec fn pan_near_gain(p: int) -> int {
    PAN_CENTER_GAIN - fp_mul_spec(pan_squared(p), PAN_CENTER_GAIN as int)
}

/// Gain of the channel the position points toward:
/// `a + p²·(1 − a)`, one at the extremes.
pub open spec fn pan_far_gain(p: int) -> int {
    sat64(PAN_CENTER_GAIN + fp_mul_spec(pan_squared(p), FP_ONE - PAN_CENTER_GAIN))
}

/// The left output sample of the pan node for position `p`.
pub open spec fn pan_left_spec(p: int, l: int) -> int {
    if p > 0 {
        fp_mul_spec(l, pan_near_gain(p))
    } else {
        fp_mul_spec(l, pan_far_gain(p))
    }
}

/// The right output sample of the pan node for position `p`.
pub open spec fn pan_right_spec(p: int, r: int) -> int {
    if p > 0 {
        fp_mul_spec(r, pan_far_gain(p))
    } else {
        fp_mul_spec(r, pan_near_gain(p))
    }
}

/// A square is never negative, so the fixed-point square is in
/// `[0, i64::MAX]`.
pub proof fn lemma_pan_squared_bounds(p: int)
    requires
        i64::MIN <= p <= i64::MAX,
    ensures
        0 <= pan_squared(p) <= i64::MAX,
{
    assert(p * p >= 0) by (nonlinear_arith);
}

/// A fixed-point product of two non-negative values is non-negative.
pub proof fn lemma_fp_mul_nonneg(a: int, b: int)
    requires
        a >= 0,
        b >= 0,
    ensures
        0 <= fp_mul_spec(a, b) <= i64::MAX,
{
    assert(a * b >= 0) by (nonlinear_arith)
        requires
            a >= 0,
            b >= 0,
    ;
}

/// One chunk of a constant control signal.
pub fn const_chunk(value: i64) -> (out: Vec<i64>)
    ensures
        out@.len() == CHUNK_SIZE,
        forall|j: int| 0 <= j < CHUNK_SIZE ==> #[trigger] out@[j] == value,
{
    let mut out: Vec<i64> = Vec::new();
    let mut j: usize = 0;
    while j < CHUNK_SIZE
        invariant
            j <= CHUNK_SIZE,
            out@.len() == j,
            forall|k: int| 0 <= k < j ==> #[trigger] out@[k] == value,
        decreases CHUNK_SIZE - j,
    {
        out.push(value);
        j = j + 1;
    }
    out
}

/// One channel of the mixer: the saturating sum, sample by sample, of the
/// corresponding channel of every input.
pub fn mix_chunk(inputs: &Vec<Vec<i64>>) -> (out: Vec<i64>)
    requires
        forall|i: int| 0 <= i < inputs@.len() ==> #[trigger] inputs@[i]@.len() == CHUNK_SIZE,
    ensures
        out@.len() == CHUNK_SIZE,
        forall|j: int|
            0 <= j < CHUNK_SIZE ==> #[trigger] out@[j]
                == mix_sample(inputs@.map_values(|v: Vec<i64>| v@), j),
{
    let ghost all: Seq<Seq<i64>> = inputs@.map_values(|v: Vec<i64>| v@);
    let mut out: Vec<i64> = Vec::new();
    let mut j: usize = 0;
    while j < CHUNK_SIZE
        invariant
            j <= CHUNK_SIZE,
            out@.len() == j,
            all == inputs@.map_values(|v: Vec<i64>| v@),
            forall|i: int| 0 <= i < inputs@.len() ==> #[trigger] inputs@[i]@.len() == CHUNK_SIZE,
            forall|k: int| 0 <= k < j ==> #[trigger] out@[k] == mix_sample(all, k),
        decreases CHUNK_SIZE - j,
    {
        let mut acc: i64 = 0;
        let mut i: usize = 0;
        while i < inputs.len()
            invariant
                i <= inputs@.len(),
                j < CHUNK_SIZE,
                all == inputs@.map_values(|v: Vec<i64>| v@),
                forall|q: int| 0 <= q < inputs@.len() ==> #[trigger] inputs@[q]@.len() == CHUNK_SIZE,
                acc as int == mix_sample(all.take(i as int), j as int),
            decreases inputs@.len() - i,
        {
            proof {
                assert(all.take(i + 1).drop_last() =~= all.take(i as int));
                assert(all.take(i + 1).last() == all[i as int]);
                assert(all[i as int] == inputs@[i as int]@);
            }
            acc = sat_add(acc, inputs[i][j]);
            i = i + 1;
        }
        proof {
            assert(all.take(inputs@.len() as int) =~= all);
        }
        out.push(acc);
        j = j + 1;
    }
    out
}

/// One channel of the gain node: each input sample scaled by the control
/// signal's sample.
pub fn gain_chunk(boost: &Vec<i64>, input: &Vec<i64>) -> (out: Vec<i64>)
    requires
        boost@.len() == CHUNK_SIZE,
        input@.len() == CHUNK_SIZE,
    ensures
        out@.len() == CHUNK_SIZE,
        forall|j: int|
            0 <= j < CHUNK_SIZE ==> #[trigger] out@[j]
                == fp_mul_spec(boost@[j] as int, input@[j] as int),
{
    let mut out: Vec<i64> = Vec::new();
    let mut j: usize = 0;
    while j < CHUNK_SIZE
        invariant
            j <= CHUNK_SIZE,
            out@.len() == j,
            boost@.len() == CHUNK_SIZE,
            input@.len() == CHUNK_SIZE,
            forall|k: int|
                0 <= k < j ==> #[trigger] out@[k]
                    == fp_mul_spec(boost@[k] as int, input@[k] as int),
        decreases CHUNK_SIZE - j,
    {
        out.push(fp_mul(boost[j], input[j]));
        j = j + 1;
    }
    out
}

/// Both channels of the pan node under the constant-power law.
pub fn pan_chunks(positions: &Vec<i64>, in_l: &Vec<i64>, in_r: &Vec<i64>) -> (out: (
    Vec<i64>,
    Vec<i64>,
))
    requires
        positions@.len() == CHUNK_SIZE,
        in_l@.len() == CHUNK_SIZE,
        in_r@.len() == CHUNK_SIZE,
    ensures
        out.0@.len() == CHUNK_SIZE,
        out.1@.len() == CHUNK_SIZE,
        forall|j: int|
            0 <= j < CHUNK_SIZE ==> #[trigger] out.0@[j]
                == pan_left_spec(positions@[j] as int, in_l@[j] as int),
        forall|j: int|
            0 <= j < CHUNK_SIZE ==> #[trigger] out.1@[j]
                == pan_right_spec(positions@[j] as int, in_r@[j] as int),
{
    let mut left: Vec<i64> = Vec::new();
    let mut right: Vec<i64> = Vec::new();
    let mut j: usize = 0;
    while j < CHUNK_SIZE
        invariant
            j <= CHUNK_SIZE,
            left@.len() == j,
            right@.len() == j,
            positions@.len() == CHUNK_SIZE,
            in_l@.len() == CHUNK_SIZE,
            in_r@.len() == CHUNK_SIZE,
            forall|k: int|
                0 <= k < j ==> #[trigger] left@[k]
                    == pan_left_spec(positions@[k] as int, in_l@[k] as int),
            forall|k: int|
                0 <= k < j ==> #[trigger] right@[k]
                    == pan_right_spec(positions@[k] as int, in_r@[k] as int),
        decreases CHUNK_SIZE - j,
    {
        let p: i64 = positions[j];
        proof {
            lemma_pan_squared_bounds(p as int);
        }
        let squared: i64 = fp_mul(p, p);
        proof {
            lemma_fp_mul_nonneg(squared as int, PAN_CENTER_GAIN as int);
            lemma_fp_mul_nonneg(squared as int, (FP_ONE - PAN_CENTER_GAIN) as int);
        }
        let near: i64 = PAN_CENTER_GAIN - fp_mul(squared, PAN_CENTER_GAIN);
        let far: i64 = sat_add(PAN_CENTER_GAIN, fp_mul(squared, FP_ONE - PAN_CENTER_GAIN));
        if p > 0 {
            left.push(fp_mul(in_l[j], near));
            right.push(fp_mul(in_r[j], far));
        } else {
            left.push(fp_mul(in_l[j], far));
            right.push(fp_mul(in_r[j], near));
        }
        j = j + 1;
    }
    (left, right)
}

/// Both channels of the mono-to-stereo node: each is half the mono input,
/// so summing the channels back to mono recovers the signal.
pub fn mono_to_stereo_chunk(input: &Vec<i64>) -> (out: (Vec<i64>, Vec<i64>))
    requires
        input@.len() == CHUNK_SIZE,
    ensures
        out.0@.len() == CHUNK_SIZE,
        out.1@.len() == CHUNK_SIZE,
        forall|j: int|
            0 <= j < CHUNK_SIZE ==> #[trigger] out.0@[j]
                == fp_mul_spec(FP_HALF as int, input@[j] as int),
        forall|j: int|
            0 <= j < CHUNK_SIZE ==> #[trigger] out.1@[j]
                == fp_mul_spec(FP_HALF as int, input@[j] as int),
{
    let mut left: Vec<i64> = Vec::new();
    let mut right: Vec<i64> = Vec::new();
    let mut j: usize = 0;
    while j < CHUNK_SIZE
        invariant
            j <= CHUNK_SIZE,
            left@.len() == j,
            right@.len() == j,
            input@.len() == CHUNK_SIZE,
            forall|k: int|
                0 <= k < j ==> #[trigger] left@[k]
                    == fp_mul_spec(FP_HALF as int, input@[k] as int),
            forall|k: int|
                0 <= k < j ==> #[trigger] right@[k]
                    == fp_mul_spec(FP_HALF as int, input@[k] as int),
        decreases CHUNK_SIZE - j,
    {
        let half: i64 = fp_mul(FP_HALF, input[j]);
        left.push(half);
        right.push(half);
        j = j + 1;
    }
    (left, right)
}

/// The stereo-to-mono node: the saturating sum of the two channels.
pub fn stereo_to_mono_chunk(in_l: &Vec<i64>, in_r: &Vec<i64>) -> (out: Vec<i64>)
    requires
        in_l@.len() == CHUNK_SIZE,
        in_r@.len() == CHUNK_SIZE,
    ensures
        out@.len() == CHUNK_SIZE,
        forall|j: int|
            0 <= j < CHUNK_SIZE ==> #[trigger] out@[j]
                == sat64(in_l@[j] as int + in_r@[j] as int),
{
    let mut out: Vec<i64> = Vec::new();
    let mut j: usize = 0;
    while j < CHUNK_SIZE
        invariant
            j <= CHUNK_SIZE,
            out@.len() == j,
            in_l@.len() == CHUNK_SIZE,
            in_r@.len() == CHUNK_SIZE,
            forall|k: int|
                0 <= k < j ==> #[trigger] out@[k] == sat64(in_l@[k] as int + in_r@[k] as int),
        decreases CHUNK_SIZE - j,
    {
        out.push(sat_add(in_l[j], in_r[j]));
        j = j + 1;
    }
    out
}

/// One channel of the waveshaper effect: the hard clipper applied to
/// every sample independently.
pub fn shape_chunk(shaper: &HardClipper, input: &Vec<i64>) -> (out: Vec<i64>)
    requires
        input@.len() == CHUNK_SIZE,
    ensures
        out@.len() == CHUNK_SIZE,
        forall|j: int| 0 <= j < CHUNK_SIZE ==> #[trigger] out@[j] == clip_spec(input@[j] as int),
{
    let mut out: Vec<i64> = Vec::new();
    let mut j: usize = 0;
    while j < CHUNK_SIZE
        invariant
            j <= CHUNK_SIZE,
            out@.len() == j,
            input@.len() == CHUNK_SIZE,
            forall|k: int| 0 <= k < j ==> #[trigger] out@[k] == clip_spec(input@[k] as int),
        decreases CHUNK_SIZE - j,
    {
        out.push(shaper.shape(input[j]));
        j = j + 1;
    }
    out
}

} // verus!
