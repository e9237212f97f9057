use vstd::prelude::*;

verus! {

use crate::fixed::FP_ONE;

/// Whether any sample of either channel in `[from, to)` exceeds full
/// scale in magnitude — the condition the live output path reports once.
pub open spec fn any_clipping(left: Seq<i64>, right: Seq<i64>, from: int, to: int) -> bool
    decreases to - from,
{
    if to <= from {
        false
    } else {
        any_clipping(left, right, from, to - 1) || left[to - 1] > FP_ONE || left[to - 1] < -FP_ONE
            || right[to - 1] > FP_ONE || right[to - 1] < -FP_ONE
    }
}

/// Fills one block for the live audio output from a pre-rendered pair of
/// channel buffers.
///
/// The device asks for `frames` interleaved stereo samples starting at
/// read position `position`; once the buffers are exhausted the output
/// is silence.  The returned flag says whether clipping (a sample beyond
/// full scale in magnitude) has been seen up to the new position, given
/// that `already_warned` says whether it had been seen before — the
/// caller reports the condition only on the flag's rising edge, so it is
/// reported at most once.
pub fn fill_device_block(
    left: &Vec<i64>,
    right: &Vec<i64>,
    position: usize,
    frames: usize,
    already_warned: bool,
) -> (r: (Vec<i64>, usize, bool))
    requires
        left@.len() == right@.len(),
        position <= left@.len(),
        2 * frames <= usize::MAX,
        position + frames <= usize::MAX,
    ensures
        r.0@.len() == 2 * frames,
        r.1 == if position + frames <= left@.len() {
            position + frames
        } else {
            left@.len() as int
        },
        forall|f: int|
            0 <= f < frames && position + f < left@.len() ==> #[trigger] r.0@[2 * f]
                == left@[position + f] && r.0@[2 * f + 1] == right@[position + f],
        forall|f: int|
            0 <= f < frames && position + f >= left@.len() ==> #[trigger] r.0@[2 * f] == 0
                && r.0@[2 * f + 1] == 0,
        r.2 == (already_warned || any_clipping(left@, right@, position as int, r.1 as int)),
{
    let mut out: Vec<i64> = Vec::new();
    let mut warned: bool = already_warned;
    let mut pos: usize = position;
    let mut f: usize = 0;
    while f < frames
        invariant
            f <= frames,
            left@.len() == right@.len(),
            position <= left@.len(),
            position + frames <= usize::MAX,
            2 * frames <= usize::MAX,
            out@.len() == 2 * f,
            pos == if position + f <= left@.len() {
                position + f
            } else {
                left@.len() as int
            },
            forall|g: int|
                0 <= g < f && position + g < left@.len() ==> #[trigger] out@[2 * g]
                    == left@[position + g] && out@[2 * g + 1] == right@[position + g],
            forall|g: int|
                0 <= g < f && position + g >= left@.len() ==> #[trigger] out@[2 * g] == 0
                    && out@[2 * g + 1] == 0,
            warned == (already_warned || any_clipping(left@, right@, position as int, pos as int)),
        decreases frames - f,
    {
        let ghost out0 = out@;
        if pos < left.len() {
            let ls = left[pos];
            let rs = right[pos];
            if ls > FP_ONE || ls < -FP_ONE || rs > FP_ONE || rs < -FP_ONE {
                warned = true;
            }
            out.push(ls);
            out.push(rs);
            pos = pos + 1;
        } else {
            out.push(0);
            out.push(0);
        }
        proof {
            assert forall|g: int|
                0 <= g < f + 1 && position + g >= left@.len() implies #[trigger] out@[2 * g] == 0
                && out@[2 * g + 1] == 0 by {
                if g < f {
                    assert(out@[2 * g] == out0[2 * g]);
                    assert(out@[2 * g + 1] == out0[2 * g + 1]);
                }
            }
            assert forall|g: int|
                0 <= g < f + 1 && position + g < left@.len() implies #[trigger] out@[2 * g]
                == left@[position + g] && out@[2 * g + 1] == right@[position + g] by {
                if g < f {
                    assert(out@[2 * g] == out0[2 * g]);
                    assert(out@[2 * g + 1] == out0[2 * g + 1]);
                }
            }
        }
        f = f + 1;
    }
    (out, pos, warned)
}

} // verus!
