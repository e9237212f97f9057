use vstd::prelude::*;

verus! {

use crate::consts::CHUNK_SIZE;
use crate::fixed::{sat64, sat_add, FP_ONE};

/// A trigger event for a sampler: play from the start, at unit speed or
/// at the given fixed-point speed multiplier.
#[derive(Clone, Copy)]
pub enum SamplerEvent {
    Play,
    PlayAtSpeed(i64),
}

/// A sampler's playback state: whether it is playing, the fractional
/// read position, and the speed the position advances by per sample.
#[derive(Clone, Copy)]
pub struct SamplerState {
    pub playing: bool,
    pub position: i64,
    pub playspeed: i64,
}

/// What one trigger event does to the state: playback restarts from
/// position zero at the requested speed.
pub open spec fn sampler_trigger(ev: SamplerEvent, st: SamplerState) -> SamplerState {
    match ev {
        SamplerEvent::Play => SamplerState { playing: true, position: 0, playspeed: FP_ONE },
        SamplerEvent::PlayAtSpeed(speed) => SamplerState {
            playing: true,
            position: 0,
            playspeed: speed,
        },
    }
}

/// All window events at timestamp `t`, from `cur` on, applied in
/// sequence order; the result is the state and the count of events
/// consumed.  Every event that falls on one sample time is drained
/// before that sample is emitted, the last trigger deciding.
pub open spec fn sampler_apply_at(
    win: Seq<(u64, SamplerEvent)>,
    cur: int,
    st: SamplerState,
    t: int,
) -> (int, SamplerState)
    decreases win.len() - cur,
{
    if 0 <= cur < win.len() && win[cur].0 == t {
        sampler_apply_at(win, cur + 1, sampler_trigger(win[cur].1, st), t)
    } else {
        (cur, st)
    }
}

/// The integer sample index a fixed-point read position selects: the
/// floor, with negative positions reading index zero the way a negative
/// float position cast to an index saturates.
pub open spec fn sampler_index(position: int) -> int {
    if position < 0 {
        0
    } else {
        position / (FP_ONE as int)
    }
}

/// One playback step at a read position: if the position's floor has run
/// off the end of the buffer, playback stops; while playing, the sample
/// at the floored position is emitted on both channels and the position
/// advances by the speed; otherwise silence is emitted.
pub open spec fn sampler_emit(
    left: Seq<i64>,
    right: Seq<i64>,
    st: SamplerState,
) -> (i64, i64, SamplerState) {
    let idx = sampler_index(st.position as int);
    let halted = if idx >= left.len() {
        SamplerState { playing: false, ..st }
    } else {
        st
    };
    if halted.playing {
        (
            left[idx],
            right[idx],
            SamplerState { position: sat64(halted.position + halted.playspeed) as i64, ..halted },
        )
    } else {
        (0i64, 0i64, halted)
    }
}

/// The sampler over the first `n` samples of a chunk starting at `time`:
/// the two produced channels, the count of window events applied, and
/// the state afterwards.
pub open spec fn sampler_run(
    win: Seq<(u64, SamplerEvent)>,
    left: Seq<i64>,
    right: Seq<i64>,
    st0: SamplerState,
    time: u64,
    n: nat,
) -> (Seq<i64>, Seq<i64>, int, SamplerState)
    decreases n,
{
    if n == 0 {
        (Seq::<i64>::empty(), Seq::<i64>::empty(), 0, st0)
    } else {
        let prev = sampler_run(win, left, right, st0, time, (n - 1) as nat);
        let applied = sampler_apply_at(win, prev.2, prev.3, time + (n - 1));
        let emitted = sampler_emit(left, right, applied.1);
        (prev.0.push(emitted.0), prev.1.push(emitted.1), applied.0, emitted.2)
    }
}

/// One sampler chunk over a loaded stereo buffer: both channels and the
/// state afterwards.
pub fn sampler_chunk(
    win: &Vec<(u64, SamplerEvent)>,
    left_samples: &Vec<i64>,
    right_samples: &Vec<i64>,
    st0: SamplerState,
    time: u64,
) -> (r: (Vec<i64>, Vec<i64>, SamplerState))
    requires
        left_samples@.len() == right_samples@.len(),
        time + CHUNK_SIZE <= u64::MAX,
    ensures
        r.0@.len() == CHUNK_SIZE,
        r.1@.len() == CHUNK_SIZE,
        r.0@ == sampler_run(win@, left_samples@, right_samples@, st0, time, CHUNK_SIZE as nat).0,
        r.1@ == sampler_run(win@, left_samples@, right_samples@, st0, time, CHUNK_SIZE as nat).1,
        r.2 == sampler_run(win@, left_samples@, right_samples@, st0, time, CHUNK_SIZE as nat).3,
{
    let mut left: Vec<i64> = Vec::new();
    let mut right: Vec<i64> = Vec::new();
    let mut cursor: usize = 0;
    let mut st: SamplerState = st0;
    let mut i: usize = 0;
    while i < CHUNK_SIZE
        invariant
            i <= CHUNK_SIZE,
            time + CHUNK_SIZE <= u64::MAX,
            left_samples@.len() == right_samples@.len(),
            cursor <= win@.len(),
            left@.len() == i,
            right@.len() == i,
            left@ == sampler_run(win@, left_samples@, right_samples@, st0, time, i as nat).0,
            right@ == sampler_run(win@, left_samples@, right_samples@, st0, time, i as nat).1,
            cursor as int == sampler_run(win@, left_samples@, right_samples@, st0, time, i as nat).2,
            st == sampler_run(win@, left_samples@, right_samples@, st0, time, i as nat).3,
        decreases CHUNK_SIZE - i,
    {
        let t: u64 = time + (i as u64);
        while cursor < win.len() && win[cursor].0 == t
            invariant
                cursor <= win@.len(),
                sampler_apply_at(
                    win@,
                    sampler_run(win@, left_samples@, right_samples@, st0, time, i as nat).2,
                    sampler_run(win@, left_samples@, right_samples@, st0, time, i as nat).3,
                    t as int,
                ) == sampler_apply_at(win@, cursor as int, st, t as int),
            decreases win@.len() - cursor,
        {
            match win[cursor].1 {
                SamplerEvent::Play => {
                    st = SamplerState { playing: true, position: 0, playspeed: FP_ONE };
                },
                SamplerEvent::PlayAtSpeed(speed) => {
                    st = SamplerState { playing: true, position: 0, playspeed: speed };
                },
            }
            cursor = cursor + 1;
        }
        proof {
            assert(sampler_apply_at(win@, cursor as int, st, t as int) == (
                cursor as int,
                st,
            ));
        }
        let idx: u64 = if st.position >= 0 {
            (st.position as u64) / 65536
        } else {
            0
        };
        if idx >= left_samples.len() as u64 {
            st = SamplerState { playing: false, ..st };
        }
        if st.playing {
            left.push(left_samples[idx as usize]);
            right.push(right_samples[idx as usize]);
            st = SamplerState { position: sat_add(st.position, st.playspeed), ..st };
        } else {
            left.push(0);
            right.push(0);
        }
        i = i + 1;
    }
    (left, right, st)
}

} // verus!
