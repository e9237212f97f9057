use vstd::prelude::*;

verus! {

use crate::consts::{CHUNK_SIZE, SAMPLE_RATE};
use crate::fixed::{sat64, tdiv, trem, fp_mul_spec, fp_index_spec, sat_add, fp_mul, tdiv_i64,
    trem_i64, fp_index, FP_ONE};

/// Entries in one full cycle of a periodic waveform.  Provides full
/// resolution down to about 21 Hz at a 44.1 kHz sample rate.
pub const WAVE_SAMPLES: usize = 2010;

/// The table length at the fixed-point scale: the wrap bound of an
/// oscillator's phase.
pub const WAVE_SAMPLES_FP: i64 = 131727360;

/// A note event for a synthesis channel: note-on carries the frequency
/// in fixed-point Hz.
#[derive(Clone, Copy)]
pub enum NoteEvent {
    NoteOn(i64),
    NoteOff,
}

/// One full cycle of a periodic waveform, `WAVE_SAMPLES` entries long.
#[derive(Clone)]
pub struct Wave {
    samples: Vec<i64>,
}

impl View for Wave {
    type V = Seq<i64>;

    closed spec fn view(&self) -> Seq<i64> {
        self.samples@
    }
}

/// The saw shape: a straight line from full scale down to negative full
/// scale across the table.
pub open spec fn saw_sample(i: int) -> int {
    FP_ONE - (2 * FP_ONE * i) / (WAVE_SAMPLES - 1)
}

/// The triangle shape: a straight rise across the first half of the
/// table, mirrored in the second half.
pub open spec fn triangle_sample(i: int) -> int {
    if i < WAVE_SAMPLES / 2 {
        -FP_ONE + (2 * FP_ONE * i) / (WAVE_SAMPLES / 2 - 1)
    } else {
        -FP_ONE + (2 * FP_ONE * (WAVE_SAMPLES - 1 - i)) / (WAVE_SAMPLES / 2 - 1)
    }
}

impl Wave {
    pub closed spec fn wf(&self) -> bool {
        self.samples@.len() == WAVE_SAMPLES
    }

    /// A square wave: full scale over the first half of the table,
    /// negative full scale over the second.
    pub fn square() -> (w: Wave)
        ensures
            w.wf(),
            w@.len() == WAVE_SAMPLES,
            forall|i: int|
                0 <= i < WAVE_SAMPLES ==> #[trigger] w@[i]
                    == if i < WAVE_SAMPLES / 2 { FP_ONE as int } else { -FP_ONE as int },
    {
        let mut samples: Vec<i64> = Vec::new();
        let mut i: usize = 0;
        while i < WAVE_SAMPLES
            invariant
                i <= WAVE_SAMPLES,
                samples@.len() == i,
                forall|k: int|
                    0 <= k < i ==> #[trigger] samples@[k]
                        == if k < WAVE_SAMPLES / 2 { FP_ONE as int } else { -FP_ONE as int },
            decreases WAVE_SAMPLES - i,
        {
            if i < WAVE_SAMPLES / 2 {
                samples.push(FP_ONE);
            } else {
                samples.push(-FP_ONE);
            }
            i = i + 1;
        }
        Wave { samples }
    }

    /// A saw wave (see `saw_sample`).
    pub fn saw() -> (w: Wave)
        ensures
            w.wf(),
            w@.len() == WAVE_SAMPLES,
            forall|i: int| 0 <= i < WAVE_SAMPLES ==> #[trigger] w@[i] == saw_sample(i),
    {
        let mut samples: Vec<i64> = Vec::new();
        let mut i: usize = 0;
        while i < WAVE_SAMPLES
            invariant
                i <= WAVE_SAMPLES,
                samples@.len() == i,
                forall|k: int| 0 <= k < i ==> #[trigger] samples@[k] == saw_sample(k),
            decreases WAVE_SAMPLES - i,
        {
            let num: u64 = 131072u64 * (i as u64);
            let scaled: u64 = num / 2009u64;
            proof {
                assert(scaled as int == (2 * FP_ONE * (i as int)) / (WAVE_SAMPLES - 1));
                assert(scaled <= num);
            }
            samples.push(FP_ONE - (scaled as i64));
            i = i + 1;
        }
        Wave { samples }
    }

    /// A triangle wave (see `triangle_sample`).
    pub fn triangle() -> (w: Wave)
        ensures
            w.wf(),
            w@.len() == WAVE_SAMPLES,
            forall|i: int| 0 <= i < WAVE_SAMPLES ==> #[trigger] w@[i] == triangle_sample(i),
    {
        let mut samples: Vec<i64> = Vec::new();
        let mut i: usize = 0;
        while i < WAVE_SAMPLES
            invariant
                i <= WAVE_SAMPLES,
                samples@.len() == i,
                forall|k: int| 0 <= k < i ==> #[trigger] samples@[k] == triangle_sample(k),
            decreases WAVE_SAMPLES - i,
        {
            let up: usize = if i < WAVE_SAMPLES / 2 {
                i
            } else {
                WAVE_SAMPLES - 1 - i
            };
            assert(up < 2010);
            let num: u64 = 131072u64 * (up as u64);
            let scaled: u64 = num / 1004u64;
            proof {
                assert(scaled as int == (2 * FP_ONE * (up as int)) / (WAVE_SAMPLES / 2 - 1));
                assert(scaled <= num);
            }
            samples.push(-FP_ONE + (scaled as i64));
            i = i + 1;
        }
        Wave { samples }
    }

    /// A silent table.
    pub fn zero() -> (w: Wave)
        ensures
            w.wf(),
            w@.len() == WAVE_SAMPLES,
            forall|i: int| 0 <= i < WAVE_SAMPLES ==> #[trigger] w@[i] == 0,
    {
        let mut samples: Vec<i64> = Vec::new();
        let mut i: usize = 0;
        while i < WAVE_SAMPLES
            invariant
                i <= WAVE_SAMPLES,
                samples@.len() == i,
                forall|k: int| 0 <= k < i ==> #[trigger] samples@[k] == 0,
            decreases WAVE_SAMPLES - i,
        {
            samples.push(0);
            i = i + 1;
        }
        Wave { samples }
    }

    pub fn sample_at(&self, i: usize) -> (s: i64)
        requires
            self.wf(),
            i < WAVE_SAMPLES,
        ensures
            s == self@[i as int],
    {
        self.samples[i]
    }
}

/// A non-empty ordered collection of waves.  Crossfading between entries
/// by a position signal is a declared extension point; only entry zero is
/// consulted at present.
#[derive(Clone)]
pub struct WaveTable {
    waves: Vec<Wave>,
}

impl View for WaveTable {
    type V = Seq<Seq<i64>>;

    closed spec fn view(&self) -> Seq<Seq<i64>> {
        self.waves@.map_values(|w: Wave| w@)
    }
}

impl WaveTable {
    pub closed spec fn wf(&self) -> bool {
        &&& self.waves@.len() >= 1
        &&& forall|i: int| 0 <= i < self.waves@.len() ==> (#[trigger] self.waves@[i]).wf()
    }

    /// Construction demands at least one wave.
    pub fn new(waves: Vec<Wave>) -> (t: WaveTable)
        requires
            waves@.len() >= 1,
            forall|i: int| 0 <= i < waves@.len() ==> (#[trigger] waves@[i]).wf(),
        ensures
            t.wf(),
            t@ == waves@.map_values(|w: Wave| w@),
    {
        WaveTable { waves }
    }

    pub fn first_sample_at(&self, i: usize) -> (s: i64)
        requires
            self.wf(),
            i < WAVE_SAMPLES,
        ensures
            s == self@[0][i as int],
    {
        self.waves[0].sample_at(i)
    }
}

/// What a note event does to the envelope gate.
pub open spec fn envelope_gate(ev: NoteEvent, on: bool) -> bool {
    match ev {
        NoteEvent::NoteOn(_) => true,
        NoteEvent::NoteOff => false,
    }
}

/// All window events at timestamp `t`, from `cur` on, applied to the
/// envelope in sequence order; the result is the count of events
/// consumed and the envelope's gate afterwards.  Same-timestamp events
/// are all applied at that sample, the last one deciding.
pub open spec fn envelope_apply_at(
    win: Seq<(u64, NoteEvent)>,
    cur: int,
    on: bool,
    t: int,
) -> (int, bool)
    decreases win.len() - cur,
{
    if 0 <= cur < win.len() && win[cur].0 == t {
        envelope_apply_at(win, cur + 1, envelope_gate(win[cur].1, on), t)
    } else {
        (cur, on)
    }
}

/// The envelope over the first `n` samples of a chunk that starts at
/// `time`: the produced samples, the count of window events applied, and
/// the envelope's gate afterwards.  Every event at a sample's time is
/// applied, sample-accurately and in sequence order, before that sample
/// is emitted.  The output is full scale while gated on and zero
/// otherwise.
pub open spec fn envelope_run(
    win: Seq<(u64, NoteEvent)>,
    on0: bool,
    time: u64,
    n: nat,
) -> (Seq<i64>, int, bool)
    decreases n,
{
    if n == 0 {
        (Seq::<i64>::empty(), 0, on0)
    } else {
        let prev = envelope_run(win, on0, time, (n - 1) as nat);
        let applied = envelope_apply_at(win, prev.1, prev.2, time + (n - 1));
        (prev.0.push(if applied.1 { FP_ONE } else { 0i64 }), applied.0, applied.1)
    }
}

/// One envelope chunk: the samples and the envelope's gate afterwards.
pub fn envelope_chunk(win: &Vec<(u64, NoteEvent)>, on0: bool, time: u64) -> (r: (Vec<i64>, bool))
    requires
        time + CHUNK_SIZE <= u64::MAX,
    ensures
        r.0@.len() == CHUNK_SIZE,
        r.0@ == envelope_run(win@, on0, time, CHUNK_SIZE as nat).0,
        r.1 == envelope_run(win@, on0, time, CHUNK_SIZE as nat).2,
{
    let mut out: Vec<i64> = Vec::new();
    let mut cursor: usize = 0;
    let mut on: bool = on0;
    let mut i: usize = 0;
    while i < CHUNK_SIZE
        invariant
            i <= CHUNK_SIZE,
            time + CHUNK_SIZE <= u64::MAX,
            cursor <= win@.len(),
            out@.len() == i,
            out@ == envelope_run(win@, on0, time, i as nat).0,
            cursor as int == envelope_run(win@, on0, time, i as nat).1,
            on == envelope_run(win@, on0, time, i as nat).2,
        decreases CHUNK_SIZE - i,
    {
        let t: u64 = time + (i as u64);
        while cursor < win.len() && win[cursor].0 == t
            invariant
                cursor <= win@.len(),
                envelope_apply_at(
                    win@,
                    envelope_run(win@, on0, time, i as nat).1,
                    envelope_run(win@, on0, time, i as nat).2,
                    t as int,
                ) == envelope_apply_at(win@, cursor as int, on, t as int),
            decreases win@.len() - cursor,
        {
            match win[cursor].1 {
                NoteEvent::NoteOn(_freq) => {
                    on = true;
                },
                NoteEvent::NoteOff => {
                    on = false;
                },
            }
            cursor = cursor + 1;
        }
        proof {
            assert(envelope_apply_at(win@, cursor as int, on, t as int) == (cursor as int, on));
        }
        if on {
            out.push(FP_ONE);
        } else {
            out.push(0);
        }
        i = i + 1;
    }
    (out, on)
}

/// The phase step one output sample adds: the table length, scaled by the
/// frequency and by that sample's detune multiplier, divided by the
/// sample rate.
pub open spec fn osc_increment(freq: int, mult: int) -> int {
    tdiv(fp_mul_spec(fp_mul_spec(WAVE_SAMPLES_FP as int, freq), mult), SAMPLE_RATE as int)
}

/// A phase after one sample: the increment added, wrapped modulo the
/// table length.
pub open spec fn osc_advance(pos: int, freq: int, mult: int) -> int {
    trem(sat64(pos + osc_increment(freq, mult)), WAVE_SAMPLES_FP as int)
}

/// All window events at timestamp `t`, from `cur` on, applied to the
/// oscillator in sequence order; the result is the count of events
/// consumed and the new phase and frequency.  A note-on resets the
/// phase to zero and adopts the new frequency; a note-off leaves both
/// untouched — pitch generation and amplitude gating are decoupled,
/// only the envelope reacts to note-off.
pub open spec fn oscillator_apply_at(
    win: Seq<(u64, NoteEvent)>,
    cur: int,
    pos: int,
    freq: int,
    t: int,
) -> (int, int, int)
    decreases win.len() - cur,
{
    if 0 <= cur < win.len() && win[cur].0 == t {
        match win[cur].1 {
            NoteEvent::NoteOn(f) => oscillator_apply_at(win, cur + 1, 0, f as int, t),
            NoteEvent::NoteOff => oscillator_apply_at(win, cur + 1, pos, freq, t),
        }
    } else {
        (cur, pos, freq)
    }
}

/// The oscillator over the first `n` samples of a chunk starting at
/// `time`: the emitted phases, the count of window events applied, and
/// the phase and frequency afterwards.  Every event at a sample's time
/// is applied, sample-accurately and in sequence order, before that
/// sample is emitted.  Each sample emits the current phase and then
/// advances it.
pub open spec fn oscillator_run(
    win: Seq<(u64, NoteEvent)>,
    mult: Seq<i64>,
    pos0: i64,
    freq0: i64,
    time: u64,
    n: nat,
) -> (Seq<i64>, int, int, int)
    decreases n,
{
    if n == 0 {
        (Seq::<i64>::empty(), 0, pos0 as int, freq0 as int)
    } else {
        let prev = oscillator_run(win, mult, pos0, freq0, time, (n - 1) as nat);
        let applied = oscillator_apply_at(win, prev.1, prev.2, prev.3, time + (n - 1));
        (
            prev.0.push(applied.1 as i64),
            applied.0,
            osc_advance(applied.1, applied.2, mult[n - 1] as int),
            applied.2,
        )
    }
}

/// One oscillator chunk: the emitted phases and the phase and frequency
/// afterwards.
pub fn oscillator_chunk(
    win: &Vec<(u64, NoteEvent)>,
    mult: &Vec<i64>,
    pos0: i64,
    freq0: i64,
    time: u64,
) -> (r: (Vec<i64>, i64, i64))
    requires
        mult@.len() == CHUNK_SIZE,
        time + CHUNK_SIZE <= u64::MAX,
    ensures
        r.0@.len() == CHUNK_SIZE,
        r.0@ == oscillator_run(win@, mult@, pos0, freq0, time, CHUNK_SIZE as nat).0,
        r.1 as int == oscillator_run(win@, mult@, pos0, freq0, time, CHUNK_SIZE as nat).2,
        r.2 as int == oscillator_run(win@, mult@, pos0, freq0, time, CHUNK_SIZE as nat).3,
{
    let mut out: Vec<i64> = Vec::new();
    let mut cursor: usize = 0;
    let mut pos: i64 = pos0;
    let mut freq: i64 = freq0;
    let mut i: usize = 0;
    while i < CHUNK_SIZE
        invariant
            i <= CHUNK_SIZE,
            time + CHUNK_SIZE <= u64::MAX,
            mult@.len() == CHUNK_SIZE,
            cursor <= win@.len(),
            out@.len() == i,
            out@ == oscillator_run(win@, mult@, pos0, freq0, time, i as nat).0,
            cursor as int == oscillator_run(win@, mult@, pos0, freq0, time, i as nat).1,
            pos as int == oscillator_run(win@, mult@, pos0, freq0, time, i as nat).2,
            freq as int == oscillator_run(win@, mult@, pos0, freq0, time, i as nat).3,
        decreases CHUNK_SIZE - i,
    {
        let t: u64 = time + (i as u64);
        while cursor < win.len() && win[cursor].0 == t
            invariant
                cursor <= win@.len(),
                oscillator_apply_at(
                    win@,
                    oscillator_run(win@, mult@, pos0, freq0, time, i as nat).1,
                    oscillator_run(win@, mult@, pos0, freq0, time, i as nat).2,
                    oscillator_run(win@, mult@, pos0, freq0, time, i as nat).3,
                    t as int,
                ) == oscillator_apply_at(win@, cursor as int, pos as int, freq as int, t as int),
            decreases win@.len() - cursor,
        {
            match win[cursor].1 {
                NoteEvent::NoteOn(f) => {
                    freq = f;
                    pos = 0;
                },
                NoteEvent::NoteOff => {
                    // do nothing: the oscillator keeps running
                },
            }
            cursor = cursor + 1;
        }
        proof {
            assert(oscillator_apply_at(win@, cursor as int, pos as int, freq as int, t as int)
                == (cursor as int, pos as int, freq as int));
        }
        out.push(pos);
        let scaled: i64 = fp_mul(fp_mul(WAVE_SAMPLES_FP, freq), mult[i]);
        let inc: i64 = tdiv_i64(scaled, SAMPLE_RATE);
        let summed: i64 = sat_add(pos, inc);
        pos = trem_i64(summed, WAVE_SAMPLES_FP);
        i = i + 1;
    }
    (out, pos, freq)
}

/// One wavetable-synthesis chunk:
/// `out[i] = amplitude[i] * table[0][index(phase[i])]`.  The phase,
/// crossfade-position and amplitude inputs are three independent
/// per-sample signals; the position signal is accepted but not yet
/// consulted (crossfading is an extension point), so only entry zero of
/// the table is read.
pub fn synth_chunk(wavetable: &WaveTable, phase: &Vec<i64>, amplitude: &Vec<i64>) -> (out: Vec<
    i64,
>)
    requires
        wavetable.wf(),
        phase@.len() == CHUNK_SIZE,
        amplitude@.len() == CHUNK_SIZE,
    ensures
        out@.len() == CHUNK_SIZE,
        forall|j: int|
            0 <= j < CHUNK_SIZE ==> #[trigger] out@[j]
                == fp_mul_spec(
                amplitude@[j] as int,
                wavetable@[0][fp_index_spec(phase@[j] as int, WAVE_SAMPLES as int)] as int,
            ),
{
    let mut out: Vec<i64> = Vec::new();
    let mut j: usize = 0;
    while j < CHUNK_SIZE
        invariant
            j <= CHUNK_SIZE,
            out@.len() == j,
            wavetable.wf(),
            phase@.len() == CHUNK_SIZE,
            amplitude@.len() == CHUNK_SIZE,
            forall|k: int|
                0 <= k < j ==> #[trigger] out@[k]
                    == fp_mul_spec(
                    amplitude@[k] as int,
                    wavetable@[0][fp_index_spec(phase@[k] as int, WAVE_SAMPLES as int)] as int,
                ),
        decreases CHUNK_SIZE - j,
    {
        let idx: usize = fp_index(phase[j], WAVE_SAMPLES);
        let entry: i64 = wavetable.first_sample_at(idx);
        out.push(fp_mul(amplitude[j], entry));
        j = j + 1;
    }
    out
}

} // verus!
