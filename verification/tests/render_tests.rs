use dawr::clock::Clock;
use dawr::consts::CHUNK_SIZE;
use dawr::device::fill_device_block;
use dawr::events::EventSource;
use dawr::fixed::{fp_index, fp_mul, sat_add, tdiv_i64, trem_i64, FP_HALF, FP_ONE};
use dawr::graph::Graph;
use dawr::render_audio;
use dawr::sampler::SamplerEvent;
use dawr::synth::{Wave, WaveTable, WAVE_SAMPLES};

fn sampler_graph() -> (Graph, usize) {
    let mut g = Graph::new();
    let src = g.add_sampler_source(EventSource::new(vec![(0, SamplerEvent::Play)]));
    let sampler = g.add_sampler(src, vec![1, 2, 3, 4], vec![1, 2, 3, 4]);
    (g, sampler)
}

#[test]
fn render_truncates_to_the_requested_length() {
    let (mut g, master) = sampler_graph();
    let mut clock = Clock::new();
    let (left, right) = render_audio(&mut g, &mut clock, master, 300);
    assert_eq!(left.len(), 300);
    assert_eq!(right.len(), 300);
    // 300 samples need three 128-sample chunks.
    assert_eq!(clock.time(), 3 * CHUNK_SIZE as u64);
    assert_eq!(&left[0..4], &[1, 2, 3, 4]);
    assert!(left[4..].iter().all(|&v| v == 0));
}

#[test]
fn render_of_an_exact_multiple_keeps_every_sample() {
    let (mut g, master) = sampler_graph();
    let mut clock = Clock::new();
    let (left, right) = render_audio(&mut g, &mut clock, master, CHUNK_SIZE);
    assert_eq!(left.len(), CHUNK_SIZE);
    assert_eq!(right.len(), CHUNK_SIZE);
    assert_eq!(clock.time(), CHUNK_SIZE as u64);
}

#[test]
fn render_of_length_zero_is_empty() {
    let (mut g, master) = sampler_graph();
    let mut clock = Clock::new();
    let (left, right) = render_audio(&mut g, &mut clock, master, 0);
    assert!(left.is_empty());
    assert!(right.is_empty());
    assert_eq!(clock.time(), 0);
}

#[test]
fn device_block_copies_interleaved_frames() {
    let left = vec![1, 2, 3];
    let right = vec![4, 5, 6];
    let (block, position, warned) = fill_device_block(&left, &right, 0, 2, false);
    assert_eq!(block, vec![1, 4, 2, 5]);
    assert_eq!(position, 2);
    assert!(!warned);
}

#[test]
fn device_block_supplies_silence_past_the_end() {
    let left = vec![1, 2, 3];
    let right = vec![4, 5, 6];
    let (block, position, warned) = fill_device_block(&left, &right, 2, 4, false);
    assert_eq!(block, vec![3, 6, 0, 0, 0, 0, 0, 0]);
    assert_eq!(position, 3);
    assert!(!warned);
}

#[test]
fn device_block_reports_clipping_once() {
    let left = vec![FP_ONE + 1, 0];
    let right = vec![0, 0];
    let (_, position, warned) = fill_device_block(&left, &right, 0, 1, false);
    assert!(warned);
    // The caller reports on the rising edge; a later block keeps the flag.
    let (_, _, still_warned) = fill_device_block(&left, &right, position, 1, warned);
    assert!(still_warned);
}

#[test]
fn square_wave_halves() {
    let w = Wave::square();
    assert_eq!(w.sample_at(0), FP_ONE);
    assert_eq!(w.sample_at(WAVE_SAMPLES / 2 - 1), FP_ONE);
    assert_eq!(w.sample_at(WAVE_SAMPLES / 2), -FP_ONE);
    assert_eq!(w.sample_at(WAVE_SAMPLES - 1), -FP_ONE);
}

#[test]
fn saw_wave_descends_across_the_table() {
    let w = Wave::saw();
    assert_eq!(w.sample_at(0), FP_ONE);
    assert_eq!(w.sample_at(1), FP_ONE - 65);
    assert_eq!(w.sample_at(WAVE_SAMPLES - 1), -FP_ONE);
}

#[test]
fn triangle_wave_rises_then_mirrors() {
    let w = Wave::triangle();
    assert_eq!(w.sample_at(0), -FP_ONE);
    assert_eq!(w.sample_at(WAVE_SAMPLES / 2 - 1), FP_ONE);
    assert_eq!(w.sample_at(WAVE_SAMPLES / 2), FP_ONE);
    assert_eq!(w.sample_at(WAVE_SAMPLES - 1), -FP_ONE);
}

#[test]
fn zero_wave_is_silent() {
    let w = Wave::zero();
    assert_eq!(w.sample_at(0), 0);
    assert_eq!(w.sample_at(WAVE_SAMPLES - 1), 0);
}

#[test]
fn wavetable_exposes_its_first_wave() {
    let table = WaveTable::new(vec![Wave::square(), Wave::zero()]);
    assert_eq!(table.first_sample_at(0), FP_ONE);
}

#[test]
fn saturating_addition_clamps_at_the_bounds() {
    assert_eq!(sat_add(2, 3), 5);
    assert_eq!(sat_add(i64::MAX, 1), i64::MAX);
    assert_eq!(sat_add(i64::MIN, -1), i64::MIN);
    assert_eq!(sat_add(-5, 5), 0);
}

#[test]
fn fixed_point_multiplication() {
    assert_eq!(fp_mul(FP_ONE, FP_ONE), FP_ONE);
    assert_eq!(fp_mul(FP_HALF, FP_ONE), FP_HALF);
    assert_eq!(fp_mul(-FP_ONE, FP_ONE), -FP_ONE);
    assert_eq!(fp_mul(3 * FP_ONE / 2, FP_HALF), 3 * FP_ONE / 4);
    // Truncation is toward zero on both sides.
    assert_eq!(fp_mul(-1, 1), 0);
    assert_eq!(fp_mul(1, 1), 0);
}

#[test]
fn fixed_point_index_saturates() {
    assert_eq!(fp_index(-5, 10), 0);
    assert_eq!(fp_index(FP_ONE, 10), 1);
    assert_eq!(fp_index(10 * FP_ONE, 10), 9);
    assert_eq!(fp_index(3 * FP_ONE + 40000, 10), 3);
}

#[test]
fn truncating_division_and_remainder() {
    assert_eq!(tdiv_i64(-131072, 2), -65536);
    assert_eq!(tdiv_i64(131073, 65536), 2);
    assert_eq!(tdiv_i64(-131073, 65536), -2);
    assert_eq!(trem_i64(-100, 65536), -100);
    assert_eq!(trem_i64(131073, 65536), 1);
    assert_eq!(trem_i64(-131073, 65536), -1);
}
