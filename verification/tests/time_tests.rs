use dawr::clock::Clock;
use dawr::consts::CHUNK_SIZE;
use dawr::conversions::TimeCalculator;

#[test]
fn clock_starts_at_zero() {
    let c = Clock::new();
    assert_eq!(c.time(), 0);
}

#[test]
fn clock_advances_by_one_chunk() {
    let mut c = Clock::new();
    c.increment();
    assert_eq!(c.time(), CHUNK_SIZE as u64);
}

#[test]
fn clock_additivity_concrete() {
    let mut c = Clock::new();
    let n: u64 = 5;
    for _ in 0..n {
        c.increment();
    }
    assert_eq!(c.time(), n * CHUNK_SIZE as u64);
}

#[test]
fn quarter_note_at_120_bpm_is_22050_samples() {
    let m = TimeCalculator::new(120);
    assert_eq!(m.add_quarters(1).time(), 22050);
}

#[test]
fn quarter_notes_accumulate() {
    let m = TimeCalculator::new(120);
    assert_eq!(m.add_quarters(1).add_quarters(1).time(), 44100);
    assert_eq!(m.add_quarters(2).time(), 44100);
}

#[test]
fn bar_is_four_quarters() {
    let m = TimeCalculator::new(120);
    assert_eq!(m.add_bars(1).time(), 88200);
    assert_eq!(m.add_quarters(4).time(), 88200);
}

#[test]
fn eigth_is_half_a_quarter() {
    let m = TimeCalculator::new(120);
    assert_eq!(m.add_eigths(1).time(), 11025);
    assert_eq!(m.add_eigths(2).time(), 22050);
}

#[test]
fn sixteenth_truncates_fractional_samples() {
    // 15 * 44100 / 120 = 5512.5, truncated to 5512.
    let m = TimeCalculator::new(120);
    assert_eq!(m.add_sixteenths(1).time(), 5512);
}

#[test]
fn seconds_convert_at_sample_rate() {
    let m = TimeCalculator::new(120);
    assert_eq!(m.add_seconds(2).time(), 88200);
}

#[test]
fn sixteen_bars_at_160_bpm() {
    let m = TimeCalculator::new(160);
    assert_eq!(m.add_bars(16).time(), 1_058_400);
}

#[test]
fn additions_do_not_mutate_the_receiver() {
    let m = TimeCalculator::new(120);
    let later = m.add_bars(2);
    assert_eq!(m.time(), 0);
    assert_eq!(later.time(), 176_400);
}
