use dawr::consts::CHUNK_SIZE;
use dawr::effects::HardClipper;
use dawr::events::EventSource;
use dawr::fixed::{FP_HALF, FP_ONE};
use dawr::graph::Graph;
use dawr::sampler::SamplerEvent;
use dawr::synth::{NoteEvent, Wave, WaveTable};

#[test]
fn hard_clip_values() {
    let clipper = HardClipper::new();
    // 1.5 clips to 1.0, -2.0 clips to -1.0, 0.3 passes unchanged.
    assert_eq!(clipper.shape(3 * FP_ONE / 2), FP_ONE);
    assert_eq!(clipper.shape(-2 * FP_ONE), -FP_ONE);
    assert_eq!(clipper.shape(19661), 19661);
    assert_eq!(clipper.shape(FP_ONE), FP_ONE);
    assert_eq!(clipper.shape(-FP_ONE), -FP_ONE);
}

#[test]
fn const_signal_fills_its_chunk() {
    let mut g = Graph::new();
    let c = g.add_const_signal(1234);
    g.pull(0);
    let out = g.left_output(c);
    assert_eq!(out.len(), CHUNK_SIZE);
    assert!(out.iter().all(|&v| v == 1234));
}

#[test]
fn envelope_follows_note_events_sample_accurately() {
    let mut g = Graph::new();
    let src = g.add_note_source(EventSource::new(vec![
        (5, NoteEvent::NoteOn(440 * FP_ONE)),
        (64, NoteEvent::NoteOff),
    ]));
    let env = g.add_envelope(src);
    g.pull(0);
    let out = g.left_output(env);
    assert_eq!(out[0], 0);
    assert_eq!(out[4], 0);
    assert_eq!(out[5], FP_ONE);
    assert_eq!(out[63], FP_ONE);
    assert_eq!(out[64], 0);
    assert_eq!(out[127], 0);
}

#[test]
fn envelope_gate_survives_chunk_boundaries() {
    let mut g = Graph::new();
    let src = g.add_note_source(EventSource::new(vec![(0, NoteEvent::NoteOn(FP_ONE))]));
    let env = g.add_envelope(src);
    g.pull(0);
    g.pull(CHUNK_SIZE as u64);
    let out = g.left_output(env);
    assert!(out.iter().all(|&v| v == FP_ONE));
}

#[test]
fn envelope_same_timestamp_events_apply_in_order() {
    let mut g = Graph::new();
    let src = g.add_note_source(EventSource::new(vec![
        (0, NoteEvent::NoteOn(FP_ONE)),
        (0, NoteEvent::NoteOff),
    ]));
    let env = g.add_envelope(src);
    g.pull(0);
    let out = g.left_output(env);
    // Both tied events land before sample 0, in sequence order: the
    // later note-off decides, so the chunk is silent.
    assert_eq!(out[0], 0);
    assert_eq!(out[127], 0);
}

#[test]
fn envelope_events_after_a_tie_still_fire() {
    let mut g = Graph::new();
    let src = g.add_note_source(EventSource::new(vec![
        (0, NoteEvent::NoteOn(FP_ONE)),
        (0, NoteEvent::NoteOff),
        (5, NoteEvent::NoteOn(FP_ONE)),
    ]));
    let env = g.add_envelope(src);
    g.pull(0);
    let out = g.left_output(env);
    assert_eq!(out[0], 0);
    assert_eq!(out[4], 0);
    assert_eq!(out[5], FP_ONE);
    assert_eq!(out[127], FP_ONE);
}

#[test]
fn oscillator_note_off_tie_does_not_block_note_on() {
    // A note-off sharing its timestamp with a following note-on must
    // not swallow it: removing the note-off changes nothing.
    let mut with_off = Graph::new();
    let src = with_off.add_note_source(EventSource::new(vec![
        (0, NoteEvent::NoteOff),
        (0, NoteEvent::NoteOn(FP_ONE)),
    ]));
    let detune = with_off.add_const_signal(FP_ONE);
    let osc = with_off.add_oscillator(src, detune);
    with_off.pull(0);

    let mut without_off = Graph::new();
    let src2 = without_off.add_note_source(EventSource::new(vec![(0, NoteEvent::NoteOn(FP_ONE))]));
    let detune2 = without_off.add_const_signal(FP_ONE);
    let osc2 = without_off.add_oscillator(src2, detune2);
    without_off.pull(0);

    assert_eq!(with_off.left_output(osc), without_off.left_output(osc2));
    assert_eq!(with_off.left_output(osc)[0], 0);
    assert_eq!(with_off.left_output(osc)[1], 2987);
}

#[test]
fn oscillator_emits_then_advances_phase() {
    let mut g = Graph::new();
    let src = g.add_note_source(EventSource::new(vec![(0, NoteEvent::NoteOn(FP_ONE))]));
    let detune = g.add_const_signal(FP_ONE);
    let osc = g.add_oscillator(src, detune);
    g.pull(0);
    // At 1 Hz the per-sample increment is 2010 * 65536 / 44100 = 2987.
    let out = g.left_output(osc);
    assert_eq!(out[0], 0);
    assert_eq!(out[1], 2987);
    assert_eq!(out[2], 2 * 2987);
    assert_eq!(out[127], 127 * 2987);
}

#[test]
fn oscillator_phase_continues_across_chunks() {
    let mut g = Graph::new();
    let src = g.add_note_source(EventSource::new(vec![(0, NoteEvent::NoteOn(FP_ONE))]));
    let detune = g.add_const_signal(FP_ONE);
    let osc = g.add_oscillator(src, detune);
    g.pull(0);
    g.pull(CHUNK_SIZE as u64);
    let out = g.left_output(osc);
    assert_eq!(out[0], 128 * 2987);
}

#[test]
fn oscillator_ignores_note_off() {
    let mut g = Graph::new();
    let src = g.add_note_source(EventSource::new(vec![
        (0, NoteEvent::NoteOn(FP_ONE)),
        (2, NoteEvent::NoteOff),
    ]));
    let detune = g.add_const_signal(FP_ONE);
    let osc = g.add_oscillator(src, detune);
    g.pull(0);
    let out = g.left_output(osc);
    // The phase keeps running through the note-off.
    assert_eq!(out[3], 3 * 2987);
}

#[test]
fn mono_synth_looks_up_the_first_wave() {
    let mut g = Graph::new();
    let phase = g.add_const_signal(0);
    let position = g.add_const_signal(0);
    let amp = g.add_const_signal(FP_ONE);
    let table = WaveTable::new(vec![Wave::square()]);
    let synth = g.add_mono_synth(table, phase, position, amp);
    g.pull(0);
    let out = g.left_output(synth);
    // Phase 0 reads the square's first entry, full scale.
    assert!(out.iter().all(|&v| v == FP_ONE));
}

#[test]
fn mono_synth_scales_by_amplitude() {
    let mut g = Graph::new();
    // Phase pointing into the square's negative half.
    let phase = g.add_const_signal(1005 * FP_ONE);
    let position = g.add_const_signal(0);
    let amp = g.add_const_signal(FP_HALF);
    let table = WaveTable::new(vec![Wave::square()]);
    let synth = g.add_mono_synth(table, phase, position, amp);
    g.pull(0);
    let out = g.left_output(synth);
    assert!(out.iter().all(|&v| v == -FP_HALF));
}

#[test]
fn sampler_plays_buffer_once_then_silence() {
    let mut g = Graph::new();
    let src = g.add_sampler_source(EventSource::new(vec![(0, SamplerEvent::Play)]));
    let sampler = g.add_sampler(src, vec![1, 2, 3, 4], vec![1, 2, 3, 4]);
    g.pull(0);
    let left = g.left_output(sampler).clone();
    let right = g.right_output(sampler).clone();
    assert_eq!(&left[0..6], &[1, 2, 3, 4, 0, 0]);
    assert!(left[4..].iter().all(|&v| v == 0));
    assert_eq!(left, right);
}

#[test]
fn sampler_at_double_speed_skips_samples() {
    let mut g = Graph::new();
    let src = g.add_sampler_source(EventSource::new(vec![(
        0,
        SamplerEvent::PlayAtSpeed(2 * FP_ONE),
    )]));
    let sampler = g.add_sampler(src, vec![1, 2, 3, 4], vec![1, 2, 3, 4]);
    g.pull(0);
    let left = g.left_output(sampler);
    assert_eq!(&left[0..4], &[1, 3, 0, 0]);
}

#[test]
fn sampler_trigger_is_sample_accurate() {
    let mut g = Graph::new();
    let src = g.add_sampler_source(EventSource::new(vec![(130, SamplerEvent::Play)]));
    let sampler = g.add_sampler(src, vec![9, 8, 7], vec![9, 8, 7]);
    g.pull(0);
    assert!(g.left_output(sampler).iter().all(|&v| v == 0));
    g.pull(CHUNK_SIZE as u64);
    let left = g.left_output(sampler);
    assert_eq!(&left[0..6], &[0, 0, 9, 8, 7, 0]);
}

#[test]
fn sampler_retrigger_restarts_playback() {
    let mut g = Graph::new();
    let src = g.add_sampler_source(EventSource::new(vec![
        (0, SamplerEvent::Play),
        (2, SamplerEvent::Play),
    ]));
    let sampler = g.add_sampler(src, vec![5, 6, 7, 8], vec![5, 6, 7, 8]);
    g.pull(0);
    let left = g.left_output(sampler);
    assert_eq!(&left[0..7], &[5, 6, 5, 6, 7, 8, 0]);
}

#[test]
fn sampler_same_timestamp_triggers_drain_in_order() {
    let mut g = Graph::new();
    let src = g.add_sampler_source(EventSource::new(vec![
        (0, SamplerEvent::Play),
        (0, SamplerEvent::PlayAtSpeed(2 * FP_ONE)),
    ]));
    let sampler = g.add_sampler(src, vec![1, 2, 3, 4], vec![1, 2, 3, 4]);
    g.pull(0);
    let left = g.left_output(sampler);
    // Both triggers land before sample 0; the later one wins.
    assert_eq!(&left[0..3], &[1, 3, 0]);
}

#[test]
fn mono_to_stereo_halves_each_channel() {
    let mut g = Graph::new();
    let mono = g.add_const_signal(FP_ONE);
    let stereo = g.add_mono_to_stereo(mono);
    g.pull(0);
    assert!(g.left_output(stereo).iter().all(|&v| v == FP_HALF));
    assert!(g.right_output(stereo).iter().all(|&v| v == FP_HALF));
}

#[test]
fn stereo_to_mono_recovers_a_spread_signal() {
    let mut g = Graph::new();
    let mono = g.add_const_signal(FP_ONE);
    let stereo = g.add_mono_to_stereo(mono);
    let back = g.add_stereo_to_mono(stereo);
    g.pull(0);
    assert!(g.left_output(back).iter().all(|&v| v == FP_ONE));
}

#[test]
fn mixer_sums_inputs_per_sample() {
    let mut g = Graph::new();
    let a = g.add_const_signal(FP_ONE);
    let sa = g.add_mono_to_stereo(a);
    let b = g.add_const_signal(FP_HALF);
    let sb = g.add_mono_to_stereo(b);
    let mix = g.add_mixer(vec![sa, sb]);
    g.pull(0);
    assert!(g.left_output(mix).iter().all(|&v| v == FP_HALF + FP_HALF / 2));
}

#[test]
fn empty_mixer_is_silent() {
    let mut g = Graph::new();
    let mix = g.add_mixer(Vec::new());
    g.pull(0);
    assert!(g.left_output(mix).iter().all(|&v| v == 0));
    assert!(g.right_output(mix).iter().all(|&v| v == 0));
}

#[test]
fn gain_scales_by_the_control_signal() {
    let mut g = Graph::new();
    let input = g.add_const_signal(FP_ONE);
    let stereo = g.add_mono_to_stereo(input);
    let boost = g.add_const_signal(FP_HALF);
    let gained = g.add_gain(stereo, boost);
    g.pull(0);
    assert!(g.left_output(gained).iter().all(|&v| v == FP_HALF / 2));
    assert!(g.right_output(gained).iter().all(|&v| v == FP_HALF / 2));
}

#[test]
fn pan_center_attenuates_both_channels_by_3_db() {
    let mut g = Graph::new();
    let input = g.add_const_signal(FP_ONE);
    let stereo = g.add_mono_to_stereo(input);
    let position = g.add_const_signal(0);
    let panned = g.add_pan(stereo, position);
    g.pull(0);
    // Each channel held 0.5; 0.5 * 10^(-3/20) = 0.35397..., which is
    // 23198 at the fixed-point scale (46396 / 2).
    assert!(g.left_output(panned).iter().all(|&v| v == 23198));
    assert!(g.right_output(panned).iter().all(|&v| v == 23198));
    let gain = 23198.0_f64 / 32768.0_f64;
    assert!((gain - 0.7079).abs() < 0.001);
}

#[test]
fn pan_hard_right_silences_the_left_channel() {
    let mut g = Graph::new();
    let input = g.add_const_signal(FP_ONE);
    let stereo = g.add_mono_to_stereo(input);
    let position = g.add_const_signal(FP_ONE);
    let panned = g.add_pan(stereo, position);
    g.pull(0);
    assert!(g.left_output(panned).iter().all(|&v| v == 0));
    assert!(g.right_output(panned).iter().all(|&v| v == FP_HALF));
}

#[test]
fn pan_hard_left_mirrors_hard_right() {
    let mut g = Graph::new();
    let input = g.add_const_signal(FP_ONE);
    let stereo = g.add_mono_to_stereo(input);
    let position = g.add_const_signal(-FP_ONE);
    let panned = g.add_pan(stereo, position);
    g.pull(0);
    assert!(g.left_output(panned).iter().all(|&v| v == FP_HALF));
    assert!(g.right_output(panned).iter().all(|&v| v == 0));
}

#[test]
fn wave_shaper_clips_a_hot_signal() {
    let mut g = Graph::new();
    let input = g.add_const_signal(3 * FP_ONE);
    let stereo = g.add_mono_to_stereo(input);
    let shaped = g.add_wave_shaper(stereo);
    g.pull(0);
    // 3.0 spread to stereo is 1.5 per channel, clipped to 1.0.
    assert!(g.left_output(shaped).iter().all(|&v| v == FP_ONE));
    assert!(g.right_output(shaped).iter().all(|&v| v == FP_ONE));
}

#[test]
fn stereo_to_mono_truncation_loses_an_odd_unit() {
    let mut g = Graph::new();
    let mono = g.add_const_signal(FP_ONE + 1);
    let stereo = g.add_mono_to_stereo(mono);
    let back = g.add_stereo_to_mono(stereo);
    g.pull(0);
    // Halving truncates toward zero, so the odd unit does not survive
    // the round trip.
    assert!(g.left_output(back).iter().all(|&v| v == FP_ONE));
}

#[test]
fn gain_of_one_is_the_identity() {
    let mut g = Graph::new();
    let input = g.add_const_signal(12345);
    let stereo = g.add_mono_to_stereo(input);
    let boost = g.add_const_signal(FP_ONE);
    let gained = g.add_gain(stereo, boost);
    g.pull(0);
    assert_eq!(g.left_output(gained), g.left_output(stereo));
    assert_eq!(g.right_output(gained), g.right_output(stereo));
}

#[test]
fn oscillator_detune_scales_the_increment() {
    let mut g = Graph::new();
    let src = g.add_note_source(EventSource::new(vec![(0, NoteEvent::NoteOn(FP_ONE))]));
    let detune = g.add_const_signal(2 * FP_ONE);
    let osc = g.add_oscillator(src, detune);
    g.pull(0);
    let out = g.left_output(osc);
    // Twice the detune multiplier doubles the per-sample phase step.
    assert_eq!(out[1], 2 * 2987);
}

#[test]
fn cache_stability_two_pulls_return_identical_buffers() {
    let mut g = Graph::new();
    let src = g.add_note_source(EventSource::new(vec![
        (0, NoteEvent::NoteOn(FP_ONE)),
        (64, NoteEvent::NoteOff),
    ]));
    let detune = g.add_const_signal(FP_ONE);
    let osc = g.add_oscillator(src, detune);
    let env = g.add_envelope(src);
    let table = WaveTable::new(vec![Wave::saw()]);
    let synth = g.add_mono_synth(table, osc, detune, env);
    let stereo = g.add_mono_to_stereo(synth);
    g.pull(0);
    let first_left = g.left_output(stereo).clone();
    let first_right = g.right_output(stereo).clone();
    let first_osc = g.left_output(osc).clone();
    g.pull(0);
    assert_eq!(g.left_output(stereo), &first_left);
    assert_eq!(g.right_output(stereo), &first_right);
    assert_eq!(g.left_output(osc), &first_osc);
}

#[test]
fn shared_node_feeds_several_parents_consistently() {
    let mut g = Graph::new();
    let src = g.add_note_source(EventSource::new(vec![(0, NoteEvent::NoteOn(FP_ONE))]));
    let detune = g.add_const_signal(FP_ONE);
    let osc = g.add_oscillator(src, detune);
    let env = g.add_envelope(src);
    let table = WaveTable::new(vec![Wave::square()]);
    // Two synths share the oscillator and the envelope.
    let synth_a = g.add_mono_synth(table.clone(), osc, detune, env);
    let synth_b = g.add_mono_synth(table, osc, detune, env);
    g.pull(0);
    assert_eq!(g.left_output(synth_a), g.left_output(synth_b));
}
