use comms_freq_sync::tracking::FULL_TURN_BITS;
use comms_freq_sync::{check_tracking_parameters, LoopState, SyncError};
use std::f32::consts::TAU;

#[test]
fn sound_parameters_are_accepted() {
    assert_eq!(
        check_tracking_parameters(8000.0f32.to_bits(), 0.132f32.to_bits(), 0.00932f32.to_bits()),
        Ok(())
    );
    assert_eq!(check_tracking_parameters(1.0f32.to_bits(), 0.0f32.to_bits(), 0.0f32.to_bits()), Ok(()));
    assert_eq!(
        check_tracking_parameters(1.0f32.to_bits(), (-0.0f32).to_bits(), f32::MAX.to_bits()),
        Ok(())
    );
}

#[test]
fn a_sample_rate_that_is_not_above_zero_is_refused() {
    let alpha = 0.132f32.to_bits();
    let beta = 0.00932f32.to_bits();
    for rate in [0.0f32, -0.0, -8000.0, f32::NAN, f32::NEG_INFINITY] {
        assert_eq!(
            check_tracking_parameters(rate.to_bits(), alpha, beta),
            Err(SyncError::InvalidParameter)
        );
    }
}

#[test]
fn gains_that_are_negative_or_not_finite_are_refused() {
    let rate = 8000.0f32.to_bits();
    let good = 0.1f32.to_bits();
    for gain in [-0.132f32, f32::INFINITY, f32::NEG_INFINITY, f32::NAN, -f32::MIN_POSITIVE] {
        assert_eq!(
            check_tracking_parameters(rate, gain.to_bits(), good),
            Err(SyncError::InvalidParameter)
        );
        assert_eq!(
            check_tracking_parameters(rate, good, gain.to_bits()),
            Err(SyncError::InvalidParameter)
        );
    }
}

#[test]
fn the_loop_starts_at_zero() {
    let state = LoopState::new();
    assert_eq!(state.phase(), 0);
    assert_eq!(state.frequency(), 0);
    assert_eq!(f32::from_bits(state.phase()), 0.0);
    assert_eq!(f32::from_bits(state.frequency()), 0.0);
}

#[test]
fn a_phase_within_one_turn_is_kept_as_it_is() {
    let mut state = LoopState::new();
    state.update(0.25f32.to_bits(), 1.5f32.to_bits());
    assert_eq!(state.phase(), 1.5f32.to_bits());
    assert_eq!(state.frequency(), 0.25f32.to_bits());
    state.update((-0.5f32).to_bits(), (FULL_TURN_BITS - 1));
    assert_eq!(state.phase(), FULL_TURN_BITS - 1);
    assert_eq!(state.frequency(), (-0.5f32).to_bits());
    state.update(f32::NAN.to_bits(), (-0.0f32).to_bits());
    assert_eq!(state.phase(), (-0.0f32).to_bits());
    assert_eq!(state.frequency(), f32::NAN.to_bits());
}

#[test]
fn a_phase_outside_one_turn_becomes_zero() {
    for phase in [TAU, 7.0, -0.001, f32::INFINITY, f32::NEG_INFINITY, f32::NAN, -TAU] {
        let mut state = LoopState::new();
        state.update(3.0f32.to_bits(), 1.0f32.to_bits());
        state.update(4.0f32.to_bits(), phase.to_bits());
        assert_eq!(state.phase(), 0);
        assert_eq!(state.frequency(), 4.0f32.to_bits());
    }
}

#[test]
fn rounding_at_the_upper_end_is_caught() {
    let reduced = (-1.0e-10f32).rem_euclid(TAU);
    assert_eq!(reduced, TAU);
    let mut state = LoopState::new();
    state.update(0, reduced.to_bits());
    assert_eq!(f32::from_bits(state.phase()), 0.0);
}

fn pseudo_random(seed: &mut u32) -> f32 {
    *seed = seed.wrapping_mul(1_103_515_245).wrapping_add(12_345) & 0x7fff_ffff;
    ((*seed >> 8) as f32 / (1u32 << 23) as f32) - 1.0
}

fn step(state: &mut LoopState, re: f32, im: f32, sample_rate: f32, alpha: f32, beta: f32) -> (f32, f32, f32) {
    let phase = f32::from_bits(state.phase());
    let mut frequency = f32::from_bits(state.frequency());
    let (sin, cos) = (-phase).sin_cos();
    let out_re = re * cos - im * sin;
    let out_im = re * sin + im * cos;
    let error = out_re * out_im;
    frequency += beta * error;
    let hertz = frequency * sample_rate / TAU;
    let next_phase = (phase + frequency + alpha * error).rem_euclid(TAU);
    state.update(frequency.to_bits(), next_phase.to_bits());
    (out_re, out_im, hertz)
}

#[test]
fn the_phase_stays_within_one_turn_after_every_update() {
    let mut seed: u32 = 99;
    let mut state = LoopState::new();
    for i in 0..20_000usize {
        let scale = if i % 500 == 499 { 1.0e6 } else { 1.0 };
        let re = pseudo_random(&mut seed) * scale;
        let im = pseudo_random(&mut seed) * scale;
        step(&mut state, re, im, 8000.0, 0.132, 0.00932);
        let phase = f32::from_bits(state.phase());
        assert!(phase >= 0.0 && phase < TAU);
    }
}

#[test]
fn the_phase_stays_within_one_turn_on_samples_that_are_not_numbers() {
    let mut state = LoopState::new();
    let samples: [(f32, f32); 6] = [
        (1.0, 0.5),
        (f32::NAN, 0.0),
        (0.3, -0.2),
        (f32::INFINITY, 1.0),
        (f32::MAX, f32::MAX),
        (-0.0, 0.0),
    ];
    for (re, im) in samples {
        step(&mut state, re, im, 8000.0, 0.132, 0.00932);
        let phase = f32::from_bits(state.phase());
        assert!(phase >= 0.0 && phase < TAU);
    }
}

fn track_tone(offset_hz: f64, sample_rate: f64, len: usize) -> Vec<f32> {
    assert_eq!(
        check_tracking_parameters(
            (sample_rate as f32).to_bits(),
            0.132f32.to_bits(),
            0.00932f32.to_bits()
        ),
        Ok(())
    );
    let mut seed: u32 = 12_345;
    let mut state = LoopState::new();
    let mut trace: Vec<f32> = Vec::new();
    for i in 0..len {
        let symbol = if pseudo_random(&mut seed) >= 0.0 { 1.0f64 } else { -1.0 };
        let angle = std::f64::consts::TAU * offset_hz * i as f64 / sample_rate + 0.5;
        let re = (symbol * angle.cos()) as f32;
        let im = (symbol * angle.sin()) as f32;
        let (_, _, hertz) = step(&mut state, re, im, sample_rate as f32, 0.132, 0.00932);
        trace.push(hertz);
    }
    trace
}

#[test]
fn the_loop_settles_on_the_residual_offset_of_a_two_phase_tone() {
    let beta = 0.00932f64;
    let settled = (5.0 / beta) as usize;
    for offset in [20.0f64, -35.0, 50.0, 5.0] {
        let trace = track_tone(offset, 8000.0, 3000);
        assert_eq!(trace.len(), 3000);
        for hertz in &trace[settled..] {
            assert!((*hertz as f64 - offset).abs() < 0.5);
        }
    }
}

#[test]
fn a_stream_without_samples_leaves_the_loop_where_it_started() {
    let trace = track_tone(20.0, 8000.0, 0);
    assert!(trace.is_empty());
    let state = LoopState::new();
    assert_eq!((state.phase(), state.frequency()), (0, 0));
}

#[test]
fn the_state_keeps_exactly_the_phases_within_one_turn() {
    let mut bits: u32 = 0;
    loop {
        let phase = f32::from_bits(bits);
        let within = phase >= 0.0 && phase < TAU;
        let mut state = LoopState::new();
        state.update(0, bits);
        assert_eq!(state.phase(), if within { bits } else { 0 });
        let (next, over) = bits.overflowing_add(0x0001_0f2d);
        if over {
            break;
        }
        bits = next;
    }
    for bits in [FULL_TURN_BITS - 1, FULL_TURN_BITS, FULL_TURN_BITS + 1, 0x7fff_ffff, 0x8000_0000, 0x8000_0001] {
        let phase = f32::from_bits(bits);
        let within = phase >= 0.0 && phase < TAU;
        let mut state = LoopState::new();
        state.update(0, bits);
        assert_eq!(state.phase(), if within { bits } else { 0 });
    }
}
