//! Equalization and pitch-filter behaviour on concrete stereo signals.

use audio_virtualizer::audio_data::AudioData;
use audio_virtualizer::pitch_filter::PitchFilter;
use audio_virtualizer::surround_virtualizer::Equalizer;

#[test]
fn zero_pitch_keeps_pass_through_coefficients() {
    let mut pf = PitchFilter::<f32>::new();
    pf.recompute(&0.0f32);
    assert!((pf.b0 - 1.0).abs() < 1e-6);
    assert!(pf.b1.abs() < 1e-6);
    assert!(pf.b2.abs() < 1e-6);
    assert!(pf.a1.abs() < 1e-6);
    assert!(pf.a2.abs() < 1e-6);
}

#[test]
fn nonzero_pitch_bends_the_coefficients() {
    let mut pf = PitchFilter::<f32>::new();
    pf.recompute(&0.3f32);
    let moved = (pf.b0 - 1.0).abs() > 1e-6 || pf.b1.abs() > 1e-6 || pf.a1.abs() > 1e-6;
    assert!(moved, "a pitched head must change the correction");
    for c in [pf.b0, pf.b1, pf.b2, pf.a1, pf.a2] {
        assert!(c.is_finite());
    }
}

#[test]
fn pitch_clamps_to_thirty_degrees() {
    let mut shallow = PitchFilter::<f32>::new();
    // 30 degrees in radians; anything steeper clamps to the same gain.
    shallow.recompute(&(30.0f32).to_radians());
    let mut steep = PitchFilter::<f32>::new();
    steep.recompute(&(80.0f32).to_radians());
    assert!((shallow.b0 - steep.b0).abs() < 1e-6);
    assert!((shallow.a1 - steep.a1).abs() < 1e-6);
}

#[test]
fn pass_through_filter_leaves_samples_exactly() {
    let mut pf = PitchFilter::<f32>::new();
    pf.recompute(&0.0f32);
    let mut left = vec![0.5f32, -0.25, 1.0, 0.0];
    let mut right = vec![-1.0f32, 0.75, 0.125, 2.0];
    let (l0, r0) = (left.clone(), right.clone());
    pf.apply_stereo(&mut left, &mut right);
    assert_eq!(left, l0);
    assert_eq!(right, r0);
}

#[test]
fn stateful_filter_depends_on_call_order() {
    let mut pf = PitchFilter::<f32>::new();
    pf.recompute(&0.2f32);
    let mut a = vec![1.0f32, 0.0, 0.0, 0.0];
    let mut b = vec![1.0f32, 0.0, 0.0, 0.0];
    pf.apply_stereo(&mut a.clone(), &mut vec![0.0f32; 4]);
    // The left-ear history now differs from a fresh filter's.
    pf.apply_stereo(&mut a, &mut vec![0.0f32; 4]);
    let mut fresh = PitchFilter::<f32>::new();
    fresh.recompute(&0.2f32);
    fresh.apply_stereo(&mut b, &mut vec![0.0f32; 4]);
    // Coefficients with feedback plus a warm history give another output.
    assert!(a.iter().zip(b.iter()).any(|(x, y)| (x - y).abs() > 1e-9));
}

#[test]
fn unit_impulse_equalizer_is_transparent() {
    let block_size = 4;
    let mut eq = Equalizer::<f32>::new(block_size, vec![1.0f32]);
    let samples: Vec<f32> = vec![0.1, -0.9, 0.2, 0.8, -0.3, 0.7, 0.4, -0.6];
    let mut stereo = AudioData::new(samples.clone(), 2);
    eq.process(&mut stereo);
    let out = stereo.into_samples();
    for i in 0..samples.len() {
        assert!(
            (out[i] - samples[i]).abs() < 1e-4,
            "sample {}: equalized {} original {}",
            i,
            out[i],
            samples[i]
        );
    }
}

#[test]
fn equalizer_with_gain_halves_the_signal() {
    let block_size = 4;
    let mut eq = Equalizer::<f32>::new(block_size, vec![0.5f32]);
    let samples: Vec<f32> = vec![1.0, 1.0, -1.0, -1.0, 0.5, 0.5, -0.5, -0.5];
    let mut stereo = AudioData::new(samples.clone(), 2);
    eq.process(&mut stereo);
    let out = stereo.into_samples();
    for i in 0..samples.len() {
        assert!((out[i] - samples[i] * 0.5).abs() < 1e-4);
    }
}
