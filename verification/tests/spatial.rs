//! Nearest-direction selection, interpolation ratio, and angle conversion.

use audio_virtualizer::surround_virtualizer::angle_to_millidegrees;
use audio_virtualizer::surround_virtualizer::circular_distance;
use audio_virtualizer::surround_virtualizer::find_nearest_hrirs;
use audio_virtualizer::surround_virtualizer::interp_frac;

#[test]
fn query_on_a_position_picks_it_with_zero_ratio() {
    let azimuths: Vec<u32> = vec![0, 90000, 180000, 270000];
    let (idx0, idx1, num, den) = find_nearest_hrirs(&azimuths, 0);
    assert_eq!(idx0, 0);
    assert_eq!(num, 0);
    assert_eq!(idx1, 1);
    assert_eq!(den, 90000);
    let frac: f32 = interp_frac(num, den);
    assert_eq!(frac, 0.0);
}

#[test]
fn query_midway_picks_both_neighbours_at_half() {
    let azimuths: Vec<u32> = vec![0, 90000, 180000, 270000];
    let (idx0, idx1, num, den) = find_nearest_hrirs(&azimuths, 45000);
    // 45 degrees sits 45 from both 0 and 90; the first minimal index wins
    // each scan.
    assert_eq!(idx0, 0);
    assert_eq!(idx1, 1);
    assert_eq!(num, 45000);
    assert_eq!(den, 90000);
    let frac: f32 = interp_frac(num, den);
    assert!((frac - 0.5).abs() < 1e-6);
}

#[test]
fn wraparound_distances() {
    assert_eq!(circular_distance(350000, 10000), 20000);
    assert_eq!(circular_distance(10000, 350000), 20000);
    assert_eq!(circular_distance(0, 180000), 180000);
    assert_eq!(circular_distance(359999, 0), 1);
}

#[test]
fn nearest_across_the_wrap() {
    let azimuths: Vec<u32> = vec![10000, 180000, 350000];
    let (idx0, idx1, num, _den) = find_nearest_hrirs(&azimuths, 355000);
    assert_eq!(idx0, 2);
    assert_eq!(idx1, 0);
    assert_eq!(num, 5000);
}

#[test]
fn duplicate_positions_give_zero_span_and_zero_ratio() {
    let azimuths: Vec<u32> = vec![90000, 90000];
    let (idx0, idx1, _num, den) = find_nearest_hrirs(&azimuths, 100000);
    assert_eq!(idx0, 0);
    assert_eq!(idx1, 1);
    assert_eq!(den, 0);
    let frac: f32 = interp_frac(7, den);
    assert_eq!(frac, 0.0);
}

#[test]
fn radians_to_millidegrees() {
    assert_eq!(angle_to_millidegrees(&0.0f32), 0);
    let quarter = std::f32::consts::FRAC_PI_2;
    assert_eq!(angle_to_millidegrees(&quarter), 90000);
    let r = angle_to_millidegrees(&(-quarter));
    assert_eq!(r, 270000);
    // An unavailable sensor reads as NaN and lands on the forward default.
    assert_eq!(angle_to_millidegrees(&f32::NAN), 0);
}
