use ternary_resonance::harmonic::{harmonic_slot, nearest_harmonic};

fn distance_key(d: f64) -> u64 {
    if d.is_nan() {
        u64::MAX
    } else {
        d.abs().to_bits()
    }
}

fn keys_for(fundamental: f64, harmonics: usize, freq: f64) -> Vec<u64> {
    (1..=harmonics)
        .map(|n| distance_key(fundamental * n as f64 - freq))
        .collect()
}

#[test]
fn slot_of_zero_is_none() {
    assert_eq!(harmonic_slot(5, 0), None);
}

#[test]
fn slot_of_fundamental_is_first() {
    assert_eq!(harmonic_slot(5, 1), Some(0));
}

#[test]
fn slot_of_last_harmonic() {
    assert_eq!(harmonic_slot(5, 5), Some(4));
}

#[test]
fn slot_past_last_harmonic_is_none() {
    assert_eq!(harmonic_slot(5, 6), None);
}

#[test]
fn slot_in_empty_series_is_none() {
    assert_eq!(harmonic_slot(0, 1), None);
}

#[test]
fn harmonic_series_frequencies() {
    let fundamental: f64 = 10.0;
    let frequency = |n: usize| match harmonic_slot(5, n) {
        Some(_) => fundamental * n as f64,
        None => 0.0,
    };
    assert!((frequency(1) - 10.0).abs() < 0.001);
    assert!((frequency(3) - 30.0).abs() < 0.001);
    assert!((frequency(0)).abs() < 0.001);
}

#[test]
fn harmonic_series_nearest() {
    assert_eq!(nearest_harmonic(&keys_for(10.0, 5, 10.0)), 1);
    assert_eq!(nearest_harmonic(&keys_for(10.0, 5, 20.0)), 2);
    assert_eq!(nearest_harmonic(&keys_for(10.0, 5, 39.0)), 4);
}

#[test]
fn nearest_of_empty_series_is_fundamental() {
    assert_eq!(nearest_harmonic(&Vec::new()), 1);
}

#[test]
fn nearest_tie_goes_to_lowest_harmonic() {
    assert_eq!(nearest_harmonic(&vec![7, 3, 5, 3]), 2);
}

#[test]
fn nearest_can_be_last_harmonic() {
    assert_eq!(nearest_harmonic(&vec![9, 8, 7, 6]), 4);
}

#[test]
fn nearest_beyond_last_harmonic_is_last() {
    assert_eq!(nearest_harmonic(&keys_for(10.0, 5, 1000.0)), 5);
}

#[test]
fn nearest_with_nan_frequency_is_fundamental() {
    assert_eq!(nearest_harmonic(&keys_for(10.0, 5, f64::NAN)), 1);
}
