use silence_remover::codec::denormalize_sample;
use silence_remover::codec::normalize_sample;

#[test]
fn round_trip_is_exact_for_ordinary_samples() {
    for &x in &[0i32, 1, -1, 42, -1000, 32767, -32768, 1_000_000, -1_000_000] {
        assert_eq!(denormalize_sample(normalize_sample(x)), x);
    }
}

#[test]
fn round_trip_is_exact_at_the_extremes() {
    assert_eq!(denormalize_sample(normalize_sample(i32::MAX)), i32::MAX);
    // Even the extreme negative sample, whose normalized value falls
    // slightly past -1, comes back unchanged.
    assert_eq!(denormalize_sample(normalize_sample(i32::MIN)), i32::MIN);
}

#[test]
fn normalized_numerator_is_the_raw_sample() {
    assert_eq!(normalize_sample(12345).num, 12345);
    assert_eq!(normalize_sample(-7).num, -7);
}
