use dmg_audio::volume::{decibel_to_linear, extract_linear_volume, mul_volume, resolve_volume, Volume, VOLUME_SCALE};

#[test]
fn extract_linear_volume_from_linear() {
    let volume = Volume::Linear(500_000);
    assert_eq!(extract_linear_volume(volume), 500_000);
}

#[test]
fn extract_linear_volume_from_decibels() {
    // -20 dB should be approximately 0.1
    let volume = Volume::Decibels(-20);
    let linear = extract_linear_volume(volume);
    assert!((linear as f64 / VOLUME_SCALE as f64 - 0.1).abs() < 0.001);
}

#[test]
fn extract_linear_volume_zero_db() {
    // 0 dB should be 1.0
    let volume = Volume::Decibels(0);
    let linear = extract_linear_volume(volume);
    assert_eq!(linear, VOLUME_SCALE);
}

#[test]
fn decibel_round_trip_values() {
    assert_eq!(decibel_to_linear(0), 1_000_000);
    let minus_twenty = decibel_to_linear(-20);
    assert!((minus_twenty as f64 / 1e6 - 0.1).abs() < 0.001);
    // One decade per 20 dB, in both directions.
    assert_eq!(decibel_to_linear(20), 10_000_000);
    assert_eq!(decibel_to_linear(-40), 10_000);
    // -6 dB is close to one half.
    let half = decibel_to_linear(-6);
    assert!((half as f64 / 1e6 - 0.501187).abs() < 0.001);
    // Deep attenuation rounds to silence.
    assert_eq!(decibel_to_linear(-200), 0);
}

#[test]
fn mul_volume_is_exact_in_millionths() {
    assert_eq!(mul_volume(800_000, 500_000), 400_000);
    assert_eq!(mul_volume(VOLUME_SCALE, 123_456), 123_456);
    assert_eq!(mul_volume(0, u64::MAX), 0);
    // Saturates instead of overflowing.
    assert_eq!(mul_volume(u64::MAX, u64::MAX), u64::MAX);
}

#[test]
fn resolve_is_silent_when_muted() {
    // Muted: effective volume is zero, so the resolved volume is zero
    // whatever the multiplier and playback volume are.
    let r = resolve_volume(0, 900_000, Volume::Linear(1_000_000));
    assert_eq!(r, 0);
}

#[test]
fn resolve_multiplies_master_category_and_playback() {
    // Unmuted: 0.8 * 0.5 * 1.0 = 0.4
    let r = resolve_volume(800_000, 500_000, Volume::Linear(1_000_000));
    assert_eq!(r, 400_000);
    // 1.0 * 1.0 * (-20 dB) = 0.1
    let r2 = resolve_volume(1_000_000, 1_000_000, Volume::Decibels(-20));
    assert_eq!(r2, 100_000);
}
