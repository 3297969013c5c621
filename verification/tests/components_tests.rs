use dmg_audio::components::{
    FadeOut, MaxConcurrent, PlaybackRandomizer, PlaybackSettings, SoundEffectCounter, SourceHandle,
};
use dmg_audio::volume::Volume;
use dmg_audio::bundles::DEFAULT_CONCURRENCY_INTERVAL;

#[test]
fn max_concurrent_new() {
    let handle = SourceHandle::new(0);
    let mc = MaxConcurrent::new(handle.id, 5);

    assert_eq!(mc.max, 5);
}

#[test]
fn sound_effect_counter_with_interval() {
    // Half a second, in microseconds.
    let counter = SoundEffectCounter::with_interval(500_000);

    assert!(counter.counts.is_empty());
    assert_eq!(counter.timer.period, 500_000);
    assert_eq!(counter.timer.elapsed, 0);
}

#[test]
fn sound_effect_counter_default_interval() {
    let counter = SoundEffectCounter::default();
    assert_eq!(counter.timer.period, DEFAULT_CONCURRENCY_INTERVAL);
}

#[test]
fn counter_reset_clears_counts() {
    let mut counter = SoundEffectCounter::with_interval(500_000);
    counter.counts.push((7, 3));
    let fired = counter.tick(100_000);
    assert!(!fired);
    assert_eq!(counter.counts.len(), 1);
    let fired = counter.tick(400_000);
    assert!(fired);
    assert!(counter.counts.is_empty());
}

#[test]
fn playback_randomizer_standard() {
    let randomizer = PlaybackRandomizer::standard();

    assert_eq!(randomizer.volume_range, Some((600_000, 1_000_000)));
    assert_eq!(randomizer.speed_range, Some((700_000, 1_300_000)));
}

#[test]
fn playback_randomizer_builder() {
    let randomizer = PlaybackRandomizer::new()
        .with_volume(500_000, 900_000)
        .with_speed(800_000, 1_200_000);

    assert_eq!(randomizer.volume_range, Some((500_000, 900_000)));
    assert_eq!(randomizer.speed_range, Some((800_000, 1_200_000)));
}

#[test]
fn playback_randomizer_applies_to_settings() {
    // Fixed value for testing
    let randomizer = PlaybackRandomizer::new().with_volume(500_000, 500_000);

    let mut settings = PlaybackSettings::default();
    randomizer.apply(&mut settings);

    match settings.volume {
        Volume::Linear(v) => assert_eq!(v, 500_000),
        _ => panic!("Expected linear volume"),
    }
}

#[test]
fn playback_randomizer_draws_within_range() {
    let randomizer = PlaybackRandomizer::standard();
    for _ in 0..50 {
        let mut settings = PlaybackSettings::default();
        randomizer.apply(&mut settings);
        match settings.volume {
            Volume::Linear(v) => assert!((600_000..=1_000_000).contains(&v)),
            _ => panic!("Expected linear volume"),
        }
        assert!((700_000..=1_300_000).contains(&settings.speed));
    }
}

#[test]
fn fade_half_way_is_half_volume() {
    // Duration 2 s, initial 1.0: at 1 s elapsed the volume is exactly 0.5.
    let mut fade = FadeOut::new(2_000_000).with_initial_volume(1_000_000);
    fade.tick(1_000_000);
    assert!(!fade.is_finished());
    assert_eq!(fade.current_volume(), 500_000);
}

#[test]
fn fade_volume_is_non_increasing_over_ticks() {
    let mut fade = FadeOut::new(1_000_000).with_initial_volume(800_000);
    let mut last = fade.current_volume();
    assert_eq!(last, 800_000);
    for _ in 0..12 {
        fade.tick(100_000);
        let v = fade.current_volume();
        assert!(v <= last);
        last = v;
    }
    assert!(fade.is_finished());
    assert_eq!(fade.current_volume(), 0);
}

#[test]
fn zero_duration_fade_finishes_at_once() {
    let mut fade = FadeOut::new(0).with_initial_volume(900_000);
    assert_eq!(fade.current_volume(), 0);
    fade.tick(0);
    assert!(fade.is_finished());
}
