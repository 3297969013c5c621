use dmg_audio::bundles::{MusicBundle, SfxBundle, DEFAULT_MAX_CONCURRENT};
use dmg_audio::components::{PlaybackMode, PlaybackSettings, SourceHandle};
use dmg_audio::traits::{MusicCategory, SfxCategory};
use dmg_audio::volume::Volume;

#[test]
fn music_bundle_uses_loop_playback() {
    let handle = SourceHandle::new(0);
    let bundle = MusicBundle::new(handle, MusicCategory { tag: 0 });

    assert!(matches!(bundle.playback.mode, PlaybackMode::Loop));
}

#[test]
fn sfx_bundle_uses_despawn_playback() {
    let handle = SourceHandle::new(0);
    let bundle = SfxBundle::new(handle, SfxCategory { tag: 0 });

    // Despawn mode disposes of the instance after playback
    assert!(matches!(bundle.playback.mode, PlaybackMode::Despawn));
}

#[test]
fn sfx_bundle_default_max_concurrent() {
    let handle = SourceHandle::new(0);
    let bundle = SfxBundle::new(handle, SfxCategory { tag: 0 });

    assert_eq!(bundle.max_concurrent.max, DEFAULT_MAX_CONCURRENT);
}

#[test]
fn sfx_bundle_with_max_concurrent() {
    let handle = SourceHandle::new(0);
    let bundle = SfxBundle::new(handle, SfxCategory { tag: 0 }).with_max_concurrent(3);

    assert_eq!(bundle.max_concurrent.max, 3);
}

#[test]
fn music_bundle_with_settings_keeps_them() {
    let handle = SourceHandle::new(4);
    let settings = PlaybackSettings {
        mode: PlaybackMode::Once,
        volume: Volume::Decibels(-20),
        speed: 900_000,
    };
    let bundle = MusicBundle::with_settings(handle, MusicCategory { tag: 1 }, settings);
    assert_eq!(bundle.playback, settings);
}

#[test]
fn sfx_bundle_randomized_stays_in_standard_ranges() {
    for _ in 0..50 {
        let bundle = SfxBundle::new(SourceHandle::new(2), SfxCategory { tag: 0 }).randomized();
        match bundle.playback.volume {
            Volume::Linear(v) => assert!((600_000..=1_000_000).contains(&v)),
            _ => panic!("Expected linear volume"),
        }
        assert!((700_000..=1_300_000).contains(&bundle.playback.speed));
    }
}

#[test]
fn sfx_bundle_collapsed_range_draws_that_value() {
    // A collapsed range can only produce its single value; this fails if the
    // drawn volume were anything else.
    let bundle = SfxBundle::new(SourceHandle::new(2), SfxCategory { tag: 0 })
        .with_volume(300_000, 300_000)
        .with_speed(1_100_000, 1_100_000);
    assert_eq!(bundle.playback.volume, Volume::Linear(300_000));
    assert_eq!(bundle.playback.speed, 1_100_000);
}
