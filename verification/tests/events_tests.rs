use dmg_audio::bundles::DEFAULT_MAX_CONCURRENT;
use dmg_audio::components::{PlaybackMode, SourceHandle};
use dmg_audio::events::{FadeOutMusic, PlayMusic, PlaySfx, StopAllMusic, StopMusic};
use dmg_audio::traits::{MusicCategory, SfxCategory};
use dmg_audio::volume::Volume;

#[test]
fn play_sfx_default_max_concurrent() {
    let event = PlaySfx::new(SourceHandle::new(0), SfxCategory { tag: 0 });
    assert_eq!(event.max_concurrent, DEFAULT_MAX_CONCURRENT);
}

#[test]
fn play_sfx_with_max_concurrent() {
    let event = PlaySfx::new(SourceHandle::new(0), SfxCategory { tag: 0 }).with_max_concurrent(3);
    assert_eq!(event.max_concurrent, 3);
}

#[test]
fn play_music_defaults_to_looping() {
    let event = PlayMusic::new(SourceHandle::new(1), MusicCategory { tag: 2 });
    assert!(matches!(event.playback.mode, PlaybackMode::Loop));
    assert_eq!(event.category, MusicCategory { tag: 2 });
}

#[test]
fn play_sfx_randomized_stays_in_standard_ranges() {
    for _ in 0..50 {
        let event = PlaySfx::new(SourceHandle::new(3), SfxCategory { tag: 0 }).randomized();
        match event.playback.volume {
            Volume::Linear(v) => assert!((600_000..=1_000_000).contains(&v)),
            _ => panic!("Expected linear volume"),
        }
        assert!((700_000..=1_300_000).contains(&event.playback.speed));
    }
}

#[test]
fn stop_music_carries_its_category() {
    let event = StopMusic::new(MusicCategory { tag: 5 });
    assert_eq!(event.category.tag, 5);
}

#[test]
fn stop_all_music_default_builds() {
    let _event = StopAllMusic::default();
}

#[test]
fn fade_out_music_from_secs_converts_to_micros() {
    let event = FadeOutMusic::from_secs(MusicCategory { tag: 0 }, 2);
    assert_eq!(event.duration, 2_000_000);
    let event2 = FadeOutMusic::new(MusicCategory { tag: 0 }, 250_000);
    assert_eq!(event2.duration, 250_000);
}
