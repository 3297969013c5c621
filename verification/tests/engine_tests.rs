use dmg_audio::bundles::{MusicBundle, SfxBundle, DEFAULT_CONCURRENCY_INTERVAL};
use dmg_audio::components::{SinkState, SourceHandle};
use dmg_audio::events::{FadeOutMusic, PlayMusic, PlaySfx, StopAllMusic, StopMusic};
use dmg_audio::traits::{AudioConfig, MusicCategory, SfxCategory};
use dmg_audio::AudioEngine;

fn full_volume_config() -> AudioConfig {
    AudioConfig {
        master: 1_000_000,
        muted: false,
        music_levels: Vec::new(),
        sfx_levels: Vec::new(),
        generation: 0,
    }
}

fn sink_volume(sink: &SinkState) -> Option<u64> {
    match sink {
        SinkState::Ready { volume, .. } => Some(*volume),
        SinkState::Pending => None,
    }
}

#[test]
fn plugin_builds_without_panic() {
    let mut engine = AudioEngine::new();
    let config = full_volume_config();
    engine.update(&config, 16_000);
    assert_eq!(engine.table.music_len(), 0);
    assert_eq!(engine.table.sfx_len(), 0);
}

#[test]
fn minimal_plugin_registers_resources() {
    // The engine's shared state exists from construction, before any tick.
    let engine = AudioEngine::new();
    assert!(engine.counter.counts.is_empty());
    assert_eq!(engine.counter.timer.period, DEFAULT_CONCURRENCY_INTERVAL);
}

#[test]
fn concurrency_cap_keeps_first_three_of_five() {
    // PlaySfx with max_concurrent = 3, submitted 5 times for the same source
    // in one tick: after the limiter's evaluation pass, exactly 3 instances
    // are alive and 2 were disposed of.
    let mut engine = AudioEngine::new();
    let config = full_volume_config();
    for _ in 0..5 {
        engine.submit_play_sfx(
            PlaySfx::new(SourceHandle::new(7), SfxCategory { tag: 0 }).with_max_concurrent(3),
        );
    }
    // The tick that drains the queue creates the five instances.
    engine.update(&config, 0);
    assert_eq!(engine.table.alive_sfx_count_of_source(7), 5);
    // The next tick's limiter pass disposes of the two beyond the cap.
    engine.update(&config, 0);
    assert_eq!(engine.table.alive_sfx_count_of_source(7), 3);
    assert_eq!(engine.table.sfx_len(), 3);
    // The first three in enumeration order survive: ids 0, 1, 2.
    for i in 0..3 {
        assert_eq!(engine.table.sfx_at(i).id, i as u64);
        assert!(engine.table.sfx_at(i).alive);
    }
}

#[test]
fn cap_is_per_source_identity() {
    let mut engine = AudioEngine::new();
    let config = full_volume_config();
    for id in [1u64, 1, 2, 2, 2] {
        engine.submit_play_sfx(
            PlaySfx::new(SourceHandle::new(id), SfxCategory { tag: 0 }).with_max_concurrent(2),
        );
    }
    engine.update(&config, 0);
    engine.update(&config, 0);
    assert_eq!(engine.table.alive_sfx_count_of_source(1), 2);
    assert_eq!(engine.table.alive_sfx_count_of_source(2), 2);
    assert_eq!(engine.table.alive_sfx_count(), 4);
}

#[test]
fn stop_all_music_leaves_sfx_untouched() {
    // 2 music and 3 sfx instances live; StopAllMusic disposes of every music
    // instance and no sound effect.
    let mut engine = AudioEngine::new();
    let config = full_volume_config();
    engine.submit_play_music(PlayMusic::new(SourceHandle::new(1), MusicCategory { tag: 0 }));
    engine.submit_play_music(PlayMusic::new(SourceHandle::new(2), MusicCategory { tag: 1 }));
    for id in 10..13u64 {
        engine.submit_play_sfx(PlaySfx::new(SourceHandle::new(id), SfxCategory { tag: 0 }));
    }
    engine.update(&config, 0);
    assert_eq!(engine.table.alive_music_count(), 2);
    assert_eq!(engine.table.alive_sfx_count(), 3);

    engine.submit_stop_all_music(StopAllMusic::default());
    engine.update(&config, 0);
    assert_eq!(engine.table.alive_music_count(), 0);
    assert_eq!(engine.table.music_len(), 0);
    assert_eq!(engine.table.alive_sfx_count(), 3);
}

#[test]
fn stop_music_disposes_only_matching_category() {
    let mut engine = AudioEngine::new();
    let config = full_volume_config();
    engine.submit_play_music(PlayMusic::new(SourceHandle::new(1), MusicCategory { tag: 0 }));
    engine.submit_play_music(PlayMusic::new(SourceHandle::new(2), MusicCategory { tag: 1 }));
    engine.update(&config, 0);

    engine.submit_stop_music(StopMusic::new(MusicCategory { tag: 0 }));
    engine.update(&config, 0);
    assert_eq!(engine.table.music_len(), 1);
    assert_eq!(engine.table.music_at(0).category, MusicCategory { tag: 1 });
}

#[test]
fn fade_out_music_halves_then_disposes() {
    // FadeOutMusic over 1 s on a category playing at volume 0.8: after 0.5 s
    // the volume is 0.4; once 1.0 s has elapsed the instance is disposed of.
    let mut engine = AudioEngine::new();
    let config = AudioConfig {
        master: 1_000_000,
        muted: false,
        music_levels: vec![800_000],
        sfx_levels: Vec::new(),
        generation: 0,
    };
    engine.submit_play_music(PlayMusic::new(SourceHandle::new(1), MusicCategory { tag: 0 }));
    engine.update(&config, 0);
    // The backend reports the sink ready; the next tick resolves its volume.
    engine.table.attach_sink_music(0);
    engine.update(&config, 0);
    assert_eq!(sink_volume(&engine.table.music_at(0).sink), Some(800_000));

    engine.submit_fade_out_music(FadeOutMusic::new(MusicCategory { tag: 0 }, 1_000_000));
    engine.update(&config, 0);

    engine.update(&config, 500_000);
    assert_eq!(sink_volume(&engine.table.music_at(0).sink), Some(400_000));

    engine.update(&config, 500_000);
    assert_eq!(engine.table.music_len(), 0);
}

#[test]
fn repeated_fade_request_recaptures_current_volume() {
    // A second fade request restarts the timer from the already-fading
    // volume: last request wins.
    let mut engine = AudioEngine::new();
    let config = full_volume_config();
    engine.submit_play_music(PlayMusic::new(SourceHandle::new(1), MusicCategory { tag: 0 }));
    engine.update(&config, 0);
    engine.table.attach_sink_music(0);
    engine.update(&config, 0);
    assert_eq!(sink_volume(&engine.table.music_at(0).sink), Some(1_000_000));

    engine.submit_fade_out_music(FadeOutMusic::new(MusicCategory { tag: 0 }, 1_000_000));
    engine.update(&config, 0);
    engine.update(&config, 500_000);
    assert_eq!(sink_volume(&engine.table.music_at(0).sink), Some(500_000));

    // Re-request: capture 0.5 as the new initial volume over a fresh second.
    engine.submit_fade_out_music(FadeOutMusic::new(MusicCategory { tag: 0 }, 1_000_000));
    engine.update(&config, 0);
    engine.update(&config, 500_000);
    assert_eq!(sink_volume(&engine.table.music_at(0).sink), Some(250_000));
}

#[test]
fn disposing_twice_equals_disposing_once() {
    // Disposing of an instance twice in the same tick has the same observable
    // effect as disposing of it once.
    let mut once = AudioEngine::new();
    let mut twice = AudioEngine::new();
    for engine in [&mut once, &mut twice] {
        engine
            .table
            .spawn_sfx(SfxBundle::new(SourceHandle::new(3), SfxCategory { tag: 0 }));
        engine
            .table
            .spawn_sfx(SfxBundle::new(SourceHandle::new(4), SfxCategory { tag: 0 }));
    }
    once.table.dispose_sfx(0);
    twice.table.dispose_sfx(0);
    twice.table.dispose_sfx(0);
    assert_eq!(once.table.alive_sfx_count(), twice.table.alive_sfx_count());
    assert_eq!(once.table.sfx_len(), twice.table.sfx_len());
    for i in 0..once.table.sfx_len() {
        assert_eq!(once.table.sfx_at(i).alive, twice.table.sfx_at(i).alive);
        assert_eq!(once.table.sfx_at(i).id, twice.table.sfx_at(i).id);
    }
}

#[test]
fn config_change_reapplies_volume() {
    let mut engine = AudioEngine::new();
    let mut config = AudioConfig {
        master: 1_000_000,
        muted: false,
        music_levels: vec![500_000],
        sfx_levels: Vec::new(),
        generation: 0,
    };
    engine.submit_play_music(PlayMusic::new(SourceHandle::new(1), MusicCategory { tag: 0 }));
    engine.update(&config, 0);
    engine.table.attach_sink_music(0);
    engine.update(&config, 0);
    assert_eq!(sink_volume(&engine.table.music_at(0).sink), Some(500_000));

    // The writer mutes and bumps the generation; the next tick re-resolves.
    config.muted = true;
    config.generation = 1;
    engine.update(&config, 0);
    assert_eq!(sink_volume(&engine.table.music_at(0).sink), Some(0));

    // Unchanged generation: volumes stay as they are even if fields differ.
    config.muted = false;
    engine.update(&config, 0);
    assert_eq!(sink_volume(&engine.table.music_at(0).sink), Some(0));
}

#[test]
fn spawn_assigns_labels_and_audio_root() {
    let mut engine = AudioEngine::new();
    engine.table.set_audio_root(Some(99));
    let id = engine.table.spawn_music(MusicBundle::new(
        SourceHandle::with_path(5, String::from("music/theme.ogg")),
        MusicCategory { tag: 0 },
    ));
    assert_eq!(id, 0);
    assert_eq!(engine.table.music_at(0).label.as_deref(), Some("music/theme.ogg"));
    assert_eq!(engine.table.music_at(0).parent, Some(99));

    let id2 = engine
        .table
        .spawn_sfx(SfxBundle::new(SourceHandle::new(6), SfxCategory { tag: 0 }));
    assert_eq!(id2, 1);
    assert_eq!(engine.table.sfx_at(0).label, None);
    assert_eq!(engine.table.sfx_at(0).parent, Some(99));
}

#[test]
fn zero_duration_fade_completes_on_next_pass() {
    let mut engine = AudioEngine::new();
    let config = full_volume_config();
    engine.submit_play_music(PlayMusic::new(SourceHandle::new(1), MusicCategory { tag: 0 }));
    engine.update(&config, 0);
    engine.table.attach_sink_music(0);
    engine.update(&config, 0);

    engine.submit_fade_out_music(FadeOutMusic::new(MusicCategory { tag: 0 }, 0));
    // The request is drained at the end of this tick; the instance survives it.
    engine.update(&config, 0);
    assert_eq!(engine.table.alive_music_count(), 1);
    // One-frame fade: the very next pass disposes of the instance.
    engine.update(&config, 0);
    assert_eq!(engine.table.music_len(), 0);
}
