use dmg_audio::traits::{AudioCategory, AudioConfig, AudioConfigTrait, MusicCategory, SfxCategory};
use dmg_audio::volume::{mul_volume, VOLUME_SCALE};

fn config_with_mute(master: u64, muted: bool) -> AudioConfig {
    AudioConfig {
        master,
        muted,
        music_levels: Vec::new(),
        sfx_levels: Vec::new(),
        generation: 0,
    }
}

#[test]
fn effective_volume_when_not_muted() {
    let config = config_with_mute(800_000, false);
    assert_eq!(config.effective_volume(), 800_000);
}

#[test]
fn effective_volume_when_muted() {
    let config = config_with_mute(800_000, true);
    assert_eq!(config.effective_volume(), 0);
}

#[test]
fn default_is_muted_returns_false() {
    let config = AudioConfig::new(500_000, false);
    assert!(!config.is_muted());
    assert_eq!(config.effective_volume(), 500_000);
}

#[test]
fn master_volume_is_independent_of_mute() {
    let config = config_with_mute(750_000, true);
    // master_volume() returns the raw value regardless of mute state
    assert_eq!(config.master_volume(), 750_000);
    // effective_volume() accounts for mute
    assert_eq!(config.effective_volume(), 0);
}

#[test]
fn volume_multiplier_calculation() {
    let config = AudioConfig {
        master: 800_000,
        muted: false,
        music_levels: vec![500_000],
        sfx_levels: vec![750_000],
        generation: 0,
    };

    let music_vol = MusicCategory { tag: 0 }.volume_multiplier(&config);
    let sfx_vol = SfxCategory { tag: 0 }.volume_multiplier(&config);

    assert_eq!(music_vol, 500_000);
    assert_eq!(sfx_vol, 750_000);

    // Final volume = master * category
    let final_music = mul_volume(config.master_volume(), music_vol);
    let final_sfx = mul_volume(config.master_volume(), sfx_vol);

    assert_eq!(final_music, 400_000);
    assert_eq!(final_sfx, 600_000);
}

#[test]
fn volume_multiplier_beyond_table_is_full_volume() {
    let config = AudioConfig {
        master: VOLUME_SCALE,
        muted: false,
        music_levels: vec![500_000],
        sfx_levels: Vec::new(),
        generation: 0,
    };
    assert_eq!(MusicCategory { tag: 9 }.volume_multiplier(&config), VOLUME_SCALE);
    assert_eq!(SfxCategory { tag: 0 }.volume_multiplier(&config), VOLUME_SCALE);
}
