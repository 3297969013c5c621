//! Bundles for spawning music and sound effects through the component API.
//!
//! A bundle gathers everything one instance needs at creation: the source
//! handle, playback settings and — for sound effects — the concurrency cap.

use vstd::prelude::*;
use crate::components::{draw_in_range, MaxConcurrent, PlaybackSettings, SourceHandle};
use crate::traits::{MusicCategory, SfxCategory};
use crate::volume::Volume;

verus! {

/// Default maximum concurrent instances for one sound-effect source.
pub const DEFAULT_MAX_CONCURRENT: u32 = 5;

/// Default interval of the concurrency counter's reset timer, in microseconds.
pub const DEFAULT_CONCURRENCY_INTERVAL: u64 = 500_000;

/// Everything a music instance is created from. Music loops by default.
pub struct MusicBundle {
    /// Handle of the audio source asset.
    pub handle: SourceHandle,
    /// Playback settings (defaults to looping).
    pub playback: PlaybackSettings,
    /// The music category for volume control.
    pub category: MusicCategory,
}

impl MusicBundle {
    /// A music bundle with looping playback.
    pub fn new(handle: SourceHandle, category: MusicCategory) -> (r: MusicBundle)
        ensures
            r.handle == handle,
            r.playback == PlaybackSettings::looping_spec(),
            r.category == category,
            r.playback.wf(),
    {
        MusicBundle { handle, playback: PlaybackSettings::looping(), category }
    }

    /// A music bundle with custom playback settings.
    pub fn with_settings(
        handle: SourceHandle,
        category: MusicCategory,
        playback: PlaybackSettings,
    ) -> (r: MusicBundle)
        requires
            playback.wf(),
        ensures
            r.handle == handle,
            r.playback == playback,
            r.category == category,
            r.playback.wf(),
    {
        MusicBundle { handle, playback, category }
    }
}

/// Everything a sound-effect instance is created from. Sound effects are
/// disposed of when they complete and carry a concurrency cap.
pub struct SfxBundle {
    /// Handle of the audio source asset.
    pub handle: SourceHandle,
    /// Playback settings (defaults to dispose-on-completion).
    pub playback: PlaybackSettings,
    /// The sound-effect category for volume control.
    pub category: SfxCategory,
    /// Concurrency cap for instances sharing this bundle's source.
    pub max_concurrent: MaxConcurrent,
}

impl SfxBundle {
    /// A sound-effect bundle with dispose-on-completion playback and the
    /// default concurrency cap.
    pub fn new(handle: SourceHandle, category: SfxCategory) -> (r: SfxBundle)
        ensures
            r.handle == handle,
            r.playback == PlaybackSettings::despawn_spec(),
            r.category == category,
            r.max_concurrent == (MaxConcurrent { source: handle.id, max: DEFAULT_MAX_CONCURRENT }),
            r.playback.wf(),
    {
        let cap = MaxConcurrent::new(handle.id, DEFAULT_MAX_CONCURRENT);
        SfxBundle { handle, playback: PlaybackSettings::despawn_on_finish(), category, max_concurrent: cap }
    }

    /// Draws the playback volume once, uniformly, from `[min, max]`
    /// (inclusive, in millionths).
    pub fn with_volume(self, min: u64, max: u64) -> (r: SfxBundle)
        requires
            min <= max,
        ensures
            r.handle == self.handle,
            r.category == self.category,
            r.max_concurrent == self.max_concurrent,
            r.playback.mode == self.playback.mode,
            r.playback.speed == self.playback.speed,
            r.playback.volume matches Volume::Linear(v) && min <= v <= max,
            r.playback.wf(),
    {
        let v = draw_in_range(min, max);
        SfxBundle {
            playback: PlaybackSettings { volume: Volume::Linear(v), ..self.playback },
            ..self
        }
    }

    /// Draws the playback speed once, uniformly, from `[min, max]`
    /// (inclusive, in millionths).
    pub fn with_speed(self, min: u64, max: u64) -> (r: SfxBundle)
        requires
            min <= max,
        ensures
            r.handle == self.handle,
            r.category == self.category,
            r.max_concurrent == self.max_concurrent,
            r.playback.mode == self.playback.mode,
            r.playback.volume == self.playback.volume,
            min <= r.playback.speed <= max,
            self.playback.wf() ==> r.playback.wf(),
    {
        let s = draw_in_range(min, max);
        SfxBundle { playback: PlaybackSettings { speed: s, ..self.playback }, ..self }
    }

    /// Sets the maximum number of concurrent instances of this sound.
    pub fn with_max_concurrent(self, max: u32) -> (r: SfxBundle)
        ensures
            r.handle == self.handle,
            r.category == self.category,
            r.playback == self.playback,
            r.max_concurrent == (MaxConcurrent { max, ..self.max_concurrent }),
    {
        SfxBundle { max_concurrent: MaxConcurrent { max, ..self.max_concurrent }, ..self }
    }

    /// Applies the standard variety preset: speed in [0.7, 1.3] and volume in
    /// [0.6, 1.0].
    pub fn randomized(self) -> (r: SfxBundle)
        ensures
            r.handle == self.handle,
            r.category == self.category,
            r.max_concurrent == self.max_concurrent,
            r.playback.mode == self.playback.mode,
            r.playback.volume matches Volume::Linear(v) && 600_000 <= v <= 1_000_000,
            700_000 <= r.playback.speed <= 1_300_000,
            r.playback.wf(),
    {
        self.with_volume(600_000, 1_000_000).with_speed(700_000, 1_300_000)
    }
}

} // verus!
