//! Per-instance and shared bookkeeping: source handles, playback settings,
//! concurrency caps with the shared reset counter, fade-out envelopes and the
//! playback randomizer.

use vstd::prelude::*;
use vstd::arithmetic::div_mod::{
    lemma_div_is_ordered, lemma_div_multiples_vanish, lemma_div_pos_is_pos,
};
use vstd::arithmetic::mul::{lemma_mul_by_zero_is_zero, lemma_mul_is_commutative, lemma_mul_left_inequality, lemma_mul_upper_bound};
use crate::volume::{volume_wf, Volume, VOLUME_SCALE};
use crate::bundles::DEFAULT_CONCURRENCY_INTERVAL;

verus! {

/// `a + b`, saturating at `u64::MAX`.
pub open spec fn sat_add(a: u64, b: u64) -> u64 {
    if a + b > u64::MAX {
        u64::MAX
    } else {
        (a + b) as u64
    }
}

/// Adds two durations or counters, saturating at `u64::MAX`.
pub fn saturating_add(a: u64, b: u64) -> (r: u64)
    ensures
        r == sat_add(a, b),
{
    if b > u64::MAX - a {
        u64::MAX
    } else {
        a + b
    }
}

/// A handle to an audio source asset. The engine uses `id` only as an
/// equality and grouping key and never dereferences the asset; `path` is the
/// asset's path metadata, if any, used to derive a human-readable label.
pub struct SourceHandle {
    pub id: u64,
    pub path: Option<String>,
}

impl SourceHandle {
    /// A handle with no path metadata.
    pub fn new(id: u64) -> (r: SourceHandle)
        ensures
            r.id == id,
            r.path is None,
    {
        SourceHandle { id, path: None }
    }

    /// A handle carrying the asset's path.
    pub fn with_path(id: u64, path: String) -> (r: SourceHandle)
        ensures
            r.id == id,
            r.path == Some(path),
    {
        SourceHandle { id, path: Some(path) }
    }
}

/// Whether a sound plays once, loops, or is disposed of when it completes.
#[derive(Clone, Copy, PartialEq, Eq, Structural, Debug)]
pub enum PlaybackMode {
    Once,
    Loop,
    Despawn,
}

/// Per-instance playback settings: mode, base volume and speed.
#[derive(Clone, Copy, PartialEq, Eq, Structural, Debug)]
pub struct PlaybackSettings {
    pub mode: PlaybackMode,
    /// Base volume of the instance, linear or in decibels.
    pub volume: Volume,
    /// Playback speed in fixed point; `VOLUME_SCALE` units stand for 1.0.
    pub speed: u64,
}

impl PlaybackSettings {
    /// Settings the engine can evaluate: the base volume is within bounds.
    pub open spec fn wf(&self) -> bool {
        volume_wf(self.volume)
    }

    /// The value `looping` returns.
    pub open spec fn looping_spec() -> PlaybackSettings {
        PlaybackSettings {
            mode: PlaybackMode::Loop,
            volume: Volume::Linear(VOLUME_SCALE),
            speed: VOLUME_SCALE,
        }
    }

    /// The value `despawn_on_finish` returns.
    pub open spec fn despawn_spec() -> PlaybackSettings {
        PlaybackSettings {
            mode: PlaybackMode::Despawn,
            volume: Volume::Linear(VOLUME_SCALE),
            speed: VOLUME_SCALE,
        }
    }

    /// Looping playback at full volume and normal speed.
    pub fn looping() -> (r: PlaybackSettings)
        ensures
            r == (PlaybackSettings {
                mode: PlaybackMode::Loop,
                volume: Volume::Linear(VOLUME_SCALE),
                speed: VOLUME_SCALE,
            }),
    {
        PlaybackSettings {
            mode: PlaybackMode::Loop,
            volume: Volume::Linear(VOLUME_SCALE),
            speed: VOLUME_SCALE,
        }
    }

    /// One-shot playback disposed of on completion, at full volume and normal speed.
    pub fn despawn_on_finish() -> (r: PlaybackSettings)
        ensures
            r == (PlaybackSettings {
                mode: PlaybackMode::Despawn,
                volume: Volume::Linear(VOLUME_SCALE),
                speed: VOLUME_SCALE,
            }),
    {
        PlaybackSettings {
            mode: PlaybackMode::Despawn,
            volume: Volume::Linear(VOLUME_SCALE),
            speed: VOLUME_SCALE,
        }
    }
}

impl Default for PlaybackSettings {
    /// One-shot playback at full volume and normal speed.
    fn default() -> (r: PlaybackSettings)
        ensures
            r == (PlaybackSettings {
                mode: PlaybackMode::Once,
                volume: Volume::Linear(VOLUME_SCALE),
                speed: VOLUME_SCALE,
            }),
    {
        PlaybackSettings {
            mode: PlaybackMode::Once,
            volume: Volume::Linear(VOLUME_SCALE),
            speed: VOLUME_SCALE,
        }
    }
}

/// The output sink of an instance. Instances may be created before their
/// backend resource is ready; a sink that just became ready is `fresh` until
/// its first volume resolution writes it.
#[derive(Clone, Copy, PartialEq, Eq, Structural, Debug)]
pub enum SinkState {
    /// The backend has not attached an output sink yet.
    Pending,
    /// The sink is ready; `volume` is the loudness last pushed to the
    /// backend, and `fresh` is true until the first write.
    Ready { volume: u64, fresh: bool },
}

/// Limits the number of concurrent instances sharing one source identity.
#[derive(Clone, Copy, PartialEq, Eq, Structural, Debug)]
pub struct MaxConcurrent {
    /// The source identity whose instances are capped.
    pub source: u64,
    /// Maximum number of concurrent instances allowed.
    pub max: u32,
}

impl MaxConcurrent {
    /// Creates a new concurrency cap.
    pub fn new(source: u64, max: u32) -> (r: MaxConcurrent)
        ensures
            r == (MaxConcurrent { source, max }),
    {
        MaxConcurrent { source, max }
    }
}

/// A repeating timer in microseconds: `elapsed` accumulates tick deltas and
/// wraps when it reaches `period`.
#[derive(Clone, Copy, PartialEq, Eq, Structural, Debug)]
pub struct RepeatTimer {
    pub elapsed: u64,
    pub period: u64,
}

impl RepeatTimer {
    /// The elapsed time stays below the period (a zero period fires on every
    /// tick and keeps nothing).
    pub open spec fn wf(&self) -> bool {
        if self.period == 0 {
            self.elapsed == 0
        } else {
            self.elapsed < self.period
        }
    }

    /// Whether advancing by `delta` completes the current period.
    pub open spec fn fires_spec(&self, delta: u64) -> bool {
        self.period == 0 || sat_add(self.elapsed, delta) >= self.period
    }

    /// The timer after advancing by `delta`.
    pub open spec fn after_spec(&self, delta: u64) -> RepeatTimer {
        if self.period == 0 {
            RepeatTimer { elapsed: 0, period: 0 }
        } else {
            let s = sat_add(self.elapsed, delta);
            if s >= self.period {
                RepeatTimer { elapsed: (s as int % self.period as int) as u64, period: self.period }
            } else {
                RepeatTimer { elapsed: s, period: self.period }
            }
        }
    }

    /// A fresh timer with the given period.
    pub fn new(period: u64) -> (r: RepeatTimer)
        ensures
            r == (RepeatTimer { elapsed: 0, period }),
            r.wf(),
    {
        RepeatTimer { elapsed: 0, period }
    }

    /// Advances the timer by `delta` microseconds; returns whether the period
    /// completed during this tick.
    pub fn tick(&mut self, delta: u64) -> (fired: bool)
        ensures
            *final(self) == old(self).after_spec(delta),
            fired == old(self).fires_spec(delta),
            final(self).wf(),
    {
        if self.period == 0 {
            self.elapsed = 0;
            true
        } else {
            let s = saturating_add(self.elapsed, delta);
            if s >= self.period {
                self.elapsed = s % self.period;
                true
            } else {
                self.elapsed = s;
                false
            }
        }
    }
}

/// Shared state of the concurrency limiter: a per-source count of instances
/// and a repeating timer that periodically clears the counts so no stale
/// bookkeeping survives.
pub struct SoundEffectCounter {
    /// Count of kept instances per source identity, as recorded by the last
    /// limiter pass.
    pub counts: Vec<(u64, u32)>,
    /// Timer for the periodic count reset.
    pub timer: RepeatTimer,
}

impl SoundEffectCounter {
    /// Creates a counter whose counts reset every `interval` microseconds.
    pub fn with_interval(interval: u64) -> (r: SoundEffectCounter)
        ensures
            r.counts@ =~= Seq::<(u64, u32)>::empty(),
            r.timer == (RepeatTimer { elapsed: 0, period: interval }),
            r.timer.wf(),
    {
        SoundEffectCounter { counts: Vec::new(), timer: RepeatTimer::new(interval) }
    }

    /// Advances the reset timer; when it completes a period, the counts are
    /// cleared. Returns whether the reset fired.
    pub fn tick(&mut self, delta: u64) -> (fired: bool)
        ensures
            fired == old(self).timer.fires_spec(delta),
            final(self).timer == old(self).timer.after_spec(delta),
            final(self).timer.wf(),
            final(self).counts@ == (if fired {
                Seq::<(u64, u32)>::empty()
            } else {
                old(self).counts@
            }),
    {
        let fired = self.timer.tick(delta);
        if fired {
            self.counts.clear();
        }
        fired
    }
}

impl Default for SoundEffectCounter {
    /// A counter with the default reset interval.
    fn default() -> (r: SoundEffectCounter)
        ensures
            r.counts@ =~= Seq::<(u64, u32)>::empty(),
            r.timer == (RepeatTimer { elapsed: 0, period: DEFAULT_CONCURRENCY_INTERVAL }),
    {
        SoundEffectCounter::with_interval(DEFAULT_CONCURRENCY_INTERVAL)
    }
}

/// The volume of a fading instance: the captured initial volume decayed
/// linearly to zero over the duration. Zero once `elapsed` reaches the
/// duration (a zero duration is silent at once).
pub open spec fn fade_volume(initial: int, duration: int, elapsed: int) -> int {
    if duration <= 0 || elapsed >= duration {
        0
    } else {
        initial * (duration - elapsed) / duration
    }
}

/// The fade volume is bounded by the initial volume and never negative.
pub proof fn lemma_fade_volume_bounds(initial: int, duration: int, elapsed: int)
    requires
        0 <= initial,
        0 <= elapsed,
    ensures
        0 <= fade_volume(initial, duration, elapsed) <= initial,
{
    if duration > 0 && elapsed < duration {
        lemma_mul_left_inequality(duration, duration - elapsed, duration);
        if initial > 0 {
            lemma_mul_left_inequality(initial, duration - elapsed, duration);
        } else {
            lemma_mul_by_zero_is_zero(duration - elapsed);
            lemma_mul_by_zero_is_zero(duration);
        }
        lemma_div_is_ordered(initial * (duration - elapsed), initial * duration, duration);
        lemma_div_multiples_vanish(initial, duration);
        lemma_mul_is_commutative(initial, duration);
        assert(0 <= initial * (duration - elapsed)) by (nonlinear_arith)
            requires
                0 <= initial,
                elapsed < duration,
        ;
        lemma_div_pos_is_pos(initial * (duration - elapsed), duration);
    }
}

/// Volume during a fade-out never increases as elapsed time grows.
pub proof fn lemma_fade_monotonic(initial: int, duration: int, e1: int, e2: int)
    requires
        0 <= initial,
        0 <= e1 <= e2,
    ensures
        fade_volume(initial, duration, e2) <= fade_volume(initial, duration, e1),
{
    lemma_fade_volume_bounds(initial, duration, e1);
    lemma_fade_volume_bounds(initial, duration, e2);
    if duration > 0 && e2 < duration {
        if initial > 0 {
            lemma_mul_left_inequality(initial, duration - e2, duration - e1);
        } else {
            lemma_mul_by_zero_is_zero(duration - e1);
            lemma_mul_by_zero_is_zero(duration - e2);
        }
        lemma_div_is_ordered(initial * (duration - e2), initial * (duration - e1), duration);
    }
}

/// A timed fade to silence attached to one instance: elapsed and total
/// duration in microseconds, and the linear volume captured when the fade was
/// requested.
#[derive(Clone, Copy, PartialEq, Eq, Structural, Debug)]
pub struct FadeOut {
    /// Time elapsed since the fade was requested, in microseconds.
    pub elapsed: u64,
    /// Total duration of the fade, in microseconds.
    pub duration: u64,
    /// The instance's linear volume at the moment the fade was requested.
    pub initial_volume: u64,
}

impl FadeOut {
    /// A fade over the given duration, starting now, from full volume unless
    /// the initial volume is overridden.
    pub fn new(duration: u64) -> (r: FadeOut)
        ensures
            r == (FadeOut { elapsed: 0, duration, initial_volume: VOLUME_SCALE }),
    {
        FadeOut { elapsed: 0, duration, initial_volume: VOLUME_SCALE }
    }

    /// The same fade, decaying from the given initial linear volume.
    pub fn with_initial_volume(self, initial_volume: u64) -> (r: FadeOut)
        ensures
            r == (FadeOut { initial_volume, ..self }),
    {
        FadeOut { initial_volume, ..self }
    }

    /// Advances the fade by `delta` microseconds.
    pub fn tick(&mut self, delta: u64)
        ensures
            *final(self) == (FadeOut { elapsed: sat_add(old(self).elapsed, delta), ..*old(self) }),
    {
        self.elapsed = saturating_add(self.elapsed, delta);
    }

    /// Whether the fade has run its full duration.
    pub fn is_finished(&self) -> (r: bool)
        ensures
            r == (self.elapsed >= self.duration),
    {
        self.elapsed >= self.duration
    }

    /// The current volume of the fade: the captured initial volume decayed
    /// linearly, clamped to `[0, initial_volume]`.
    pub fn current_volume(&self) -> (r: u64)
        ensures
            r as int == fade_volume(
                self.initial_volume as int,
                self.duration as int,
                self.elapsed as int,
            ),
            r <= self.initial_volume,
    {
        proof {
            lemma_fade_volume_bounds(
                self.initial_volume as int,
                self.duration as int,
                self.elapsed as int,
            );
        }
        if self.duration == 0 || self.elapsed >= self.duration {
            0
        } else {
            proof {
                lemma_mul_upper_bound(
                    self.initial_volume as int,
                    u64::MAX as int,
                    (self.duration - self.elapsed) as int,
                    u64::MAX as int,
                );
                assert((u64::MAX as int) * (u64::MAX as int) <= u128::MAX as int)
                    by (nonlinear_arith);
            }
            let num: u128 = (self.initial_volume as u128) * ((self.duration - self.elapsed) as u128);
            (num / (self.duration as u128)) as u64
        }
    }
}

/// Relies on rand::random_range over a non-empty inclusive integer range: the
/// sampled value always lies within the range's bounds.
#[verifier::external_body]
pub(crate) fn draw_in_range(lo: u64, hi: u64) -> (r: u64)
    requires
        lo <= hi,
    ensures
        lo <= r <= hi,
{
    rand::random_range(lo..=hi)
}

/// Randomizes volume and speed of playback settings, drawing each once,
/// uniformly, from an inclusive range at application time.
#[derive(Clone, Copy, PartialEq, Eq, Debug)]
pub struct PlaybackRandomizer {
    /// Minimum and maximum linear volume, in millionths.
    pub volume_range: Option<(u64, u64)>,
    /// Minimum and maximum speed, in millionths.
    pub speed_range: Option<(u64, u64)>,
}

impl PlaybackRandomizer {
    /// Both ranges, where present, are ordered.
    pub open spec fn wf(&self) -> bool {
        &&& (match self.volume_range {
            Some(r) => r.0 <= r.1,
            None => true,
        })
        &&& (match self.speed_range {
            Some(r) => r.0 <= r.1,
            None => true,
        })
    }

    /// A randomizer that changes nothing.
    pub fn new() -> (r: PlaybackRandomizer)
        ensures
            r == (PlaybackRandomizer { volume_range: None, speed_range: None }),
            r.wf(),
    {
        PlaybackRandomizer { volume_range: None, speed_range: None }
    }

    /// Sets the volume randomization range (inclusive, in millionths).
    pub fn with_volume(self, min: u64, max: u64) -> (r: PlaybackRandomizer)
        requires
            min <= max,
        ensures
            r == (PlaybackRandomizer { volume_range: Some((min, max)), ..self }),
    {
        PlaybackRandomizer { volume_range: Some((min, max)), ..self }
    }

    /// Sets the speed randomization range (inclusive, in millionths).
    pub fn with_speed(self, min: u64, max: u64) -> (r: PlaybackRandomizer)
        requires
            min <= max,
        ensures
            r == (PlaybackRandomizer { speed_range: Some((min, max)), ..self }),
    {
        PlaybackRandomizer { speed_range: Some((min, max)), ..self }
    }

    /// The standard variety preset: volume in [0.6, 1.0], speed in [0.7, 1.3].
    pub fn standard() -> (r: PlaybackRandomizer)
        ensures
            r == (PlaybackRandomizer {
                volume_range: Some((600_000, 1_000_000)),
                speed_range: Some((700_000, 1_300_000)),
            }),
            r.wf(),
    {
        PlaybackRandomizer {
            volume_range: Some((600_000, 1_000_000)),
            speed_range: Some((700_000, 1_300_000)),
        }
    }

    /// Draws a volume and a speed from the configured ranges and writes them
    /// into the settings; an absent range leaves its field unchanged.
    pub fn apply(&self, settings: &mut PlaybackSettings)
        requires
            self.wf(),
        ensures
            final(settings).mode == old(settings).mode,
            (match self.volume_range {
                Some(r) => {
                    &&& final(settings).volume matches Volume::Linear(v)
                    &&& r.0 <= final(settings).volume->Linear_0 <= r.1
                },
                None => final(settings).volume == old(settings).volume,
            }),
            (match self.speed_range {
                Some(r) => r.0 <= final(settings).speed <= r.1,
                None => final(settings).speed == old(settings).speed,
            }),
    {
        match self.volume_range {
            Some(r) => {
                settings.volume = Volume::Linear(draw_in_range(r.0, r.1));
            },
            None => {},
        }
        match self.speed_range {
            Some(r) => {
                settings.speed = draw_in_range(r.0, r.1);
            },
            None => {},
        }
    }
}

impl Default for PlaybackRandomizer {
    /// A randomizer that changes nothing.
    fn default() -> (r: PlaybackRandomizer)
        ensures
            r == (PlaybackRandomizer { volume_range: None, speed_range: None }),
    {
        PlaybackRandomizer::new()
    }
}

} // verus!
