//! Runtime engine for many simultaneously-playing sound instances: it
//! resolves each instance's effective loudness from a layered volume model,
//! bounds how many instances of one source may play at once, and drives timed
//! fade-outs to silence.
//!
//! The host invokes [`AudioEngine::update`] once per frame with the current
//! configuration and the frame's delta time; requests submitted to the
//! engine's queues are drained exactly once per tick, in submission order.
//! Hosts that want their own schedule can instead call the systems in
//! [`systems`] and the handlers in [`events`] directly on the engine's parts.

pub mod bundles;
pub mod events;
pub mod instances;
pub mod systems;
pub mod components;
pub mod traits;
pub mod volume;

use vstd::prelude::*;

use crate::components::SoundEffectCounter;
use crate::events::{
    handle_fade_out_music_events, handle_play_music_events, handle_play_sfx_events,
    handle_stop_all_music_events, handle_stop_music_events, music_after_fade_reqs,
    music_after_plays, music_after_stop_all, music_after_stops, play_music_events_wf,
    play_sfx_events_wf, sfx_after_plays, FadeOutMusic, PlayMusic, PlaySfx, StopAllMusic,
    StopMusic,
};
use crate::instances::{live_music, live_sfx, InstanceTable, MusicInstance, SfxInstance};
use crate::systems::{
    apply_volume_to_new_music, apply_volume_to_new_sfx, enforce_sfx_concurrency,
    music_after_apply_new, music_after_fades, music_after_update, process_fade_outs,
    sfx_after_apply_new, sfx_after_cap, sfx_after_update, update_music_volume, update_sfx_volume,
};
use crate::traits::AudioConfig;

verus! {

/// The music table at the end of one tick: first-time volume resolution for
/// newly ready sinks, re-resolution if the configuration changed, one fade
/// step, then the tick's requests (stops, stop-alls, fade-outs, plays, in
/// that order), and finally the sweep of disposed entries.
pub open spec fn music_after_tick(
    m0: Seq<MusicInstance>,
    c: AudioConfig,
    changed: bool,
    delta: u64,
    stops: Seq<StopMusic>,
    any_stop_all: bool,
    fades: Seq<FadeOutMusic>,
    plays: Seq<PlayMusic>,
    next_id: u64,
    root: Option<u64>,
) -> Seq<MusicInstance> {
    let resolved = music_after_apply_new(m0, c);
    let configured = if changed {
        music_after_update(resolved, c)
    } else {
        resolved
    };
    let faded = music_after_fades(configured, delta);
    let stopped = music_after_stops(faded, stops);
    let all_stopped = if any_stop_all {
        music_after_stop_all(stopped)
    } else {
        stopped
    };
    let fade_requested = music_after_fade_reqs(all_stopped, fades);
    live_music(music_after_plays(fade_requested, plays, next_id, root))
}

/// The sound-effect table at the end of one tick: first-time volume
/// resolution, re-resolution if the configuration changed, one concurrency
/// limiter pass, the tick's play requests, and the sweep.
pub open spec fn sfx_after_tick(
    s0: Seq<SfxInstance>,
    c: AudioConfig,
    changed: bool,
    plays: Seq<PlaySfx>,
    next_id: u64,
    root: Option<u64>,
) -> Seq<SfxInstance> {
    let resolved = sfx_after_apply_new(s0, c);
    let configured = if changed {
        sfx_after_update(resolved, c)
    } else {
        resolved
    };
    let capped = sfx_after_cap(configured);
    live_sfx(sfx_after_plays(capped, plays, next_id, root))
}

/// The audio engine: the instance registry, the concurrency counter, one
/// inbound queue per request kind, and the configuration generation the
/// engine saw on its last tick.
pub struct AudioEngine {
    /// The registry of live instances.
    pub table: InstanceTable,
    /// Shared state of the concurrency limiter.
    pub counter: SoundEffectCounter,
    /// Queued play-music requests, in submission order.
    pub play_music_queue: Vec<PlayMusic>,
    /// Queued play-sfx requests, in submission order.
    pub play_sfx_queue: Vec<PlaySfx>,
    /// Queued stop-music requests, in submission order.
    pub stop_music_queue: Vec<StopMusic>,
    /// Queued stop-all-music requests.
    pub stop_all_music_queue: Vec<StopAllMusic>,
    /// Queued fade-out requests, in submission order.
    pub fade_out_music_queue: Vec<FadeOutMusic>,
    /// The configuration generation observed on the last tick; volumes are
    /// re-resolved on every tick where the configuration's generation
    /// differs.
    pub seen_generation: u64,
}

impl AudioEngine {
    /// The registry and every queued play request carry playback settings the
    /// engine can evaluate.
    pub open spec fn wf(&self) -> bool {
        &&& self.table.wf()
        &&& play_music_events_wf(self.play_music_queue@)
        &&& play_sfx_events_wf(self.play_sfx_queue@)
    }

    /// An engine with an empty registry, empty queues, and the default
    /// concurrency-counter interval.
    pub fn new() -> (r: AudioEngine)
        ensures
            r.table.music@ =~= Seq::<MusicInstance>::empty(),
            r.table.sfx@ =~= Seq::<SfxInstance>::empty(),
            r.table.next_id == 0,
            r.table.audio_root is None,
            r.counter.counts@ =~= Seq::<(u64, u32)>::empty(),
            r.counter.timer.period == crate::bundles::DEFAULT_CONCURRENCY_INTERVAL,
            r.counter.timer.elapsed == 0,
            r.play_music_queue@.len() == 0,
            r.play_sfx_queue@.len() == 0,
            r.stop_music_queue@.len() == 0,
            r.stop_all_music_queue@.len() == 0,
            r.fade_out_music_queue@.len() == 0,
            r.seen_generation == 0,
            r.wf(),
    {
        AudioEngine {
            table: InstanceTable::new(),
            counter: SoundEffectCounter::with_interval(crate::bundles::DEFAULT_CONCURRENCY_INTERVAL),
            play_music_queue: Vec::new(),
            play_sfx_queue: Vec::new(),
            stop_music_queue: Vec::new(),
            stop_all_music_queue: Vec::new(),
            fade_out_music_queue: Vec::new(),
            seen_generation: 0,
        }
    }

    /// Queues a play-music request for the next tick.
    pub fn submit_play_music(&mut self, event: PlayMusic)
        requires
            event.playback.wf(),
        ensures
            final(self).play_music_queue@ == old(self).play_music_queue@.push(event),
            final(self).table == old(self).table,
            final(self).counter == old(self).counter,
            final(self).play_sfx_queue == old(self).play_sfx_queue,
            final(self).stop_music_queue == old(self).stop_music_queue,
            final(self).stop_all_music_queue == old(self).stop_all_music_queue,
            final(self).fade_out_music_queue == old(self).fade_out_music_queue,
            final(self).seen_generation == old(self).seen_generation,
            old(self).wf() ==> final(self).wf(),
    {
        self.play_music_queue.push(event);
    }

    /// Queues a play-sfx request for the next tick.
    pub fn submit_play_sfx(&mut self, event: PlaySfx)
        requires
            event.playback.wf(),
        ensures
            final(self).play_sfx_queue@ == old(self).play_sfx_queue@.push(event),
            final(self).table == old(self).table,
            final(self).counter == old(self).counter,
            final(self).play_music_queue == old(self).play_music_queue,
            final(self).stop_music_queue == old(self).stop_music_queue,
            final(self).stop_all_music_queue == old(self).stop_all_music_queue,
            final(self).fade_out_music_queue == old(self).fade_out_music_queue,
            final(self).seen_generation == old(self).seen_generation,
            old(self).wf() ==> final(self).wf(),
    {
        self.play_sfx_queue.push(event);
    }

    /// Queues a stop-music request for the next tick.
    pub fn submit_stop_music(&mut self, event: StopMusic)
        ensures
            final(self).stop_music_queue@ == old(self).stop_music_queue@.push(event),
            final(self).table == old(self).table,
            final(self).counter == old(self).counter,
            final(self).play_music_queue == old(self).play_music_queue,
            final(self).play_sfx_queue == old(self).play_sfx_queue,
            final(self).stop_all_music_queue == old(self).stop_all_music_queue,
            final(self).fade_out_music_queue == old(self).fade_out_music_queue,
            final(self).seen_generation == old(self).seen_generation,
            old(self).wf() ==> final(self).wf(),
    {
        self.stop_music_queue.push(event);
    }

    /// Queues a stop-all-music request for the next tick.
    pub fn submit_stop_all_music(&mut self, event: StopAllMusic)
        ensures
            final(self).stop_all_music_queue@ == old(self).stop_all_music_queue@.push(event),
            final(self).table == old(self).table,
            final(self).counter == old(self).counter,
            final(self).play_music_queue == old(self).play_music_queue,
            final(self).play_sfx_queue == old(self).play_sfx_queue,
            final(self).stop_music_queue == old(self).stop_music_queue,
            final(self).fade_out_music_queue == old(self).fade_out_music_queue,
            final(self).seen_generation == old(self).seen_generation,
            old(self).wf() ==> final(self).wf(),
    {
        self.stop_all_music_queue.push(event);
    }

    /// Queues a fade-out request for the next tick.
    pub fn submit_fade_out_music(&mut self, event: FadeOutMusic)
        ensures
            final(self).fade_out_music_queue@ == old(self).fade_out_music_queue@.push(event),
            final(self).table == old(self).table,
            final(self).counter == old(self).counter,
            final(self).play_music_queue == old(self).play_music_queue,
            final(self).play_sfx_queue == old(self).play_sfx_queue,
            final(self).stop_music_queue == old(self).stop_music_queue,
            final(self).stop_all_music_queue == old(self).stop_all_music_queue,
            final(self).seen_generation == old(self).seen_generation,
            old(self).wf() ==> final(self).wf(),
    {
        self.fade_out_music_queue.push(event);
    }

    /// Runs one evaluation tick: volume resolution for newly ready sinks
    /// first, then — only when the configuration generation changed — the
    /// batched volume re-resolution, then the concurrency limiter and the
    /// fade engine (whose disposals are independent and idempotent), then the
    /// request queues, drained exactly once in submission order, and finally
    /// the sweep of disposed entries.
    pub fn update(&mut self, config: &AudioConfig, delta: u64)
        requires
            old(self).wf(),
            old(self).table.next_id + old(self).play_music_queue@.len()
                + old(self).play_sfx_queue@.len() <= u64::MAX,
        ensures
            final(self).table.music@ == music_after_tick(
                old(self).table.music@,
                *config,
                config.generation != old(self).seen_generation,
                delta,
                old(self).stop_music_queue@,
                old(self).stop_all_music_queue@.len() > 0,
                old(self).fade_out_music_queue@,
                old(self).play_music_queue@,
                old(self).table.next_id,
                old(self).table.audio_root,
            ),
            final(self).table.sfx@ == sfx_after_tick(
                old(self).table.sfx@,
                *config,
                config.generation != old(self).seen_generation,
                old(self).play_sfx_queue@,
                (old(self).table.next_id + old(self).play_music_queue@.len()) as u64,
                old(self).table.audio_root,
            ),
            final(self).table.next_id == old(self).table.next_id
                + old(self).play_music_queue@.len() + old(self).play_sfx_queue@.len(),
            final(self).table.audio_root == old(self).table.audio_root,
            final(self).counter.timer == old(self).counter.timer.after_spec(delta),
            final(self).counter.counts@ == (if old(self).counter.timer.fires_spec(delta) {
                Seq::<(u64, u32)>::empty()
            } else {
                old(self).counter.counts@
            }),
            final(self).play_music_queue@.len() == 0,
            final(self).play_sfx_queue@.len() == 0,
            final(self).stop_music_queue@.len() == 0,
            final(self).stop_all_music_queue@.len() == 0,
            final(self).fade_out_music_queue@.len() == 0,
            final(self).seen_generation == config.generation,
            final(self).wf(),
    {
        let changed = config.generation != self.seen_generation;

        // Volume resolution for newly ready sinks runs before the
        // config-change pass, so a never-yet-written sink is not written
        // twice incoherently within one tick.
        apply_volume_to_new_music(&mut self.table, config);
        apply_volume_to_new_sfx(&mut self.table, config);
        if changed {
            update_music_volume(&mut self.table, config);
            update_sfx_volume(&mut self.table, config);
        }

        enforce_sfx_concurrency(&mut self.table, &mut self.counter, delta);
        process_fade_outs(&mut self.table, delta);

        handle_stop_music_events(&mut self.table, &self.stop_music_queue);
        self.stop_music_queue.clear();
        handle_stop_all_music_events(&mut self.table, &self.stop_all_music_queue);
        self.stop_all_music_queue.clear();
        handle_fade_out_music_events(&mut self.table, &self.fade_out_music_queue);
        self.fade_out_music_queue.clear();

        let mut plays: Vec<PlayMusic> = Vec::new();
        core::mem::swap(&mut plays, &mut self.play_music_queue);
        handle_play_music_events(&mut self.table, plays);

        let mut sfx_plays: Vec<PlaySfx> = Vec::new();
        core::mem::swap(&mut sfx_plays, &mut self.play_sfx_queue);
        handle_play_sfx_events(&mut self.table, sfx_plays);

        self.seen_generation = config.generation;
        self.table.sweep();
    }
}

} // verus!
