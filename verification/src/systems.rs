//! The per-tick systems: volume resolution for newly ready sinks, volume
//! re-application when the configuration changes, the concurrency limiter and
//! the fade-out engine.
//!
//! Each system maps the instance tables through a per-instance transition
//! that its contract states exactly. Disposal only marks an instance dead;
//! the registry sweep removes dead entries at the end of a tick.

use vstd::prelude::*;
use vstd::math::min;
use crate::components::{fade_volume, lemma_fade_monotonic, lemma_fade_volume_bounds, sat_add, FadeOut, SinkState, SoundEffectCounter};
use crate::instances::{count_alive_sfx_of_source, InstanceTable, MusicInstance, SfxInstance};
use crate::traits::{level_spec, AudioCategory, AudioConfig, AudioConfigTrait};
use crate::volume::{effective_spec, resolve_spec, resolve_volume};

verus! {

/// The loudness the resolver assigns to a music instance under a
/// configuration: effective master volume times the category's multiplier
/// times the instance's playback volume.
pub open spec fn music_resolved(c: AudioConfig, m: MusicInstance) -> u64 {
    resolve_spec(
        effective_spec(c.master, c.muted),
        level_spec(c.music_levels@, m.category.tag) as int,
        m.playback.volume,
    ) as u64
}

/// The loudness the resolver assigns to a sound-effect instance.
pub open spec fn sfx_resolved(c: AudioConfig, s: SfxInstance) -> u64 {
    resolve_spec(
        effective_spec(c.master, c.muted),
        level_spec(c.sfx_levels@, s.category.tag) as int,
        s.playback.volume,
    ) as u64
}

/// A music instance after first-time volume resolution: an alive instance
/// whose ready sink has not been written yet receives its resolved loudness.
pub open spec fn music_apply_new_one(m: MusicInstance, c: AudioConfig) -> MusicInstance {
    match m.sink {
        SinkState::Ready { volume, fresh } => if m.alive && fresh {
            MusicInstance {
                sink: SinkState::Ready { volume: music_resolved(c, m), fresh: false },
                ..m
            }
        } else {
            m
        },
        SinkState::Pending => m,
    }
}

/// A sound-effect instance after first-time volume resolution.
pub open spec fn sfx_apply_new_one(s: SfxInstance, c: AudioConfig) -> SfxInstance {
    match s.sink {
        SinkState::Ready { volume, fresh } => if s.alive && fresh {
            SfxInstance { sink: SinkState::Ready { volume: sfx_resolved(c, s), fresh: false }, ..s }
        } else {
            s
        },
        SinkState::Pending => s,
    }
}

/// A music instance after a configuration change: every alive instance with a
/// ready sink receives its re-resolved loudness.
pub open spec fn music_update_one(m: MusicInstance, c: AudioConfig) -> MusicInstance {
    match m.sink {
        SinkState::Ready { volume, fresh } => if m.alive {
            MusicInstance {
                sink: SinkState::Ready { volume: music_resolved(c, m), fresh: false },
                ..m
            }
        } else {
            m
        },
        SinkState::Pending => m,
    }
}

/// A sound-effect instance after a configuration change.
pub open spec fn sfx_update_one(s: SfxInstance, c: AudioConfig) -> SfxInstance {
    match s.sink {
        SinkState::Ready { volume, fresh } => if s.alive {
            SfxInstance { sink: SinkState::Ready { volume: sfx_resolved(c, s), fresh: false }, ..s }
        } else {
            s
        },
        SinkState::Pending => s,
    }
}

/// The music table after first-time volume resolution.
pub open spec fn music_after_apply_new(s: Seq<MusicInstance>, c: AudioConfig) -> Seq<
    MusicInstance,
> {
    s.map_values(|m: MusicInstance| music_apply_new_one(m, c))
}

/// The sound-effect table after first-time volume resolution.
pub open spec fn sfx_after_apply_new(s: Seq<SfxInstance>, c: AudioConfig) -> Seq<SfxInstance> {
    s.map_values(|x: SfxInstance| sfx_apply_new_one(x, c))
}

/// The music table after a configuration change.
pub open spec fn music_after_update(s: Seq<MusicInstance>, c: AudioConfig) -> Seq<MusicInstance> {
    s.map_values(|m: MusicInstance| music_update_one(m, c))
}

/// The sound-effect table after a configuration change.
pub open spec fn sfx_after_update(s: Seq<SfxInstance>, c: AudioConfig) -> Seq<SfxInstance> {
    s.map_values(|x: SfxInstance| sfx_update_one(x, c))
}

/// Applies the resolved volume to newly ready music sinks: runs once per
/// sink, edge-triggered on the backend resource becoming ready.
pub fn apply_volume_to_new_music(table: &mut InstanceTable, config: &AudioConfig)
    requires
        old(table).wf(),
    ensures
        final(table).music@ == music_after_apply_new(old(table).music@, *config),
        final(table).sfx@ == old(table).sfx@,
        final(table).next_id == old(table).next_id,
        final(table).audio_root == old(table).audio_root,
        final(table).wf(),
{
    let ghost snap = table.music@;
    let n = table.music.len();
    let mut i: usize = 0;
    while i < n
        invariant
            i <= n,
            n == snap.len(),
            table.music@.len() == n,
            forall|j: int| 0 <= j < i ==> table.music@[j] == music_apply_new_one(snap[j], *config),
            forall|j: int| i <= j < n ==> table.music@[j] == snap[j],
            forall|j: int| 0 <= j < n ==> (#[trigger] snap[j]).playback.wf(),
            table.sfx@ == old(table).sfx@,
            table.next_id == old(table).next_id,
            table.audio_root == old(table).audio_root,
        decreases n - i,
    {
        let fresh_ready = match table.music[i].sink {
            SinkState::Ready { fresh, .. } => fresh,
            SinkState::Pending => false,
        };
        if table.music[i].alive && fresh_ready {
            let cat = table.music[i].category;
            let playback_volume = table.music[i].playback.volume;
            let mult = cat.volume_multiplier(config);
            let eff = config.effective_volume();
            let v = resolve_volume(eff, mult, playback_volume);
            let m = &mut table.music[i];
            m.sink = SinkState::Ready { volume: v, fresh: false };
        }
        i = i + 1;
    }
    proof {
        assert(table.music@ =~= music_after_apply_new(snap, *config));
        assert forall|j: int| 0 <= j < final(table).music@.len() implies (#[trigger] final(table).music@[j]).playback.wf() by {
            assert(final(table).music@[j] == music_apply_new_one(snap[j], *config));
        }
    }
}

/// Applies the resolved volume to newly ready sound-effect sinks.
pub fn apply_volume_to_new_sfx(table: &mut InstanceTable, config: &AudioConfig)
    requires
        old(table).wf(),
    ensures
        final(table).sfx@ == sfx_after_apply_new(old(table).sfx@, *config),
        final(table).music@ == old(table).music@,
        final(table).next_id == old(table).next_id,
        final(table).audio_root == old(table).audio_root,
        final(table).wf(),
{
    let ghost snap = table.sfx@;
    let n = table.sfx.len();
    let mut i: usize = 0;
    while i < n
        invariant
            i <= n,
            n == snap.len(),
            table.sfx@.len() == n,
            forall|j: int| 0 <= j < i ==> table.sfx@[j] == sfx_apply_new_one(snap[j], *config),
            forall|j: int| i <= j < n ==> table.sfx@[j] == snap[j],
            forall|j: int| 0 <= j < n ==> (#[trigger] snap[j]).playback.wf(),
            table.music@ == old(table).music@,
            table.next_id == old(table).next_id,
            table.audio_root == old(table).audio_root,
        decreases n - i,
    {
        let fresh_ready = match table.sfx[i].sink {
            SinkState::Ready { fresh, .. } => fresh,
            SinkState::Pending => false,
        };
        if table.sfx[i].alive && fresh_ready {
            let cat = table.sfx[i].category;
            let playback_volume = table.sfx[i].playback.volume;
            let mult = cat.volume_multiplier(config);
            let eff = config.effective_volume();
            let v = resolve_volume(eff, mult, playback_volume);
            let s = &mut table.sfx[i];
            s.sink = SinkState::Ready { volume: v, fresh: false };
        }
        i = i + 1;
    }
    proof {
        assert(table.sfx@ =~= sfx_after_apply_new(snap, *config));
        assert forall|j: int| 0 <= j < final(table).sfx@.len() implies (#[trigger] final(table).sfx@[j]).playback.wf() by {
            assert(final(table).sfx@[j] == sfx_apply_new_one(snap[j], *config));
        }
    }
}

/// Re-resolves the volume of every alive music instance with a ready sink;
/// run when the configuration has changed.
pub fn update_music_volume(table: &mut InstanceTable, config: &AudioConfig)
    requires
        old(table).wf(),
    ensures
        final(table).music@ == music_after_update(old(table).music@, *config),
        final(table).sfx@ == old(table).sfx@,
        final(table).next_id == old(table).next_id,
        final(table).audio_root == old(table).audio_root,
        final(table).wf(),
{
    let ghost snap = table.music@;
    let n = table.music.len();
    let mut i: usize = 0;
    while i < n
        invariant
            i <= n,
            n == snap.len(),
            table.music@.len() == n,
            forall|j: int| 0 <= j < i ==> table.music@[j] == music_update_one(snap[j], *config),
            forall|j: int| i <= j < n ==> table.music@[j] == snap[j],
            forall|j: int| 0 <= j < n ==> (#[trigger] snap[j]).playback.wf(),
            table.sfx@ == old(table).sfx@,
            table.next_id == old(table).next_id,
            table.audio_root == old(table).audio_root,
        decreases n - i,
    {
        let is_ready = match table.music[i].sink {
            SinkState::Ready { .. } => true,
            SinkState::Pending => false,
        };
        if table.music[i].alive && is_ready {
            let cat = table.music[i].category;
            let playback_volume = table.music[i].playback.volume;
            let mult = cat.volume_multiplier(config);
            let eff = config.effective_volume();
            let v = resolve_volume(eff, mult, playback_volume);
            let m = &mut table.music[i];
            m.sink = SinkState::Ready { volume: v, fresh: false };
        }
        i = i + 1;
    }
    proof {
        assert(table.music@ =~= music_after_update(snap, *config));
        assert forall|j: int| 0 <= j < final(table).music@.len() implies (#[trigger] final(table).music@[j]).playback.wf() by {
            assert(final(table).music@[j] == music_update_one(snap[j], *config));
        }
    }
}

/// Re-resolves the volume of every alive sound-effect instance with a ready
/// sink; run when the configuration has changed.
pub fn update_sfx_volume(table: &mut InstanceTable, config: &AudioConfig)
    requires
        old(table).wf(),
    ensures
        final(table).sfx@ == sfx_after_update(old(table).sfx@, *config),
        final(table).music@ == old(table).music@,
        final(table).next_id == old(table).next_id,
        final(table).audio_root == old(table).audio_root,
        final(table).wf(),
{
    let ghost snap = table.sfx@;
    let n = table.sfx.len();
    let mut i: usize = 0;
    while i < n
        invariant
            i <= n,
            n == snap.len(),
            table.sfx@.len() == n,
            forall|j: int| 0 <= j < i ==> table.sfx@[j] == sfx_update_one(snap[j], *config),
            forall|j: int| i <= j < n ==> table.sfx@[j] == snap[j],
            forall|j: int| 0 <= j < n ==> (#[trigger] snap[j]).playback.wf(),
            table.music@ == old(table).music@,
            table.next_id == old(table).next_id,
            table.audio_root == old(table).audio_root,
        decreases n - i,
    {
        let is_ready = match table.sfx[i].sink {
            SinkState::Ready { .. } => true,
            SinkState::Pending => false,
        };
        if table.sfx[i].alive && is_ready {
            let cat = table.sfx[i].category;
            let playback_volume = table.sfx[i].playback.volume;
            let mult = cat.volume_multiplier(config);
            let eff = config.effective_volume();
            let v = resolve_volume(eff, mult, playback_volume);
            let s = &mut table.sfx[i];
            s.sink = SinkState::Ready { volume: v, fresh: false };
        }
        i = i + 1;
    }
    proof {
        assert(table.sfx@ =~= sfx_after_update(snap, *config));
        assert forall|j: int| 0 <= j < final(table).sfx@.len() implies (#[trigger] final(table).sfx@[j]).playback.wf() by {
            assert(final(table).sfx@[j] == sfx_update_one(snap[j], *config));
        }
    }
}

/// How many of the first `n` sound-effect entries with the given source the
/// limiter keeps in one pass.
pub open spec fn kept_count(s: Seq<SfxInstance>, n: int, source: u64) -> int
    decreases n, 1int,
{
    if n <= 0 {
        0
    } else {
        kept_count(s, n - 1, source) + if sfx_kept(s, n - 1) && s[n - 1].source == source {
            1int
        } else {
            0int
        }
    }
}

/// Whether the limiter keeps entry `i`: the entry is alive and the entries
/// kept before it with the same source do not already reach its own cap.
/// The running count is rebuilt from zero on every pass; ties are broken by
/// enumeration order alone.
pub open spec fn sfx_kept(s: Seq<SfxInstance>, i: int) -> bool
    decreases i, 2int,
{
    &&& s[i].alive
    &&& kept_count(s, i, s[i].source) < s[i].max_concurrent.max as int
}

/// The sound-effect table after one limiter pass: entry `i` stays alive
/// exactly when the limiter keeps it; no other field changes.
pub open spec fn sfx_after_cap(s: Seq<SfxInstance>) -> Seq<SfxInstance> {
    Seq::new(s.len(), |i: int| SfxInstance { alive: sfx_kept(s, i), ..s[i] })
}

/// Enforces the per-source concurrency cap over the sound-effect table:
/// iterates the entries in enumeration order, accumulates a per-source count
/// of kept instances starting at zero, and disposes of each instance whose
/// running count has already reached its cap.
///
/// Also advances the shared counter's reset timer, clearing its counts when
/// the period completes; the counts are advisory bookkeeping and do not drive
/// the cap decision.
pub fn enforce_sfx_concurrency(
    table: &mut InstanceTable,
    counter: &mut SoundEffectCounter,
    delta: u64,
)
    ensures
        final(table).sfx@ == sfx_after_cap(old(table).sfx@),
        final(table).music@ == old(table).music@,
        final(table).next_id == old(table).next_id,
        final(table).audio_root == old(table).audio_root,
        old(table).wf() ==> final(table).wf(),
        final(counter).timer == old(counter).timer.after_spec(delta),
        final(counter).timer.wf(),
        final(counter).counts@ == (if old(counter).timer.fires_spec(delta) {
            Seq::<(u64, u32)>::empty()
        } else {
            old(counter).counts@
        }),
{
    counter.tick(delta);
    let ghost c1 = *counter;
    let ghost snap = table.sfx@;
    let n = table.sfx.len();
    let mut i: usize = 0;
    while i < n
        invariant
            i <= n,
            n == snap.len(),
            table.sfx@.len() == n,
            forall|j: int|
                0 <= j < i ==> table.sfx@[j] == (SfxInstance { alive: sfx_kept(snap, j), ..snap[j] }),
            forall|j: int| i <= j < n ==> table.sfx@[j] == snap[j],
            table.music@ == old(table).music@,
            table.next_id == old(table).next_id,
            table.audio_root == old(table).audio_root,
            *counter == c1,
        decreases n - i,
    {
        if table.sfx[i].alive {
            let src = table.sfx[i].source;
            let cap = table.sfx[i].max_concurrent.max;
            let mut c: usize = 0;
            let mut k: usize = 0;
            while k < i
                invariant
                    k <= i <= n,
                    n == snap.len(),
                    table.sfx@.len() == n,
                    c <= k,
                    c == kept_count(snap, k as int, src),
                    forall|j: int|
                        0 <= j < i ==> table.sfx@[j] == (SfxInstance {
                            alive: sfx_kept(snap, j),
                            ..snap[j]
                        }),
                    forall|j: int| i <= j < n ==> table.sfx@[j] == snap[j],
                decreases i - k,
            {
                if table.sfx[k].alive && table.sfx[k].source == src {
                    c = c + 1;
                }
                k = k + 1;
            }
            if c >= cap as usize {
                let e = &mut table.sfx[i];
                e.alive = false;
            }
        }
        i = i + 1;
    }
    proof {
        assert(table.sfx@ =~= sfx_after_cap(snap));
        if old(table).wf() {
            assert forall|j: int| 0 <= j < final(table).sfx@.len() implies (#[trigger] final(table).sfx@[j]).playback.wf() by {
                assert(final(table).sfx@[j] == (SfxInstance { alive: sfx_kept(snap, j), ..snap[j] }));
            }
        }
    }
}

/// With every entry of the table alive, sharing one source and one cap, the
/// limiter keeps exactly the first `cap` entries in enumeration order: the
/// kept count over the whole table is the minimum of the table's length and
/// the cap.
pub proof fn lemma_uniform_cap(s: Seq<SfxInstance>, source: u64, cap: u32)
    requires
        forall|i: int|
            0 <= i < s.len() ==> (#[trigger] s[i]).alive && s[i].source == source
                && s[i].max_concurrent.max == cap,
    ensures
        forall|i: int| 0 <= i < s.len() ==> (sfx_kept(s, i) <==> i < cap as int),
        kept_count(s, s.len() as int, source) == min(s.len() as int, cap as int),
{
    lemma_uniform_cap_prefix(s, source, cap, s.len() as int);
    assert forall|i: int| 0 <= i < s.len() implies (sfx_kept(s, i) <==> i < cap as int) by {
        lemma_uniform_cap_prefix(s, source, cap, i);
    }
}

proof fn lemma_uniform_cap_prefix(s: Seq<SfxInstance>, source: u64, cap: u32, n: int)
    requires
        0 <= n <= s.len(),
        forall|i: int|
            0 <= i < s.len() ==> (#[trigger] s[i]).alive && s[i].source == source
                && s[i].max_concurrent.max == cap,
    ensures
        kept_count(s, n, source) == min(n, cap as int),
        forall|i: int| 0 <= i < n ==> (sfx_kept(s, i) <==> i < cap as int),
    decreases n,
{
    if n > 0 {
        lemma_uniform_cap_prefix(s, source, cap, n - 1);
        assert(kept_count(s, n - 1, source) == min(n - 1, cap as int));
        assert(sfx_kept(s, n - 1) <==> min(n - 1, cap as int) < cap as int);
    }
}

/// After one limiter pass over a table whose entries are all alive, share
/// one source identity and one cap, exactly the first `cap` entries in
/// enumeration order remain alive: the number of survivors is the minimum of
/// the table's length and the cap.
pub proof fn lemma_cap_leaves_min(s: Seq<SfxInstance>, source: u64, cap: u32)
    requires
        forall|i: int|
            0 <= i < s.len() ==> (#[trigger] s[i]).alive && s[i].source == source
                && s[i].max_concurrent.max == cap,
    ensures
        forall|i: int| 0 <= i < s.len() ==> (sfx_after_cap(s)[i].alive <==> i < cap as int),
        count_alive_sfx_of_source(sfx_after_cap(s), s.len() as int, source) == min(
            s.len() as int,
            cap as int,
        ),
{
    lemma_uniform_cap(s, source, cap);
    lemma_count_capped(s, source, cap, s.len() as int);
}

proof fn lemma_count_capped(s: Seq<SfxInstance>, source: u64, cap: u32, n: int)
    requires
        0 <= n <= s.len(),
        forall|i: int|
            0 <= i < s.len() ==> (#[trigger] s[i]).alive && s[i].source == source
                && s[i].max_concurrent.max == cap,
    ensures
        count_alive_sfx_of_source(sfx_after_cap(s), n, source) == min(n, cap as int),
    decreases n,
{
    lemma_uniform_cap(s, source, cap);
    if n > 0 {
        lemma_count_capped(s, source, cap, n - 1);
        assert(sfx_after_cap(s)[n - 1].alive <==> sfx_kept(s, n - 1));
        assert(sfx_after_cap(s)[n - 1].source == source);
    }
}

/// A music instance after one fade step: the envelope advances by the tick's
/// delta; when it completes, the instance is disposed of, and otherwise its
/// sink receives the decayed volume. Only alive instances with an attached
/// fade and a ready sink take part.
pub open spec fn music_fade_one(m: MusicInstance, delta: u64) -> MusicInstance {
    match m.fade {
        Some(f) => match m.sink {
            SinkState::Ready { volume, fresh } => if m.alive {
                let advanced = FadeOut { elapsed: sat_add(f.elapsed, delta), ..f };
                if advanced.elapsed >= advanced.duration {
                    MusicInstance { alive: false, fade: Some(advanced), ..m }
                } else {
                    MusicInstance {
                        fade: Some(advanced),
                        sink: SinkState::Ready {
                            volume: fade_volume(
                                f.initial_volume as int,
                                f.duration as int,
                                advanced.elapsed as int,
                            ) as u64,
                            fresh: false,
                        },
                        ..m
                    }
                }
            } else {
                m
            },
            SinkState::Pending => m,
        },
        None => m,
    }
}

/// Over one fade step, a fading instance's sink volume never increases: the
/// sink held the envelope's decayed volume before the step, and afterwards it
/// holds the volume decayed to a later elapsed time (or the instance has been
/// disposed of with its sink untouched).
pub proof fn lemma_fade_step_non_increasing(m: MusicInstance, delta: u64)
    requires
        m.alive,
        m.fade is Some,
        m.sink is Ready,
        m.sink->volume as int == fade_volume(
            m.fade->0.initial_volume as int,
            m.fade->0.duration as int,
            m.fade->0.elapsed as int,
        ),
    ensures
        music_fade_one(m, delta).sink is Ready,
        music_fade_one(m, delta).sink->volume <= m.sink->volume,
{
    let f = m.fade->0;
    let e2 = sat_add(f.elapsed, delta);
    lemma_fade_volume_bounds(f.initial_volume as int, f.duration as int, f.elapsed as int);
    lemma_fade_volume_bounds(f.initial_volume as int, f.duration as int, e2 as int);
    lemma_fade_monotonic(f.initial_volume as int, f.duration as int, f.elapsed as int, e2 as int);
}

/// The music table after one fade step.
pub open spec fn music_after_fades(s: Seq<MusicInstance>, delta: u64) -> Seq<MusicInstance> {
    s.map_values(|m: MusicInstance| music_fade_one(m, delta))
}

/// Advances every attached fade-out envelope by the tick's delta: an
/// instance whose fade completed is disposed of; any other fading instance
/// has the decayed volume pushed to its sink.
pub fn process_fade_outs(table: &mut InstanceTable, delta: u64)
    ensures
        final(table).music@ == music_after_fades(old(table).music@, delta),
        final(table).sfx@ == old(table).sfx@,
        final(table).next_id == old(table).next_id,
        final(table).audio_root == old(table).audio_root,
        old(table).wf() ==> final(table).wf(),
{
    let ghost snap = table.music@;
    let n = table.music.len();
    let mut i: usize = 0;
    while i < n
        invariant
            i <= n,
            n == snap.len(),
            table.music@.len() == n,
            forall|j: int| 0 <= j < i ==> table.music@[j] == music_fade_one(snap[j], delta),
            forall|j: int| i <= j < n ==> table.music@[j] == snap[j],
            table.sfx@ == old(table).sfx@,
            table.next_id == old(table).next_id,
            table.audio_root == old(table).audio_root,
        decreases n - i,
    {
        let is_ready = match table.music[i].sink {
            SinkState::Ready { .. } => true,
            SinkState::Pending => false,
        };
        let fade = table.music[i].fade;
        if table.music[i].alive && is_ready {
            match fade {
                Some(f) => {
                    let mut advanced = f;
                    advanced.tick(delta);
                    if advanced.is_finished() {
                        let m = &mut table.music[i];
                        m.fade = Some(advanced);
                        m.alive = false;
                    } else {
                        let v = advanced.current_volume();
                        proof {
                            assert(advanced.initial_volume == f.initial_volume);
                            assert(advanced.duration == f.duration);
                        }
                        let m = &mut table.music[i];
                        m.fade = Some(advanced);
                        m.sink = SinkState::Ready { volume: v, fresh: false };
                    }
                },
                None => {},
            }
        }
        i = i + 1;
    }
    proof {
        assert(table.music@ =~= music_after_fades(snap, delta));
        if old(table).wf() {
            assert forall|j: int| 0 <= j < final(table).music@.len() implies (#[trigger] final(table).music@[j]).playback.wf() by {
                assert(final(table).music@[j] == music_fade_one(snap[j], delta));
            }
        }
    }
}

} // verus!
