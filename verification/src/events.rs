//! The playback request router: five request kinds, translated into instance
//! creation or disposal. Each handler drains a batch of requests exactly
//! once, in submission order.

use vstd::prelude::*;
use crate::bundles::{MusicBundle, SfxBundle, DEFAULT_MAX_CONCURRENT};
use crate::components::{draw_in_range, FadeOut, MaxConcurrent, PlaybackSettings, SinkState, SourceHandle};
use crate::instances::{music_from_bundle, sfx_from_bundle, InstanceTable, MusicInstance};
use crate::traits::{MusicCategory, SfxCategory};
use crate::volume::Volume;

verus! {

/// Request to start playing a music track. Creates an instance; playback
/// defaults to looping.
pub struct PlayMusic {
    /// Handle of the audio source asset.
    pub handle: SourceHandle,
    /// The music category for volume control.
    pub category: MusicCategory,
    /// Playback settings (defaults to looping).
    pub playback: PlaybackSettings,
}

impl PlayMusic {
    /// A play request with looping playback.
    pub fn new(handle: SourceHandle, category: MusicCategory) -> (r: PlayMusic)
        ensures
            r.handle == handle,
            r.category == category,
            r.playback == PlaybackSettings::looping_spec(),
            r.playback.wf(),
    {
        PlayMusic { handle, category, playback: PlaybackSettings::looping() }
    }

    /// The same request with custom playback settings.
    pub fn with_playback(self, playback: PlaybackSettings) -> (r: PlayMusic)
        requires
            playback.wf(),
        ensures
            r == (PlayMusic { playback, ..self }),
            r.playback.wf(),
    {
        PlayMusic { playback, ..self }
    }
}

/// Request to stop every live music instance of one category.
#[derive(Clone, Copy, PartialEq, Eq, Structural, Debug)]
pub struct StopMusic {
    /// The music category to stop.
    pub category: MusicCategory,
}

impl StopMusic {
    /// A stop request for the given category.
    pub fn new(category: MusicCategory) -> (r: StopMusic)
        ensures
            r == (StopMusic { category }),
    {
        StopMusic { category }
    }
}

/// Request to stop every live music instance, regardless of category.
#[derive(Clone, Copy, PartialEq, Eq, Structural, Debug)]
pub struct StopAllMusic {}

impl Default for StopAllMusic {
    fn default() -> (r: StopAllMusic)
        ensures
            r == (StopAllMusic {}),
    {
        StopAllMusic {}
    }
}

/// Request to fade out every live music instance of one category over a
/// duration, then dispose of it.
#[derive(Clone, Copy, PartialEq, Eq, Structural, Debug)]
pub struct FadeOutMusic {
    /// The music category to fade out.
    pub category: MusicCategory,
    /// Duration of the fade, in microseconds.
    pub duration: u64,
}

impl FadeOutMusic {
    /// A fade-out request over the given duration in microseconds.
    pub fn new(category: MusicCategory, duration: u64) -> (r: FadeOutMusic)
        ensures
            r == (FadeOutMusic { category, duration }),
    {
        FadeOutMusic { category, duration }
    }

    /// A fade-out request over the given duration in whole seconds.
    pub fn from_secs(category: MusicCategory, seconds: u64) -> (r: FadeOutMusic)
        requires
            seconds * 1_000_000 <= u64::MAX,
        ensures
            r == (FadeOutMusic { category, duration: (seconds * 1_000_000) as u64 }),
    {
        FadeOutMusic { category, duration: seconds * 1_000_000 }
    }
}

/// Request to play a sound effect. Creates an instance; playback defaults to
/// dispose-on-completion, and a concurrency cap is attached.
pub struct PlaySfx {
    /// Handle of the audio source asset.
    pub handle: SourceHandle,
    /// The sound-effect category for volume control.
    pub category: SfxCategory,
    /// Playback settings (defaults to dispose-on-completion).
    pub playback: PlaybackSettings,
    /// Maximum concurrent instances of this sound.
    pub max_concurrent: u32,
}

impl PlaySfx {
    /// A play request with dispose-on-completion playback and the default
    /// concurrency cap.
    pub fn new(handle: SourceHandle, category: SfxCategory) -> (r: PlaySfx)
        ensures
            r.handle == handle,
            r.category == category,
            r.playback == PlaybackSettings::despawn_spec(),
            r.max_concurrent == DEFAULT_MAX_CONCURRENT,
            r.playback.wf(),
    {
        PlaySfx {
            handle,
            category,
            playback: PlaybackSettings::despawn_on_finish(),
            max_concurrent: DEFAULT_MAX_CONCURRENT,
        }
    }

    /// The same request with custom playback settings.
    pub fn with_playback(self, playback: PlaybackSettings) -> (r: PlaySfx)
        requires
            playback.wf(),
        ensures
            r == (PlaySfx { playback, ..self }),
            r.playback.wf(),
    {
        PlaySfx { playback, ..self }
    }

    /// The same request with another concurrency cap.
    pub fn with_max_concurrent(self, max: u32) -> (r: PlaySfx)
        ensures
            r == (PlaySfx { max_concurrent: max, ..self }),
    {
        PlaySfx { max_concurrent: max, ..self }
    }

    /// Draws the playback volume once, uniformly, from `[min, max]`
    /// (inclusive, in millionths).
    pub fn with_volume(self, min: u64, max: u64) -> (r: PlaySfx)
        requires
            min <= max,
        ensures
            r.handle == self.handle,
            r.category == self.category,
            r.max_concurrent == self.max_concurrent,
            r.playback.mode == self.playback.mode,
            r.playback.speed == self.playback.speed,
            r.playback.volume matches Volume::Linear(v) && min <= v <= max,
            r.playback.wf(),
    {
        let v = draw_in_range(min, max);
        PlaySfx {
            playback: PlaybackSettings { volume: Volume::Linear(v), ..self.playback },
            ..self
        }
    }

    /// Draws the playback speed once, uniformly, from `[min, max]`
    /// (inclusive, in millionths).
    pub fn with_speed(self, min: u64, max: u64) -> (r: PlaySfx)
        requires
            min <= max,
        ensures
            r.handle == self.handle,
            r.category == self.category,
            r.max_concurrent == self.max_concurrent,
            r.playback.mode == self.playback.mode,
            r.playback.volume == self.playback.volume,
            min <= r.playback.speed <= max,
            self.playback.wf() ==> r.playback.wf(),
    {
        let s = draw_in_range(min, max);
        PlaySfx { playback: PlaybackSettings { speed: s, ..self.playback }, ..self }
    }

    /// Applies the standard variety preset: speed in [0.7, 1.3] and volume in
    /// [0.6, 1.0].
    pub fn randomized(self) -> (r: PlaySfx)
        ensures
            r.handle == self.handle,
            r.category == self.category,
            r.max_concurrent == self.max_concurrent,
            r.playback.mode == self.playback.mode,
            r.playback.volume matches Volume::Linear(v) && 600_000 <= v <= 1_000_000,
            700_000 <= r.playback.speed <= 1_300_000,
            r.playback.wf(),
    {
        self.with_volume(600_000, 1_000_000).with_speed(700_000, 1_300_000)
    }
}

/// The bundle a play-music request creates its instance from.
pub open spec fn music_bundle_of(e: PlayMusic) -> MusicBundle {
    MusicBundle { handle: e.handle, playback: e.playback, category: e.category }
}

/// The bundle a play-sfx request creates its instance from: the concurrency
/// cap tracks the request's own source.
pub open spec fn sfx_bundle_of(e: PlaySfx) -> SfxBundle {
    SfxBundle {
        handle: e.handle,
        playback: e.playback,
        category: e.category,
        max_concurrent: MaxConcurrent { source: e.handle.id, max: e.max_concurrent },
    }
}

/// Every request in a batch carries playback settings the engine can
/// evaluate.
pub open spec fn play_music_events_wf(evs: Seq<PlayMusic>) -> bool {
    forall|i: int| 0 <= i < evs.len() ==> (#[trigger] evs[i]).playback.wf()
}

/// Every request in a batch carries playback settings the engine can
/// evaluate.
pub open spec fn play_sfx_events_wf(evs: Seq<PlaySfx>) -> bool {
    forall|i: int| 0 <= i < evs.len() ==> (#[trigger] evs[i]).playback.wf()
}

/// The music table after a batch of play requests: one new instance per
/// request, appended in submission order under consecutive fresh ids.
pub open spec fn music_after_plays(
    s: Seq<MusicInstance>,
    evs: Seq<PlayMusic>,
    next_id: u64,
    root: Option<u64>,
) -> Seq<MusicInstance> {
    s + Seq::new(
        evs.len(),
        |i: int| music_from_bundle(music_bundle_of(evs[i]), (next_id + i) as u64, root),
    )
}

/// The sound-effect table after a batch of play requests.
pub open spec fn sfx_after_plays(
    s: Seq<crate::instances::SfxInstance>,
    evs: Seq<PlaySfx>,
    next_id: u64,
    root: Option<u64>,
) -> Seq<crate::instances::SfxInstance> {
    s + Seq::new(
        evs.len(),
        |i: int| sfx_from_bundle(sfx_bundle_of(evs[i]), (next_id + i) as u64, root),
    )
}

/// Creates one music instance per request, in submission order.
pub fn handle_play_music_events(table: &mut InstanceTable, events: Vec<PlayMusic>) -> (ids: Vec<
    u64,
>)
    requires
        old(table).next_id + events@.len() <= u64::MAX,
        play_music_events_wf(events@),
    ensures
        final(table).music@ == music_after_plays(
            old(table).music@,
            events@,
            old(table).next_id,
            old(table).audio_root,
        ),
        final(table).sfx@ == old(table).sfx@,
        final(table).next_id == old(table).next_id + events@.len(),
        final(table).audio_root == old(table).audio_root,
        old(table).wf() ==> final(table).wf(),
        ids@.len() == events@.len(),
        forall|i: int| 0 <= i < ids@.len() ==> ids@[i] == old(table).next_id + i,
{
    let ghost evs = events@;
    let ghost snap = table.music@;
    let ghost nid0 = table.next_id;
    let ghost root = table.audio_root;
    let ghost total = evs.len();
    proof {
        assert(total == events.len());
    }
    let mut events = events;
    let mut ids: Vec<u64> = Vec::new();
    let mut j: usize = 0;
    while events.len() > 0
        invariant
            total == evs.len(),
            total <= usize::MAX,
            j <= total,
            j + events@.len() == total,
            events@ =~= evs.skip(j as int),
            nid0 + total <= u64::MAX,
            play_music_events_wf(evs),
            table.music@ == music_after_plays(snap, evs.take(j as int), nid0, root),
            table.next_id == nid0 + j,
            table.sfx@ == old(table).sfx@,
            table.audio_root == root,
            root == old(table).audio_root,
            snap == old(table).music@,
            nid0 == old(table).next_id,
            old(table).wf() ==> table.wf(),
            ids@.len() == j,
            forall|i: int| 0 <= i < j ==> ids@[i] == nid0 + i,
        decreases events@.len(),
    {
        proof {
            assert(events@[0] == evs.skip(j as int)[0]);
            assert(evs.skip(j as int)[0] == evs[j as int]);
            assert(evs[j as int].playback.wf());
        }
        let e = events.remove(0);
        proof {
            assert(events@ =~= evs.skip(j as int + 1));
        }
        let bundle = MusicBundle { handle: e.handle, playback: e.playback, category: e.category };
        let id = table.spawn_music(bundle);
        ids.push(id);
        proof {
            assert(music_after_plays(snap, evs.take(j as int + 1), nid0, root) =~= music_after_plays(
                snap,
                evs.take(j as int),
                nid0,
                root,
            ).push(music_from_bundle(music_bundle_of(evs[j as int]), (nid0 + j) as u64, root)));
        }
        j = j + 1;
    }
    proof {
        assert(evs.take(j as int) =~= evs);
    }
    ids
}

/// Creates one sound-effect instance per request, in submission order, each
/// carrying its request's concurrency cap.
pub fn handle_play_sfx_events(table: &mut InstanceTable, events: Vec<PlaySfx>) -> (ids: Vec<u64>)
    requires
        old(table).next_id + events@.len() <= u64::MAX,
        play_sfx_events_wf(events@),
    ensures
        final(table).sfx@ == sfx_after_plays(
            old(table).sfx@,
            events@,
            old(table).next_id,
            old(table).audio_root,
        ),
        final(table).music@ == old(table).music@,
        final(table).next_id == old(table).next_id + events@.len(),
        final(table).audio_root == old(table).audio_root,
        old(table).wf() ==> final(table).wf(),
        ids@.len() == events@.len(),
        forall|i: int| 0 <= i < ids@.len() ==> ids@[i] == old(table).next_id + i,
{
    let ghost evs = events@;
    let ghost snap = table.sfx@;
    let ghost nid0 = table.next_id;
    let ghost root = table.audio_root;
    let ghost total = evs.len();
    proof {
        assert(total == events.len());
    }
    let mut events = events;
    let mut ids: Vec<u64> = Vec::new();
    let mut j: usize = 0;
    while events.len() > 0
        invariant
            total == evs.len(),
            total <= usize::MAX,
            j <= total,
            j + events@.len() == total,
            events@ =~= evs.skip(j as int),
            nid0 + total <= u64::MAX,
            play_sfx_events_wf(evs),
            table.sfx@ == sfx_after_plays(snap, evs.take(j as int), nid0, root),
            table.next_id == nid0 + j,
            table.music@ == old(table).music@,
            table.audio_root == root,
            root == old(table).audio_root,
            snap == old(table).sfx@,
            nid0 == old(table).next_id,
            old(table).wf() ==> table.wf(),
            ids@.len() == j,
            forall|i: int| 0 <= i < j ==> ids@[i] == nid0 + i,
        decreases events@.len(),
    {
        proof {
            assert(events@[0] == evs.skip(j as int)[0]);
            assert(evs.skip(j as int)[0] == evs[j as int]);
            assert(evs[j as int].playback.wf());
        }
        let e = events.remove(0);
        proof {
            assert(events@ =~= evs.skip(j as int + 1));
        }
        let cap = MaxConcurrent::new(e.handle.id, e.max_concurrent);
        let bundle = SfxBundle {
            handle: e.handle,
            playback: e.playback,
            category: e.category,
            max_concurrent: cap,
        };
        let id = table.spawn_sfx(bundle);
        ids.push(id);
        proof {
            assert(sfx_after_plays(snap, evs.take(j as int + 1), nid0, root) =~= sfx_after_plays(
                snap,
                evs.take(j as int),
                nid0,
                root,
            ).push(sfx_from_bundle(sfx_bundle_of(evs[j as int]), (nid0 + j) as u64, root)));
        }
        j = j + 1;
    }
    proof {
        assert(evs.take(j as int) =~= evs);
    }
    ids
}

/// A music instance after a stop request for one category: disposed of if its
/// category matches.
pub open spec fn music_stopped_one(m: MusicInstance, category: MusicCategory) -> MusicInstance {
    if m.category == category {
        MusicInstance { alive: false, ..m }
    } else {
        m
    }
}

/// The music table after a stop request for one category.
pub open spec fn music_after_stop_cat(s: Seq<MusicInstance>, category: MusicCategory) -> Seq<
    MusicInstance,
> {
    s.map_values(|m: MusicInstance| music_stopped_one(m, category))
}

/// The music table after a batch of stop requests, applied in submission
/// order.
pub open spec fn music_after_stops(s: Seq<MusicInstance>, evs: Seq<StopMusic>) -> Seq<
    MusicInstance,
>
    decreases evs.len(),
{
    if evs.len() == 0 {
        s
    } else {
        music_after_stop_cat(music_after_stops(s, evs.drop_last()), evs.last().category)
    }
}

/// Disposes of every live music instance whose category equals a stop
/// request's category, for each request in the batch.
pub fn handle_stop_music_events(table: &mut InstanceTable, events: &Vec<StopMusic>)
    ensures
        final(table).music@ == music_after_stops(old(table).music@, events@),
        final(table).sfx@ == old(table).sfx@,
        final(table).next_id == old(table).next_id,
        final(table).audio_root == old(table).audio_root,
        old(table).wf() ==> final(table).wf(),
{
    let ghost evs = events@;
    let ghost snap = table.music@;
    let total = events.len();
    let mut j: usize = 0;
    while j < total
        invariant
            j <= total == evs.len(),
            evs == events@,
            table.music@ == music_after_stops(snap, evs.take(j as int)),
            table.music@.len() == snap.len(),
            table.sfx@ == old(table).sfx@,
            table.next_id == old(table).next_id,
            table.audio_root == old(table).audio_root,
            snap == old(table).music@,
            old(table).wf() ==> table.wf(),
        decreases total - j,
    {
        let category = events[j].category;
        let ghost before = table.music@;
        let n = table.music.len();
        let mut i: usize = 0;
        while i < n
            invariant
                i <= n,
                n == before.len(),
                table.music@.len() == n,
                forall|t: int| 0 <= t < i ==> table.music@[t] == music_stopped_one(before[t], category),
                forall|t: int| i <= t < n ==> table.music@[t] == before[t],
                table.sfx@ == old(table).sfx@,
                table.next_id == old(table).next_id,
                table.audio_root == old(table).audio_root,
            decreases n - i,
        {
            if table.music[i].category.tag == category.tag {
                let m = &mut table.music[i];
                m.alive = false;
            }
            i = i + 1;
        }
        proof {
            assert(table.music@ =~= music_after_stop_cat(before, category));
            assert(evs.take(j as int + 1).drop_last() =~= evs.take(j as int));
            assert(evs.take(j as int + 1).last() == evs[j as int]);
            if old(table).wf() {
                assert forall|t: int| 0 <= t < table.music@.len() implies (#[trigger] table.music@[t]).playback.wf() by {
                    assert(table.music@[t] == music_stopped_one(before[t], category));
                }
            }
        }
        j = j + 1;
    }
    proof {
        assert(evs.take(j as int) =~= evs);
    }
}

/// The music table after a stop-all request: every instance disposed of.
pub open spec fn music_after_stop_all(s: Seq<MusicInstance>) -> Seq<MusicInstance> {
    s.map_values(|m: MusicInstance| MusicInstance { alive: false, ..m })
}

/// Disposes of every live music instance, regardless of category, if the
/// batch holds at least one stop-all request.
pub fn handle_stop_all_music_events(table: &mut InstanceTable, events: &Vec<StopAllMusic>)
    ensures
        final(table).music@ == (if events@.len() > 0 {
            music_after_stop_all(old(table).music@)
        } else {
            old(table).music@
        }),
        final(table).sfx@ == old(table).sfx@,
        final(table).next_id == old(table).next_id,
        final(table).audio_root == old(table).audio_root,
        old(table).wf() ==> final(table).wf(),
{
    if events.len() == 0 {
        return ;
    }
    let ghost snap = table.music@;
    let n = table.music.len();
    let mut i: usize = 0;
    while i < n
        invariant
            i <= n,
            n == snap.len(),
            table.music@.len() == n,
            forall|t: int|
                0 <= t < i ==> table.music@[t] == (MusicInstance { alive: false, ..snap[t] }),
            forall|t: int| i <= t < n ==> table.music@[t] == snap[t],
            table.sfx@ == old(table).sfx@,
            table.next_id == old(table).next_id,
            table.audio_root == old(table).audio_root,
            snap == old(table).music@,
        decreases n - i,
    {
        let m = &mut table.music[i];
        m.alive = false;
        i = i + 1;
    }
    proof {
        assert(table.music@ =~= music_after_stop_all(snap));
        if old(table).wf() {
            assert forall|t: int| 0 <= t < table.music@.len() implies (#[trigger] table.music@[t]).playback.wf() by {
                assert(table.music@[t] == (MusicInstance { alive: false, ..snap[t] }));
            }
        }
    }
}

/// A music instance after a fade-out request for one category: a live,
/// matching instance with a ready sink gains a fade envelope that captures
/// the sink's current volume and starts at zero elapsed time. A repeated
/// request re-captures the current (possibly already-fading) volume and
/// restarts the timer.
pub open spec fn music_fade_requested_one(
    m: MusicInstance,
    category: MusicCategory,
    duration: u64,
) -> MusicInstance {
    match m.sink {
        SinkState::Ready { volume, fresh } => if m.alive && m.category == category {
            MusicInstance {
                fade: Some(FadeOut { elapsed: 0, duration, initial_volume: volume }),
                ..m
            }
        } else {
            m
        },
        SinkState::Pending => m,
    }
}

/// The music table after a fade-out request for one category.
pub open spec fn music_after_fade_cat(
    s: Seq<MusicInstance>,
    category: MusicCategory,
    duration: u64,
) -> Seq<MusicInstance> {
    s.map_values(|m: MusicInstance| music_fade_requested_one(m, category, duration))
}

/// The music table after a batch of fade-out requests, applied in submission
/// order: for instances named by several requests, the last request wins.
pub open spec fn music_after_fade_reqs(s: Seq<MusicInstance>, evs: Seq<FadeOutMusic>) -> Seq<
    MusicInstance,
>
    decreases evs.len(),
{
    if evs.len() == 0 {
        s
    } else {
        music_after_fade_cat(
            music_after_fade_reqs(s, evs.drop_last()),
            evs.last().category,
            evs.last().duration,
        )
    }
}

/// Attaches a fade-out envelope to every live music instance whose category
/// matches a request, capturing its current volume, for each request in the
/// batch.
pub fn handle_fade_out_music_events(table: &mut InstanceTable, events: &Vec<FadeOutMusic>)
    ensures
        final(table).music@ == music_after_fade_reqs(old(table).music@, events@),
        final(table).sfx@ == old(table).sfx@,
        final(table).next_id == old(table).next_id,
        final(table).audio_root == old(table).audio_root,
        old(table).wf() ==> final(table).wf(),
{
    let ghost evs = events@;
    let ghost snap = table.music@;
    let total = events.len();
    let mut j: usize = 0;
    while j < total
        invariant
            j <= total == evs.len(),
            evs == events@,
            table.music@ == music_after_fade_reqs(snap, evs.take(j as int)),
            table.music@.len() == snap.len(),
            table.sfx@ == old(table).sfx@,
            table.next_id == old(table).next_id,
            table.audio_root == old(table).audio_root,
            snap == old(table).music@,
            old(table).wf() ==> table.wf(),
        decreases total - j,
    {
        let category = events[j].category;
        let duration = events[j].duration;
        let ghost before = table.music@;
        let n = table.music.len();
        let mut i: usize = 0;
        while i < n
            invariant
                i <= n,
                n == before.len(),
                table.music@.len() == n,
                forall|t: int|
                    0 <= t < i ==> table.music@[t] == music_fade_requested_one(
                        before[t],
                        category,
                        duration,
                    ),
                forall|t: int| i <= t < n ==> table.music@[t] == before[t],
                table.sfx@ == old(table).sfx@,
                table.next_id == old(table).next_id,
                table.audio_root == old(table).audio_root,
            decreases n - i,
        {
            let current = match table.music[i].sink {
                SinkState::Ready { volume, .. } => Some(volume),
                SinkState::Pending => None,
            };
            match current {
                Some(v) => {
                    if table.music[i].alive && table.music[i].category.tag == category.tag {
                        let m = &mut table.music[i];
                        m.fade = Some(FadeOut { elapsed: 0, duration, initial_volume: v });
                    }
                },
                None => {},
            }
            i = i + 1;
        }
        proof {
            assert(table.music@ =~= music_after_fade_cat(before, category, duration));
            assert(evs.take(j as int + 1).drop_last() =~= evs.take(j as int));
            assert(evs.take(j as int + 1).last() == evs[j as int]);
            if old(table).wf() {
                assert forall|t: int| 0 <= t < table.music@.len() implies (#[trigger] table.music@[t]).playback.wf() by {
                    assert(table.music@[t] == music_fade_requested_one(before[t], category, duration));
                }
            }
        }
        j = j + 1;
    }
    proof {
        assert(evs.take(j as int) =~= evs);
    }
}

} // verus!
