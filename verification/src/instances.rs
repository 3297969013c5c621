//! The instance registry: every live sound is an entry here, with its
//! category tag, playback settings and output sink. The request router
//! creates entries; the volume systems write their sinks; the concurrency
//! limiter and the fade engine dispose of them.
//!
//! Disposal marks an entry dead; dead entries are skipped by every system and
//! swept out at the end of a tick. Marking instead of removing makes disposal
//! idempotent and keeps indices stable within a tick.

use vstd::prelude::*;
use crate::bundles::{MusicBundle, SfxBundle};
use crate::components::{FadeOut, MaxConcurrent, PlaybackSettings, SinkState};
use crate::traits::{MusicCategory, SfxCategory};
use crate::volume::VOLUME_SCALE;

verus! {

/// One live (or just-disposed) music instance.
pub struct MusicInstance {
    /// Identifier of this instance within the registry.
    pub id: u64,
    /// Identity of the underlying audio asset; an equality and grouping key.
    pub source: u64,
    /// Human-readable label derived from the asset's path metadata, if any.
    pub label: Option<String>,
    /// The audio-root collection point this instance is nested under, if one
    /// was designated when it was created.
    pub parent: Option<u64>,
    /// The music category tag for volume control.
    pub category: MusicCategory,
    /// Playback settings captured at creation.
    pub playback: PlaybackSettings,
    /// The output sink, once the backend resource is ready.
    pub sink: SinkState,
    /// The fade-out envelope, while one is attached.
    pub fade: Option<FadeOut>,
    /// False once the instance has been disposed of.
    pub alive: bool,
}

/// One live (or just-disposed) sound-effect instance.
pub struct SfxInstance {
    /// Identifier of this instance within the registry.
    pub id: u64,
    /// Identity of the underlying audio asset; an equality and grouping key.
    pub source: u64,
    /// Human-readable label derived from the asset's path metadata, if any.
    pub label: Option<String>,
    /// The audio-root collection point this instance is nested under, if any.
    pub parent: Option<u64>,
    /// The sound-effect category tag for volume control.
    pub category: SfxCategory,
    /// Playback settings captured at creation.
    pub playback: PlaybackSettings,
    /// The concurrency cap attached to this instance.
    pub max_concurrent: MaxConcurrent,
    /// The output sink, once the backend resource is ready.
    pub sink: SinkState,
    /// False once the instance has been disposed of.
    pub alive: bool,
}

/// The music instance a bundle creates, under a fresh id and the designated
/// audio root.
pub open spec fn music_from_bundle(b: MusicBundle, id: u64, root: Option<u64>) -> MusicInstance {
    MusicInstance {
        id,
        source: b.handle.id,
        label: b.handle.path,
        parent: root,
        category: b.category,
        playback: b.playback,
        sink: SinkState::Pending,
        fade: None,
        alive: true,
    }
}

/// The sound-effect instance a bundle creates.
pub open spec fn sfx_from_bundle(b: SfxBundle, id: u64, root: Option<u64>) -> SfxInstance {
    SfxInstance {
        id,
        source: b.handle.id,
        label: b.handle.path,
        parent: root,
        category: b.category,
        playback: b.playback,
        max_concurrent: b.max_concurrent,
        sink: SinkState::Pending,
        alive: true,
    }
}

/// A music instance after a disposal request for `id`: dead if it matches,
/// untouched otherwise.
pub open spec fn music_disposed_one(m: MusicInstance, id: u64) -> MusicInstance {
    if m.id == id {
        MusicInstance { alive: false, ..m }
    } else {
        m
    }
}

/// A sound-effect instance after a disposal request for `id`.
pub open spec fn sfx_disposed_one(s: SfxInstance, id: u64) -> SfxInstance {
    if s.id == id {
        SfxInstance { alive: false, ..s }
    } else {
        s
    }
}

/// The music table after a disposal request for `id`.
pub open spec fn music_after_dispose(s: Seq<MusicInstance>, id: u64) -> Seq<MusicInstance> {
    s.map_values(|m: MusicInstance| music_disposed_one(m, id))
}

/// The sound-effect table after a disposal request for `id`.
pub open spec fn sfx_after_dispose(s: Seq<SfxInstance>, id: u64) -> Seq<SfxInstance> {
    s.map_values(|x: SfxInstance| sfx_disposed_one(x, id))
}

/// Disposing of an instance is idempotent: a second disposal of the same id
/// changes nothing.
pub proof fn lemma_music_dispose_idempotent(s: Seq<MusicInstance>, id: u64)
    ensures
        music_after_dispose(music_after_dispose(s, id), id) == music_after_dispose(s, id),
{
    assert(music_after_dispose(music_after_dispose(s, id), id) =~= music_after_dispose(s, id));
}

/// Disposing of a sound effect is idempotent in the same way.
pub proof fn lemma_sfx_dispose_idempotent(s: Seq<SfxInstance>, id: u64)
    ensures
        sfx_after_dispose(sfx_after_dispose(s, id), id) == sfx_after_dispose(s, id),
{
    assert(sfx_after_dispose(sfx_after_dispose(s, id), id) =~= sfx_after_dispose(s, id));
}

/// A music instance after the backend reports its sink ready: a pending,
/// alive instance with the given id gains a sink at full volume that still
/// awaits its first volume resolution.
pub open spec fn music_attached_one(m: MusicInstance, id: u64) -> MusicInstance {
    if m.id == id && m.alive && m.sink is Pending {
        MusicInstance { sink: SinkState::Ready { volume: VOLUME_SCALE, fresh: true }, ..m }
    } else {
        m
    }
}

/// A sound-effect instance after the backend reports its sink ready.
pub open spec fn sfx_attached_one(s: SfxInstance, id: u64) -> SfxInstance {
    if s.id == id && s.alive && s.sink is Pending {
        SfxInstance { sink: SinkState::Ready { volume: VOLUME_SCALE, fresh: true }, ..s }
    } else {
        s
    }
}

/// The number of alive instances among the first `n` music entries.
pub open spec fn count_alive_music(s: Seq<MusicInstance>, n: int) -> int
    decreases n,
{
    if n <= 0 {
        0
    } else {
        count_alive_music(s, n - 1) + if s[n - 1].alive {
            1int
        } else {
            0int
        }
    }
}

/// The number of alive instances among the first `n` sound-effect entries.
pub open spec fn count_alive_sfx(s: Seq<SfxInstance>, n: int) -> int
    decreases n,
{
    if n <= 0 {
        0
    } else {
        count_alive_sfx(s, n - 1) + if s[n - 1].alive {
            1int
        } else {
            0int
        }
    }
}

/// The number of alive sound-effect instances with the given source identity
/// among the first `n` entries.
pub open spec fn count_alive_sfx_of_source(s: Seq<SfxInstance>, n: int, source: u64) -> int
    decreases n,
{
    if n <= 0 {
        0
    } else {
        count_alive_sfx_of_source(s, n - 1, source) + if s[n - 1].alive && s[n - 1].source
            == source {
            1int
        } else {
            0int
        }
    }
}

/// The registry of all instances, with the id counter and the designated
/// audio-root collection point.
pub struct InstanceTable {
    pub music: Vec<MusicInstance>,
    pub sfx: Vec<SfxInstance>,
    /// The id the next created instance receives; ids are never reused.
    pub next_id: u64,
    /// New instances are nested under this collection point, if one is set.
    pub audio_root: Option<u64>,
}

impl InstanceTable {
    /// Every instance's playback settings are within the volume bounds the
    /// engine can evaluate.
    pub open spec fn wf(&self) -> bool {
        &&& (forall|i: int| 0 <= i < self.music@.len() ==> (#[trigger] self.music@[i]).playback.wf())
        &&& (forall|i: int| 0 <= i < self.sfx@.len() ==> (#[trigger] self.sfx@[i]).playback.wf())
    }

    /// An empty registry.
    pub fn new() -> (r: InstanceTable)
        ensures
            r.music@ =~= Seq::<MusicInstance>::empty(),
            r.sfx@ =~= Seq::<SfxInstance>::empty(),
            r.next_id == 0,
            r.audio_root is None,
            r.wf(),
    {
        InstanceTable { music: Vec::new(), sfx: Vec::new(), next_id: 0, audio_root: None }
    }

    /// Designates (or clears) the collection point under which new instances
    /// are nested.
    pub fn set_audio_root(&mut self, root: Option<u64>)
        ensures
            *final(self) == (InstanceTable { audio_root: root, ..*old(self) }),
    {
        self.audio_root = root;
    }

    /// Creates a music instance from a bundle; its output sink is pending
    /// until the backend attaches it. Returns the new instance's id.
    pub fn spawn_music(&mut self, bundle: MusicBundle) -> (id: u64)
        requires
            old(self).next_id < u64::MAX,
            bundle.playback.wf(),
        ensures
            id == old(self).next_id,
            final(self).music@ == old(self).music@.push(
                music_from_bundle(bundle, old(self).next_id, old(self).audio_root),
            ),
            final(self).sfx@ == old(self).sfx@,
            final(self).next_id == old(self).next_id + 1,
            final(self).audio_root == old(self).audio_root,
            old(self).wf() ==> final(self).wf(),
    {
        let id = self.next_id;
        let instance = MusicInstance {
            id,
            source: bundle.handle.id,
            label: bundle.handle.path,
            parent: self.audio_root,
            category: bundle.category,
            playback: bundle.playback,
            sink: SinkState::Pending,
            fade: None,
            alive: true,
        };
        self.music.push(instance);
        self.next_id = self.next_id + 1;
        id
    }

    /// Creates a sound-effect instance from a bundle, carrying its
    /// concurrency cap. Returns the new instance's id.
    pub fn spawn_sfx(&mut self, bundle: SfxBundle) -> (id: u64)
        requires
            old(self).next_id < u64::MAX,
            bundle.playback.wf(),
        ensures
            id == old(self).next_id,
            final(self).sfx@ == old(self).sfx@.push(
                sfx_from_bundle(bundle, old(self).next_id, old(self).audio_root),
            ),
            final(self).music@ == old(self).music@,
            final(self).next_id == old(self).next_id + 1,
            final(self).audio_root == old(self).audio_root,
            old(self).wf() ==> final(self).wf(),
    {
        let id = self.next_id;
        let instance = SfxInstance {
            id,
            source: bundle.handle.id,
            label: bundle.handle.path,
            parent: self.audio_root,
            category: bundle.category,
            playback: bundle.playback,
            max_concurrent: bundle.max_concurrent,
            sink: SinkState::Pending,
            alive: true,
        };
        self.sfx.push(instance);
        self.next_id = self.next_id + 1;
        id
    }

    /// Disposes of the music instance with the given id: a permanent,
    /// idempotent, silent removal from the live set.
    pub fn dispose_music(&mut self, id: u64)
        ensures
            final(self).music@ == music_after_dispose(old(self).music@, id),
            final(self).sfx@ == old(self).sfx@,
            final(self).next_id == old(self).next_id,
            final(self).audio_root == old(self).audio_root,
            old(self).wf() ==> final(self).wf(),
    {
        let ghost snap = self.music@;
        let n = self.music.len();
        let mut i: usize = 0;
        while i < n
            invariant
                n == snap.len(),
                i <= n,
                self.music@.len() == n,
                forall|j: int| 0 <= j < i ==> self.music@[j] == music_disposed_one(snap[j], id),
                forall|j: int| i <= j < n ==> self.music@[j] == snap[j],
                self.sfx@ == old(self).sfx@,
                self.next_id == old(self).next_id,
                self.audio_root == old(self).audio_root,
            decreases n - i,
        {
            if self.music[i].id == id {
                let m = &mut self.music[i];
                m.alive = false;
            }
            i = i + 1;
        }
        proof {
            assert(self.music@ =~= music_after_dispose(snap, id));
        }
    }

    /// Disposes of the sound-effect instance with the given id.
    pub fn dispose_sfx(&mut self, id: u64)
        ensures
            final(self).sfx@ == sfx_after_dispose(old(self).sfx@, id),
            final(self).music@ == old(self).music@,
            final(self).next_id == old(self).next_id,
            final(self).audio_root == old(self).audio_root,
            old(self).wf() ==> final(self).wf(),
    {
        let ghost snap = self.sfx@;
        let n = self.sfx.len();
        let mut i: usize = 0;
        while i < n
            invariant
                n == snap.len(),
                i <= n,
                self.sfx@.len() == n,
                forall|j: int| 0 <= j < i ==> self.sfx@[j] == sfx_disposed_one(snap[j], id),
                forall|j: int| i <= j < n ==> self.sfx@[j] == snap[j],
                self.music@ == old(self).music@,
                self.next_id == old(self).next_id,
                self.audio_root == old(self).audio_root,
            decreases n - i,
        {
            if self.sfx[i].id == id {
                let s = &mut self.sfx[i];
                s.alive = false;
            }
            i = i + 1;
        }
        proof {
            assert(self.sfx@ =~= sfx_after_dispose(snap, id));
        }
    }

    /// Records that the backend attached an output sink to the music instance
    /// with the given id; the sink starts at full volume and awaits its first
    /// volume resolution.
    pub fn attach_sink_music(&mut self, id: u64)
        ensures
            final(self).music@.len() == old(self).music@.len(),
            forall|j: int|
                0 <= j < old(self).music@.len() ==> final(self).music@[j] == music_attached_one(
                    old(self).music@[j],
                    id,
                ),
            final(self).sfx@ == old(self).sfx@,
            final(self).next_id == old(self).next_id,
            final(self).audio_root == old(self).audio_root,
            old(self).wf() ==> final(self).wf(),
    {
        let ghost snap = self.music@;
        let n = self.music.len();
        let mut i: usize = 0;
        while i < n
            invariant
                n == snap.len(),
                i <= n,
                self.music@.len() == n,
                forall|j: int| 0 <= j < i ==> self.music@[j] == music_attached_one(snap[j], id),
                forall|j: int| i <= j < n ==> self.music@[j] == snap[j],
                self.sfx@ == old(self).sfx@,
                self.next_id == old(self).next_id,
                self.audio_root == old(self).audio_root,
            decreases n - i,
        {
            let pending = match self.music[i].sink {
                SinkState::Pending => true,
                SinkState::Ready { .. } => false,
            };
            if self.music[i].id == id && self.music[i].alive && pending {
                let m = &mut self.music[i];
                m.sink = SinkState::Ready { volume: VOLUME_SCALE, fresh: true };
            }
            i = i + 1;
        }
    }

    /// Records that the backend attached an output sink to the sound-effect
    /// instance with the given id.
    pub fn attach_sink_sfx(&mut self, id: u64)
        ensures
            final(self).sfx@.len() == old(self).sfx@.len(),
            forall|j: int|
                0 <= j < old(self).sfx@.len() ==> final(self).sfx@[j] == sfx_attached_one(
                    old(self).sfx@[j],
                    id,
                ),
            final(self).music@ == old(self).music@,
            final(self).next_id == old(self).next_id,
            final(self).audio_root == old(self).audio_root,
            old(self).wf() ==> final(self).wf(),
    {
        let ghost snap = self.sfx@;
        let n = self.sfx.len();
        let mut i: usize = 0;
        while i < n
            invariant
                n == snap.len(),
                i <= n,
                self.sfx@.len() == n,
                forall|j: int| 0 <= j < i ==> self.sfx@[j] == sfx_attached_one(snap[j], id),
                forall|j: int| i <= j < n ==> self.sfx@[j] == snap[j],
                self.music@ == old(self).music@,
                self.next_id == old(self).next_id,
                self.audio_root == old(self).audio_root,
            decreases n - i,
        {
            let pending = match self.sfx[i].sink {
                SinkState::Pending => true,
                SinkState::Ready { .. } => false,
            };
            if self.sfx[i].id == id && self.sfx[i].alive && pending {
                let s = &mut self.sfx[i];
                s.sink = SinkState::Ready { volume: VOLUME_SCALE, fresh: true };
            }
            i = i + 1;
        }
    }

    /// The number of music entries, dead ones included.
    pub fn music_len(&self) -> (n: usize)
        ensures
            n == self.music@.len(),
    {
        self.music.len()
    }

    /// The number of sound-effect entries, dead ones included.
    pub fn sfx_len(&self) -> (n: usize)
        ensures
            n == self.sfx@.len(),
    {
        self.sfx.len()
    }

    /// The music entry at the given position.
    pub fn music_at(&self, i: usize) -> (m: &MusicInstance)
        requires
            i < self.music@.len(),
        ensures
            *m == self.music@[i as int],
    {
        &self.music[i]
    }

    /// The sound-effect entry at the given position.
    pub fn sfx_at(&self, i: usize) -> (s: &SfxInstance)
        requires
            i < self.sfx@.len(),
        ensures
            *s == self.sfx@[i as int],
    {
        &self.sfx[i]
    }

    /// Counts the music instances that are still alive.
    pub fn alive_music_count(&self) -> (n: usize)
        ensures
            n == count_alive_music(self.music@, self.music@.len() as int),
    {
        let len = self.music.len();
        let mut n: usize = 0;
        let mut i: usize = 0;
        while i < len
            invariant
                i <= len == self.music@.len(),
                n == count_alive_music(self.music@, i as int),
                n <= i,
            decreases len - i,
        {
            if self.music[i].alive {
                n = n + 1;
            }
            i = i + 1;
        }
        n
    }

    /// Counts the sound-effect instances that are still alive.
    pub fn alive_sfx_count(&self) -> (n: usize)
        ensures
            n == count_alive_sfx(self.sfx@, self.sfx@.len() as int),
    {
        let len = self.sfx.len();
        let mut n: usize = 0;
        let mut i: usize = 0;
        while i < len
            invariant
                i <= len == self.sfx@.len(),
                n == count_alive_sfx(self.sfx@, i as int),
                n <= i,
            decreases len - i,
        {
            if self.sfx[i].alive {
                n = n + 1;
            }
            i = i + 1;
        }
        n
    }

    /// Counts the alive sound-effect instances that share the given source
    /// identity.
    pub fn alive_sfx_count_of_source(&self, source: u64) -> (n: usize)
        ensures
            n == count_alive_sfx_of_source(self.sfx@, self.sfx@.len() as int, source),
    {
        let len = self.sfx.len();
        let mut n: usize = 0;
        let mut i: usize = 0;
        while i < len
            invariant
                i <= len == self.sfx@.len(),
                n == count_alive_sfx_of_source(self.sfx@, i as int, source),
                n <= i,
            decreases len - i,
        {
            if self.sfx[i].alive && self.sfx[i].source == source {
                n = n + 1;
            }
            i = i + 1;
        }
        n
    }

    /// Removes every dead entry, keeping the alive ones in order. Runs at the
    /// end of a tick.
    pub fn sweep(&mut self)
        ensures
            final(self).music@ == live_music(old(self).music@),
            final(self).sfx@ == live_sfx(old(self).sfx@),
            final(self).next_id == old(self).next_id,
            final(self).audio_root == old(self).audio_root,
            old(self).wf() ==> final(self).wf(),
    {
        let ghost msnap = self.music@;
        let mut kept_music: Vec<MusicInstance> = Vec::new();
        let mut i: usize = 0;
        let ghost mlen = msnap.len();
        proof {
            assert(mlen == self.music.len());
        }
        while self.music.len() > 0
            invariant
                mlen == msnap.len(),
                mlen <= usize::MAX,
                i <= mlen,
                self.music@ =~= msnap.skip(i as int),
                kept_music@ == live_music(msnap.take(i as int)),
                self.sfx@ == old(self).sfx@,
                self.next_id == old(self).next_id,
                self.audio_root == old(self).audio_root,
            decreases self.music@.len(),
        {
            proof {
                assert(msnap.skip(i as int).len() == mlen - i);
                assert(i < mlen);
                assert(self.music@[0] == msnap.skip(i as int)[0]);
                assert(msnap.skip(i as int)[0] == msnap[i as int]);
            }
            let m = self.music.remove(0);
            proof {
                assert(m == msnap[i as int]);
                assert(msnap.take(i as int + 1).drop_last() =~= msnap.take(i as int));
                assert(msnap.take(i as int + 1).last() == msnap[i as int]);
                assert(self.music@ =~= msnap.skip(i as int + 1));
            }
            if m.alive {
                kept_music.push(m);
                proof {
                    assert(kept_music@ =~= live_music(msnap.take(i as int + 1)));
                }
            } else {
                proof {
                    assert(kept_music@ =~= live_music(msnap.take(i as int + 1)));
                }
            }
            i = i + 1;
        }
        proof {
            assert(msnap.take(i as int) =~= msnap);
        }
        core::mem::swap(&mut self.music, &mut kept_music);

        let ghost ssnap = self.sfx@;
        let mut kept_sfx: Vec<SfxInstance> = Vec::new();
        let mut k: usize = 0;
        let ghost slen = ssnap.len();
        proof {
            assert(slen == self.sfx.len());
        }
        while self.sfx.len() > 0
            invariant
                slen == ssnap.len(),
                slen <= usize::MAX,
                k <= slen,
                self.sfx@ =~= ssnap.skip(k as int),
                kept_sfx@ == live_sfx(ssnap.take(k as int)),
                self.music@ == live_music(old(self).music@),
                self.next_id == old(self).next_id,
                self.audio_root == old(self).audio_root,
            decreases self.sfx@.len(),
        {
            proof {
                assert(ssnap.skip(k as int).len() == slen - k);
                assert(k < slen);
                assert(self.sfx@[0] == ssnap.skip(k as int)[0]);
                assert(ssnap.skip(k as int)[0] == ssnap[k as int]);
            }
            let s = self.sfx.remove(0);
            proof {
                assert(s == ssnap[k as int]);
                assert(ssnap.take(k as int + 1).drop_last() =~= ssnap.take(k as int));
                assert(ssnap.take(k as int + 1).last() == ssnap[k as int]);
                assert(self.sfx@ =~= ssnap.skip(k as int + 1));
            }
            if s.alive {
                kept_sfx.push(s);
                proof {
                    assert(kept_sfx@ =~= live_sfx(ssnap.take(k as int + 1)));
                }
            } else {
                proof {
                    assert(kept_sfx@ =~= live_sfx(ssnap.take(k as int + 1)));
                }
            }
            k = k + 1;
        }
        proof {
            assert(ssnap.take(k as int) =~= ssnap);
        }
        core::mem::swap(&mut self.sfx, &mut kept_sfx);
        proof {
            lemma_live_music_wf(old(self).music@);
            lemma_live_sfx_wf(old(self).sfx@);
        }
    }
}

/// The alive entries of a music table, in order.
pub open spec fn live_music(s: Seq<MusicInstance>) -> Seq<MusicInstance>
    decreases s.len(),
{
    if s.len() == 0 {
        Seq::empty()
    } else if s.last().alive {
        live_music(s.drop_last()).push(s.last())
    } else {
        live_music(s.drop_last())
    }
}

/// The alive entries of a sound-effect table, in order.
pub open spec fn live_sfx(s: Seq<SfxInstance>) -> Seq<SfxInstance>
    decreases s.len(),
{
    if s.len() == 0 {
        Seq::empty()
    } else if s.last().alive {
        live_sfx(s.drop_last()).push(s.last())
    } else {
        live_sfx(s.drop_last())
    }
}

/// Every surviving music entry is one of the original entries, so sweeping
/// preserves well-formedness.
pub proof fn lemma_live_music_wf(s: Seq<MusicInstance>)
    ensures
        forall|i: int|
            0 <= i < live_music(s).len() ==> exists|j: int|
                0 <= j < s.len() && #[trigger] live_music(s)[i] == s[j],
    decreases s.len(),
{
    if s.len() > 0 {
        lemma_live_music_wf(s.drop_last());
        assert forall|i: int| 0 <= i < live_music(s).len() implies exists|j: int|
            0 <= j < s.len() && #[trigger] live_music(s)[i] == s[j] by {
            if i < live_music(s.drop_last()).len() {
                let j = choose|j: int|
                    0 <= j < s.drop_last().len() && live_music(s.drop_last())[i] == s.drop_last()[j];
                assert(s.drop_last()[j] == s[j]);
            } else {
                assert(live_music(s)[i] == s.last());
                assert(s.last() == s[s.len() - 1]);
            }
        }
    }
}

/// Every surviving sound-effect entry is one of the original entries.
pub proof fn lemma_live_sfx_wf(s: Seq<SfxInstance>)
    ensures
        forall|i: int|
            0 <= i < live_sfx(s).len() ==> exists|j: int|
                0 <= j < s.len() && #[trigger] live_sfx(s)[i] == s[j],
    decreases s.len(),
{
    if s.len() > 0 {
        lemma_live_sfx_wf(s.drop_last());
        assert forall|i: int| 0 <= i < live_sfx(s).len() implies exists|j: int|
            0 <= j < s.len() && #[trigger] live_sfx(s)[i] == s[j] by {
            if i < live_sfx(s.drop_last()).len() {
                let j = choose|j: int|
                    0 <= j < s.drop_last().len() && live_sfx(s.drop_last())[i] == s.drop_last()[j];
                assert(s.drop_last()[j] == s[j]);
            } else {
                assert(live_sfx(s)[i] == s.last());
                assert(s.last() == s[s.len() - 1]);
            }
        }
    }
}

} // verus!
