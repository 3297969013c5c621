//! Configuration and category interfaces.
//!
//! Hosts group their sounds by category tags; the configuration maps each tag
//! to a volume multiplier and carries the master volume and the mute flag.
//! Music and sound-effect categories are disjoint type spaces: an instance
//! belongs to one of the two, never both.

use vstd::prelude::*;
use crate::volume::{effective_spec, VOLUME_SCALE};

verus! {

/// Interface of an audio configuration: master volume and mute flag.
///
/// The engine only reads the configuration; its writer lives outside.
pub trait AudioConfigTrait {
    /// The master volume, as a linear fixed-point value.
    spec fn master_spec(&self) -> u64;

    /// Whether audio is globally muted.
    spec fn muted_spec(&self) -> bool;

    /// Returns the raw master volume level, independent of the mute flag.
    fn master_volume(&self) -> (r: u64)
        ensures
            r == self.master_spec(),
    ;

    /// Returns whether audio is globally muted.
    fn is_muted(&self) -> (r: bool)
        ensures
            r == self.muted_spec(),
    ;

    /// Returns the effective master volume: zero when muted, else the master volume.
    fn effective_volume(&self) -> (r: u64)
        ensures
            r as int == effective_spec(self.master_spec(), self.muted_spec()),
    ;
}

/// The process-wide audio configuration: master volume, mute flag, one volume
/// multiplier per music and per sound-effect category tag, and a generation
/// counter that its writer bumps on every change.
pub struct AudioConfig {
    /// Master volume, linear fixed point.
    pub master: u64,
    /// Global mute flag.
    pub muted: bool,
    /// Volume multiplier per music category tag; a tag beyond the table is
    /// treated as full volume.
    pub music_levels: Vec<u64>,
    /// Volume multiplier per sound-effect category tag.
    pub sfx_levels: Vec<u64>,
    /// Bumped by the configuration's writer whenever any field changes; the
    /// engine compares it each tick to react to changes.
    pub generation: u64,
}

impl AudioConfig {
    /// A configuration with the given master volume and mute flag, no
    /// category tables, and generation zero.
    pub fn new(master: u64, muted: bool) -> (r: AudioConfig)
        ensures
            r.master == master,
            r.muted == muted,
            r.music_levels@ =~= Seq::<u64>::empty(),
            r.sfx_levels@ =~= Seq::<u64>::empty(),
            r.generation == 0,
    {
        AudioConfig {
            master,
            muted,
            music_levels: Vec::new(),
            sfx_levels: Vec::new(),
            generation: 0,
        }
    }
}

impl AudioConfigTrait for AudioConfig {
    open spec fn master_spec(&self) -> u64 {
        self.master
    }

    open spec fn muted_spec(&self) -> bool {
        self.muted
    }

    fn master_volume(&self) -> u64 {
        self.master
    }

    fn is_muted(&self) -> bool {
        self.muted
    }

    fn effective_volume(&self) -> u64 {
        if self.muted {
            0
        } else {
            self.master
        }
    }
}

/// The multiplier that a level table assigns to a tag: the table entry where
/// one exists, full volume where the tag lies beyond the table.
pub open spec fn level_spec(levels: Seq<u64>, tag: u32) -> u64 {
    if (tag as int) < levels.len() {
        levels[tag as int]
    } else {
        VOLUME_SCALE
    }
}

/// Interface of an audio category: a copyable tag with a volume multiplier
/// looked up in the configuration.
pub trait AudioCategory {
    /// The category's volume multiplier under the given configuration.
    spec fn multiplier_spec(&self, config: &AudioConfig) -> u64;

    /// Returns the volume multiplier for this category from the configuration.
    fn volume_multiplier(&self, config: &AudioConfig) -> (r: u64)
        ensures
            r == self.multiplier_spec(config),
    ;
}

/// A music category tag. Identity is value equality of the tag.
#[derive(Clone, Copy, PartialEq, Eq, Structural, Debug)]
pub struct MusicCategory {
    pub tag: u32,
}

impl AudioCategory for MusicCategory {
    open spec fn multiplier_spec(&self, config: &AudioConfig) -> u64 {
        level_spec(config.music_levels@, self.tag)
    }

    fn volume_multiplier(&self, config: &AudioConfig) -> u64 {
        if (self.tag as usize) < config.music_levels.len() {
            config.music_levels[self.tag as usize]
        } else {
            VOLUME_SCALE
        }
    }
}

/// A sound-effect category tag. Identity is value equality of the tag.
#[derive(Clone, Copy, PartialEq, Eq, Structural, Debug)]
pub struct SfxCategory {
    pub tag: u32,
}

impl AudioCategory for SfxCategory {
    open spec fn multiplier_spec(&self, config: &AudioConfig) -> u64 {
        level_spec(config.sfx_levels@, self.tag)
    }

    fn volume_multiplier(&self, config: &AudioConfig) -> u64 {
        if (self.tag as usize) < config.sfx_levels.len() {
            config.sfx_levels[self.tag as usize]
        } else {
            VOLUME_SCALE
        }
    }
}

} // verus!
