//! The spawner: on a randomized tick, one new note appears in a uniformly
//! random lane at the spawn line.
//!
//! The tick interval is re-randomized after every tick, between 0.3 and 2.0
//! seconds, so the cadence is never metronomic. Time is measured in whole
//! milliseconds.

use vstd::prelude::*;

use rand::Rng;

use crate::lane::BlockLocation;
use crate::note::spec_spawn;
use crate::note::spec_spawn_index;
use crate::note::MusicBlock;
use crate::note::MusicBlockKind;
use crate::note::NoteStore;

verus! {

/// Tick interval the timer starts with, in milliseconds.
pub const SPAWN_TICK_INITIAL_MS: u64 = 500;

/// Shortest and longest randomized tick interval, in milliseconds.
pub const SPAWN_TICK_MIN_MS: u64 = 300;
pub const SPAWN_TICK_MAX_MS: u64 = 2000;

/// Relies on rand::thread_rng and rand::Rng::gen_range: for a nonempty
/// inclusive range, the sampled value lies within the range (gen_range
/// panics only on an empty range).
#[verifier::external_body]
fn rand_in_range(lo: u64, hi: u64) -> (r: u64)
    requires
        lo <= hi,
    ensures
        lo <= r <= hi,
{
    rand::thread_rng().gen_range(lo..=hi)
}

/// The lane a spawn index in 0..4 selects.
pub open spec fn spec_lane_of_index(i: int) -> BlockLocation {
    if i == 0 {
        BlockLocation::A
    } else if i == 1 {
        BlockLocation::B
    } else if i == 2 {
        BlockLocation::C
    } else {
        BlockLocation::D
    }
}

/// Map a spawn index to its lane. Indices outside 0..4 select no lane.
pub fn lane_of_index(i: u64) -> (lane: BlockLocation)
    requires
        i < 4,
    ensures
        lane == spec_lane_of_index(i as int),
{
    if i == 0 {
        BlockLocation::A
    } else if i == 1 {
        BlockLocation::B
    } else if i == 2 {
        BlockLocation::C
    } else {
        BlockLocation::D
    }
}

/// A fresh note in a uniformly random lane, at the spawn line, of the
/// normal kind, falling at the fixed velocity.
pub fn rand_block() -> (b: MusicBlock)
    ensures
        b == MusicBlock::spec_new(b.location, MusicBlockKind::Normal),
        b.wf(),
{
    let i = rand_in_range(0, 3);
    let location = lane_of_index(i);
    MusicBlock::new(location, MusicBlockKind::Normal)
}

/// One spawner tick: put a fresh note in a random lane into the store's
/// first free slot. Returns the new note's handle; every other slot is
/// untouched.
pub fn create_music_block(store: &mut NoteStore) -> (h: usize)
    ensures
        exists|loc: BlockLocation| final(store)@ == spec_spawn(
            old(store)@,
            MusicBlock::spec_new(loc, MusicBlockKind::Normal),
        ),
        h as int == spec_spawn_index(old(store)@),
        h < final(store)@.len(),
        final(store)@[h as int] is Some,
        final(store)@[h as int]->Some_0 == MusicBlock::spec_new(
            final(store)@[h as int]->Some_0.location,
            MusicBlockKind::Normal,
        ),
        final(store)@.len() <= old(store)@.len() + 1,
        forall|j: int| 0 <= j < old(store)@.len() && j != h ==> final(store)@[j] == old(store)@[j],
{
    let b = rand_block();
    let h = store.spawn(b);
    proof {
        assert(store@ == spec_spawn(
            old(store)@,
            MusicBlock::spec_new(b.location, MusicBlockKind::Normal),
        ));
    }
    h
}

/// The countdown to the next spawner tick.
#[derive(Clone, Copy, PartialEq, Eq, Structural, Debug)]
pub struct SpawnTimer {
    pub remaining_ms: u64,
}

impl SpawnTimer {
    /// A timer at the initial interval.
    pub fn new() -> (t: SpawnTimer)
        ensures
            t.remaining_ms == SPAWN_TICK_INITIAL_MS,
    {
        SpawnTimer { remaining_ms: SPAWN_TICK_INITIAL_MS }
    }

    /// Re-randomize the interval to the next tick.
    pub fn fixed_time_change(&mut self)
        ensures
            SPAWN_TICK_MIN_MS <= final(self).remaining_ms <= SPAWN_TICK_MAX_MS,
    {
        self.remaining_ms = rand_in_range(SPAWN_TICK_MIN_MS, SPAWN_TICK_MAX_MS);
    }

    /// Advance the timer by one frame's elapsed time. The timer fires when
    /// the elapsed time reaches what remained; it then re-randomizes the
    /// interval to the next tick.
    pub fn tick(&mut self, elapsed_ms: u64) -> (fired: bool)
        ensures
            fired == (elapsed_ms >= old(self).remaining_ms),
            !fired ==> final(self).remaining_ms == old(self).remaining_ms - elapsed_ms,
            fired ==> SPAWN_TICK_MIN_MS <= final(self).remaining_ms <= SPAWN_TICK_MAX_MS,
    {
        if elapsed_ms >= self.remaining_ms {
            self.fixed_time_change();
            true
        } else {
            self.remaining_ms = self.remaining_ms - elapsed_ms;
            false
        }
    }
}

} // verus!
