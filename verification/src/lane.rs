//! The four fixed lanes: each has a screen position for its timing block,
//! a spawn position for its falling notes, and a rebindable input key.

use vstd::prelude::*;

verus! {

/// Width and height of every block, in screen units.
pub const BLOCK_SIZE_X: i32 = 70;
pub const BLOCK_SIZE_Y: i32 = 20;

/// Y position of the target line all four timing blocks sit on.
pub const TIMING_BLOCK_POSITION_Y: i32 = -220;

/// Y position at which new notes appear.
pub const MUSIC_BLOCK_START: i32 = 300;

/// Lane X positions, measured in thirds of a screen unit so that all four
/// lanes sit at exact integer offsets (the outer lanes at two block widths
/// from the center, the inner lanes at two thirds of a block width).
pub const TIMING_BLOCK_A_X_THIRDS: i32 = -420;
pub const TIMING_BLOCK_B_X_THIRDS: i32 = -140;
pub const TIMING_BLOCK_C_X_THIRDS: i32 = 140;
pub const TIMING_BLOCK_D_X_THIRDS: i32 = 420;

/// Default key codes bound to the four lanes (the letters D, F, J, K).
pub const DEFAULT_KEY_A: u32 = 100;
pub const DEFAULT_KEY_B: u32 = 102;
pub const DEFAULT_KEY_C: u32 = 106;
pub const DEFAULT_KEY_D: u32 = 107;

/// Identity of a lane. Exactly these four lanes exist.
#[derive(Clone, Copy, PartialEq, Eq, Structural, Debug)]
pub enum BlockLocation {
    A,
    B,
    C,
    D,
}

impl BlockLocation {
    /// X position of this lane, in thirds of a screen unit.
    pub open spec fn spec_x_thirds(self) -> i32 {
        match self {
            BlockLocation::A => TIMING_BLOCK_A_X_THIRDS,
            BlockLocation::B => TIMING_BLOCK_B_X_THIRDS,
            BlockLocation::C => TIMING_BLOCK_C_X_THIRDS,
            BlockLocation::D => TIMING_BLOCK_D_X_THIRDS,
        }
    }

    /// Position of this lane's timing block: (X in thirds of a unit, Y).
    pub fn timing_position(&self) -> (p: (i32, i32))
        ensures
            p.0 == self.spec_x_thirds(),
            p.1 == TIMING_BLOCK_POSITION_Y,
    {
        match self {
            BlockLocation::A => (TIMING_BLOCK_A_X_THIRDS, TIMING_BLOCK_POSITION_Y),
            BlockLocation::B => (TIMING_BLOCK_B_X_THIRDS, TIMING_BLOCK_POSITION_Y),
            BlockLocation::C => (TIMING_BLOCK_C_X_THIRDS, TIMING_BLOCK_POSITION_Y),
            BlockLocation::D => (TIMING_BLOCK_D_X_THIRDS, TIMING_BLOCK_POSITION_Y),
        }
    }

    /// Position where a note spawns in this lane: the lane's X, the spawn Y.
    pub fn music_position(&self) -> (p: (i32, i32))
        ensures
            p.0 == self.spec_x_thirds(),
            p.1 == MUSIC_BLOCK_START,
    {
        match self {
            BlockLocation::A => (TIMING_BLOCK_A_X_THIRDS, MUSIC_BLOCK_START),
            BlockLocation::B => (TIMING_BLOCK_B_X_THIRDS, MUSIC_BLOCK_START),
            BlockLocation::C => (TIMING_BLOCK_C_X_THIRDS, MUSIC_BLOCK_START),
            BlockLocation::D => (TIMING_BLOCK_D_X_THIRDS, MUSIC_BLOCK_START),
        }
    }
}

/// The input keys bound to the four lanes. Owned by the simulation root and
/// passed by reference to the input matcher; rebinding is an explicit call
/// meant to happen between frames.
#[derive(Clone, Copy, PartialEq, Eq, Structural, Debug)]
pub struct KeyBindings {
    pub key_a: u32,
    pub key_b: u32,
    pub key_c: u32,
    pub key_d: u32,
}

impl KeyBindings {
    /// The key bound to a lane.
    pub open spec fn spec_key(self, lane: BlockLocation) -> u32 {
        match lane {
            BlockLocation::A => self.key_a,
            BlockLocation::B => self.key_b,
            BlockLocation::C => self.key_c,
            BlockLocation::D => self.key_d,
        }
    }

    /// Each lane is bound to a distinct key.
    pub open spec fn wf(self) -> bool {
        &&& self.key_a != self.key_b
        &&& self.key_a != self.key_c
        &&& self.key_a != self.key_d
        &&& self.key_b != self.key_c
        &&& self.key_b != self.key_d
        &&& self.key_c != self.key_d
    }

    /// The default bindings: four distinct letter keys.
    pub fn new() -> (b: KeyBindings)
        ensures
            b.key_a == DEFAULT_KEY_A,
            b.key_b == DEFAULT_KEY_B,
            b.key_c == DEFAULT_KEY_C,
            b.key_d == DEFAULT_KEY_D,
            b.wf(),
    {
        KeyBindings {
            key_a: DEFAULT_KEY_A,
            key_b: DEFAULT_KEY_B,
            key_c: DEFAULT_KEY_C,
            key_d: DEFAULT_KEY_D,
        }
    }

    /// The key currently bound to a lane.
    pub fn get_key(&self, lane: BlockLocation) -> (k: u32)
        ensures
            k == self.spec_key(lane),
    {
        match lane {
            BlockLocation::A => self.key_a,
            BlockLocation::B => self.key_b,
            BlockLocation::C => self.key_c,
            BlockLocation::D => self.key_d,
        }
    }

    /// Rebind a lane to a new key. The new key must differ from the keys of
    /// the other lanes, so that bindings stay distinct.
    pub fn set_key(&mut self, lane: BlockLocation, key: u32)
        requires
            forall|l: BlockLocation| l != lane ==> old(self).spec_key(l) != key,
        ensures
            final(self).spec_key(lane) == key,
            forall|l: BlockLocation| l != lane ==> final(self).spec_key(l) == old(self).spec_key(l),
            old(self).wf() ==> final(self).wf(),
    {
        proof {
            assert(old(self).spec_key(BlockLocation::A) == old(self).key_a);
            assert(old(self).spec_key(BlockLocation::B) == old(self).key_b);
            assert(old(self).spec_key(BlockLocation::C) == old(self).key_c);
            assert(old(self).spec_key(BlockLocation::D) == old(self).key_d);
        }
        match lane {
            BlockLocation::A => self.key_a = key,
            BlockLocation::B => self.key_b = key,
            BlockLocation::C => self.key_c = key,
            BlockLocation::D => self.key_d = key,
        }
    }
}

} // verus!
