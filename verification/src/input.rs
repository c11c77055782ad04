//! The input matcher: turns raw per-frame key state into lane-press events.
//!
//! Detection is edge-triggered: a lane fires only on the frame its bound key
//! goes from up to down, so a held key never re-triggers. The caller hands
//! in the key codes that are down this frame; the matcher remembers, per
//! lane, whether its bound key was down last frame.

use vstd::prelude::*;

use crate::lane::BlockLocation;
use crate::lane::KeyBindings;

verus! {

/// Whether `key` is among the key codes down this frame.
pub open spec fn key_down(keys: Seq<u32>, key: u32) -> bool {
    exists|i: int| 0 <= i < keys.len() && keys[i] == key
}

/// Whether `keys` (the codes down this frame) contains `key`.
pub fn contains_key(keys: &Vec<u32>, key: u32) -> (r: bool)
    ensures
        r == key_down(keys@, key),
{
    let mut i: usize = 0;
    while i < keys.len()
        invariant
            0 <= i <= keys@.len(),
            forall|j: int| 0 <= j < i ==> keys@[j] != key,
        decreases keys@.len() - i,
    {
        if keys[i] == key {
            return true;
        }
        i += 1;
    }
    false
}

/// Per-lane memory of whether the lane's bound key was down last frame.
#[derive(Clone, Copy, PartialEq, Eq, Structural, Debug)]
pub struct InputMatcher {
    pub prev_a: bool,
    pub prev_b: bool,
    pub prev_c: bool,
    pub prev_d: bool,
}

impl InputMatcher {
    /// Whether the lane's bound key was down last frame.
    pub open spec fn spec_prev(self, lane: BlockLocation) -> bool {
        match lane {
            BlockLocation::A => self.prev_a,
            BlockLocation::B => self.prev_b,
            BlockLocation::C => self.prev_c,
            BlockLocation::D => self.prev_d,
        }
    }

    /// A matcher that saw no key down yet.
    pub fn new() -> (m: InputMatcher)
        ensures
            m == (InputMatcher { prev_a: false, prev_b: false, prev_c: false, prev_d: false }),
    {
        InputMatcher { prev_a: false, prev_b: false, prev_c: false, prev_d: false }
    }
}

/// A lane fires this frame: its bound key is down now and was not down last
/// frame.
pub open spec fn lane_edge(
    m: InputMatcher,
    bindings: KeyBindings,
    keys: Seq<u32>,
    lane: BlockLocation,
) -> bool {
    key_down(keys, bindings.spec_key(lane)) && !m.spec_prev(lane)
}

/// The press events one sampling pass emits, in lane order A, B, C, D.
pub open spec fn press_events(
    m: InputMatcher,
    bindings: KeyBindings,
    keys: Seq<u32>,
) -> Seq<BlockLocation> {
    (if lane_edge(m, bindings, keys, BlockLocation::A) {
        seq![BlockLocation::A]
    } else {
        Seq::empty()
    }) + (if lane_edge(m, bindings, keys, BlockLocation::B) {
        seq![BlockLocation::B]
    } else {
        Seq::empty()
    }) + (if lane_edge(m, bindings, keys, BlockLocation::C) {
        seq![BlockLocation::C]
    } else {
        Seq::empty()
    }) + (if lane_edge(m, bindings, keys, BlockLocation::D) {
        seq![BlockLocation::D]
    } else {
        Seq::empty()
    })
}

impl InputMatcher {
    /// One sampling pass: emit a press event for every lane whose bound key
    /// went down since last frame, and remember this frame's key state.
    pub fn keyboard_input(
        &mut self,
        bindings: &KeyBindings,
        keys_down: &Vec<u32>,
    ) -> (events: Vec<BlockLocation>)
        ensures
            events@ == press_events(*old(self), *bindings, keys_down@),
            forall|lane: BlockLocation| #[trigger] final(self).spec_prev(lane) == key_down(
                keys_down@,
                bindings.spec_key(lane),
            ),
    {
        let ghost m0 = *self;
        let down_a = contains_key(keys_down, bindings.get_key(BlockLocation::A));
        let down_b = contains_key(keys_down, bindings.get_key(BlockLocation::B));
        let down_c = contains_key(keys_down, bindings.get_key(BlockLocation::C));
        let down_d = contains_key(keys_down, bindings.get_key(BlockLocation::D));
        let ghost ea: Seq<BlockLocation> = if lane_edge(m0, *bindings, keys_down@, BlockLocation::A) {
            seq![BlockLocation::A]
        } else {
            Seq::empty()
        };
        let ghost eb: Seq<BlockLocation> = if lane_edge(m0, *bindings, keys_down@, BlockLocation::B) {
            seq![BlockLocation::B]
        } else {
            Seq::empty()
        };
        let ghost ec: Seq<BlockLocation> = if lane_edge(m0, *bindings, keys_down@, BlockLocation::C) {
            seq![BlockLocation::C]
        } else {
            Seq::empty()
        };
        let ghost ed: Seq<BlockLocation> = if lane_edge(m0, *bindings, keys_down@, BlockLocation::D) {
            seq![BlockLocation::D]
        } else {
            Seq::empty()
        };
        let mut events: Vec<BlockLocation> = Vec::new();
        if down_a && !self.prev_a {
            events.push(BlockLocation::A);
        }
        proof {
            assert(events@ =~= ea);
        }
        if down_b && !self.prev_b {
            events.push(BlockLocation::B);
        }
        proof {
            assert(events@ =~= ea + eb);
        }
        if down_c && !self.prev_c {
            events.push(BlockLocation::C);
        }
        proof {
            assert(events@ =~= ea + eb + ec);
        }
        if down_d && !self.prev_d {
            events.push(BlockLocation::D);
        }
        proof {
            assert(events@ =~= ea + eb + ec + ed);
        }
        self.prev_a = down_a;
        self.prev_b = down_b;
        self.prev_c = down_c;
        self.prev_d = down_d;
        proof {
            assert(self.spec_prev(BlockLocation::A) == down_a);
            assert(self.spec_prev(BlockLocation::B) == down_b);
            assert(self.spec_prev(BlockLocation::C) == down_c);
            assert(self.spec_prev(BlockLocation::D) == down_d);
        }
        events
    }
}

} // verus!
