//! Falling notes and the store of live notes.
//!
//! The store is an arena of slots addressed by index: a spawned note takes
//! the first free slot (or a fresh one at the end), and judging or
//! despawning a note clears its slot without moving any other note, so
//! handles stay stable and iteration order is the slot order.

use vstd::prelude::*;

use crate::lane::BlockLocation;
use crate::lane::MUSIC_BLOCK_START;

verus! {

/// Y position below which an unjudged note is removed and counted as a miss
/// (strictly below: a note exactly on the boundary is still alive).
pub const MUSIC_BLOCK_DESPAWN_POINT: i32 = -400;

/// Change of a note's Y position per simulation step (downward).
pub const MUSIC_BLOCK_VELOCITY: i32 = -5;

/// The kind of a falling note. Only one kind exists today; the enum leaves
/// room for kinds with a different visual scale.
#[derive(Clone, Copy, PartialEq, Eq, Structural, Debug)]
pub enum MusicBlockKind {
    Normal,
}

impl MusicBlockKind {
    /// Visual scale (width, height) of a note of this kind, in screen units.
    pub fn scale(&self) -> (s: (i32, i32))
        ensures
            s == (crate::lane::BLOCK_SIZE_X, crate::lane::BLOCK_SIZE_Y),
    {
        match self {
            MusicBlockKind::Normal => (crate::lane::BLOCK_SIZE_X, crate::lane::BLOCK_SIZE_Y),
        }
    }
}

/// One live falling note: its lane, its current Y position, its per-step
/// velocity, and its kind. The X position is the lane's and never changes.
#[derive(Clone, Copy, PartialEq, Eq, Structural, Debug)]
pub struct MusicBlock {
    pub location: BlockLocation,
    pub y: i32,
    pub velocity: i32,
    pub kind: MusicBlockKind,
}

impl MusicBlock {
    /// A note moves downward: its velocity is strictly negative.
    pub open spec fn wf(self) -> bool {
        self.velocity < 0
    }

    /// The note a spawn in `location` produces: at the spawn line, falling
    /// at the fixed velocity.
    pub open spec fn spec_new(location: BlockLocation, kind: MusicBlockKind) -> MusicBlock {
        MusicBlock { location, y: MUSIC_BLOCK_START, velocity: MUSIC_BLOCK_VELOCITY, kind }
    }

    /// A fresh note in the given lane, at the spawn line.
    pub fn new(location: BlockLocation, kind: MusicBlockKind) -> (b: MusicBlock)
        ensures
            b == MusicBlock::spec_new(location, kind),
            b.wf(),
    {
        MusicBlock { location, y: MUSIC_BLOCK_START, velocity: MUSIC_BLOCK_VELOCITY, kind }
    }

    /// The note one simulation step later.
    pub open spec fn spec_step(self) -> MusicBlock {
        MusicBlock { y: (self.y + self.velocity) as i32, ..self }
    }
}

/// First free slot at or after `k`, if any.
pub open spec fn first_free_from(s: Seq<Option<MusicBlock>>, k: int) -> Option<int>
    decreases s.len() - k when 0 <= k
{
    if k >= s.len() {
        Option::None
    } else if s[k] is None {
        Option::Some(k)
    } else {
        first_free_from(s, k + 1)
    }
}

/// The store after spawning `b`: the note fills the first free slot, or a
/// fresh slot at the end when none is free.
pub open spec fn spec_spawn(s: Seq<Option<MusicBlock>>, b: MusicBlock) -> Seq<Option<MusicBlock>> {
    match first_free_from(s, 0) {
        Option::Some(i) => s.update(i, Option::Some(b)),
        Option::None => s.push(Option::Some(b)),
    }
}

/// The slot a spawn into `s` fills.
pub open spec fn spec_spawn_index(s: Seq<Option<MusicBlock>>) -> int {
    match first_free_from(s, 0) {
        Option::Some(i) => i,
        Option::None => s.len() as int,
    }
}

/// How many slots hold a live note.
pub open spec fn live_count(s: Seq<Option<MusicBlock>>) -> nat
    decreases s.len()
{
    if s.len() == 0 {
        0
    } else {
        live_count(s.drop_last()) + (if s.last() is Some { 1nat } else { 0nat })
    }
}

/// When every slot below `k` is occupied, the search for a free slot may
/// start at `k` instead of 0.
pub proof fn lemma_first_free_skip(s: Seq<Option<MusicBlock>>, k: int)
    requires
        0 <= k <= s.len(),
        forall|j: int| 0 <= j < k ==> s[j] is Some,
    ensures
        first_free_from(s, 0) == first_free_from(s, k),
    decreases k,
{
    if k > 0 {
        lemma_first_free_skip(s, k - 1);
        assert(s[k - 1] is Some);
    }
}

/// The set of live notes, an arena of index-addressed slots.
pub struct NoteStore {
    slots: Vec<Option<MusicBlock>>,
}

impl View for NoteStore {
    type V = Seq<Option<MusicBlock>>;

    closed spec fn view(&self) -> Seq<Option<MusicBlock>> {
        self.slots@
    }
}

impl NoteStore {
    /// An empty store.
    pub fn new() -> (s: NoteStore)
        ensures
            s@ =~= Seq::<Option<MusicBlock>>::empty(),
    {
        NoteStore { slots: Vec::new() }
    }

    /// Number of slots (free and occupied).
    pub fn len(&self) -> (n: usize)
        ensures
            n == self@.len(),
    {
        self.slots.len()
    }

    /// The slot at index `i`.
    pub fn read(&self, i: usize) -> (slot: Option<MusicBlock>)
        requires
            i < self@.len(),
        ensures
            slot == self@[i as int],
    {
        self.slots[i]
    }

    /// Put a new note into the first free slot, or into a fresh slot at the
    /// end; other slots are untouched. Returns the note's handle.
    pub fn spawn(&mut self, b: MusicBlock) -> (h: usize)
        ensures
            final(self)@ == spec_spawn(old(self)@, b),
            h as int == spec_spawn_index(old(self)@),
            h < final(self)@.len(),
            final(self)@[h as int] == Option::Some(b),
            final(self)@.len() == if spec_spawn_index(old(self)@) < old(self)@.len() {
                old(self)@.len() as int
            } else {
                old(self)@.len() + 1int
            },
            forall|j: int| 0 <= j < old(self)@.len() && j != h ==> final(self)@[j] == old(self)@[j],
    {
        let ghost s0 = self.slots@;
        let n = self.slots.len();
        let mut i: usize = 0;
        while i < n
            invariant
                n == s0.len(),
                s0 == old(self)@,
                self.slots@ == s0,
                0 <= i <= n,
                forall|j: int| 0 <= j < i ==> s0[j] is Some,
            decreases n - i,
        {
            if self.slots[i].is_none() {
                proof {
                    lemma_first_free_skip(s0, i as int);
                    assert(first_free_from(s0, 0) == Option::Some(i as int));
                }
                self.slots[i] = Option::Some(b);
                return i;
            }
            i += 1;
        }
        proof {
            lemma_first_free_skip(s0, n as int);
            assert(first_free_from(s0, n as int) is None);
        }
        self.slots.push(Option::Some(b));
        n
    }

    /// Clear the slot at `h`; every other slot is untouched.
    pub fn remove(&mut self, h: usize)
        requires
            h < old(self)@.len(),
        ensures
            final(self)@ == old(self)@.update(h as int, Option::None::<MusicBlock>),
    {
        self.slots[h] = Option::None;
    }

    /// Number of live notes in the store.
    pub fn live_notes(&self) -> (n: usize)
        ensures
            n == live_count(self@),
    {
        let mut i: usize = 0;
        let mut n: usize = 0;
        while i < self.slots.len()
            invariant
                0 <= i <= self.slots@.len(),
                n == live_count(self.slots@.take(i as int)),
                n <= i,
            decreases self.slots@.len() - i,
        {
            proof {
                assert(self.slots@.take(i as int + 1).drop_last() =~= self.slots@.take(i as int));
                assert(self.slots@.take(i as int + 1).last() == self.slots@[i as int]);
            }
            if self.slots[i].is_some() {
                n += 1;
            }
            i += 1;
        }
        proof {
            assert(self.slots@.take(self.slots@.len() as int) =~= self.slots@);
        }
        n
    }
}

/// One simulation step of a single slot: a live note falls by its velocity,
/// a free slot stays free.
pub open spec fn spec_step_slot(slot: Option<MusicBlock>) -> Option<MusicBlock> {
    match slot {
        Option::Some(b) => Option::Some(b.spec_step()),
        Option::None => Option::None,
    }
}

/// The whole store one simulation step later.
pub open spec fn spec_step_all(s: Seq<Option<MusicBlock>>) -> Seq<Option<MusicBlock>> {
    Seq::new(s.len(), |i: int| spec_step_slot(s[i]))
}

/// Advance every live note by its velocity. This is the only place a note's
/// Y position changes; each live note's Y strictly decreases (its velocity
/// is negative), by the same fixed amount every step, until the note is
/// destroyed.
pub fn music_block_move(store: &mut NoteStore)
    requires
        forall|i: int| 0 <= i < old(store)@.len() && old(store)@[i] is Some ==> {
            &&& old(store)@[i]->Some_0.wf()
            &&& i32::MIN <= old(store)@[i]->Some_0.y + old(store)@[i]->Some_0.velocity
        },
    ensures
        final(store)@ == spec_step_all(old(store)@),
        final(store)@.len() == old(store)@.len(),
        forall|i: int| 0 <= i < old(store)@.len() && old(store)@[i] is Some ==> {
            &&& final(store)@[i] is Some
            &&& final(store)@[i]->Some_0.y
                == old(store)@[i]->Some_0.y + old(store)@[i]->Some_0.velocity
            &&& final(store)@[i]->Some_0.velocity == old(store)@[i]->Some_0.velocity
            &&& final(store)@[i]->Some_0.y < old(store)@[i]->Some_0.y
        },
{
    let ghost s0 = store@;
    let n = store.slots.len();
    let mut i: usize = 0;
    while i < n
        invariant
            n == s0.len(),
            store.slots@.len() == s0.len(),
            0 <= i <= n,
            forall|j: int| 0 <= j < i ==> store.slots@[j] == spec_step_slot(s0[j]),
            forall|j: int| i <= j < n ==> store.slots@[j] == s0[j],
            forall|j: int| 0 <= j < s0.len() && s0[j] is Some ==> {
                &&& s0[j]->Some_0.wf()
                &&& i32::MIN <= s0[j]->Some_0.y + s0[j]->Some_0.velocity
            },
        decreases n - i,
    {
        let slot = store.slots[i];
        match slot {
            Option::Some(b) => {
                let moved = MusicBlock { y: b.y + b.velocity, ..b };
                store.slots[i] = Option::Some(moved);
            },
            Option::None => {},
        }
        i += 1;
    }
    proof {
        assert(store@ =~= spec_step_all(s0));
    }
}

} // verus!
