//! The simulation root: owns the live-note store, the ledger, the key
//! bindings, the input matcher and the spawn timer, and steps them once per
//! frame in a fixed order.
//!
//! The order matters: the spawner and the mover run before the judge and
//! the despawner, so both see this frame's positions, and the input matcher
//! runs before the judge, so a press emitted this frame is judged against
//! this frame's positions. Rebinding a key is a separate call, made between
//! frames.

use vstd::prelude::*;

use crate::despawn::despawn_music_block;
use crate::despawn::spec_despawn_all;
use crate::despawn::spec_despawn_scoreboard;
use crate::input::key_down;
use crate::input::press_events;
use crate::input::InputMatcher;
use crate::judge::block_judgement;
use crate::judge::judge_events_spec;
use crate::judge::lemma_judge_events_len_miss;
use crate::lane::BlockLocation;
use crate::lane::KeyBindings;
use crate::note::music_block_move;
use crate::note::spec_spawn;
use crate::note::spec_step_all;
use crate::note::MusicBlock;
use crate::note::MusicBlockKind;
use crate::note::NoteStore;
use crate::score::Scoreboard;
use crate::spawn::create_music_block;
use crate::spawn::SpawnTimer;

verus! {

/// The whole game-logic state for one run.
pub struct Simulation {
    pub store: NoteStore,
    pub score_board: Scoreboard,
    pub bindings: KeyBindings,
    pub matcher: InputMatcher,
    pub timer: SpawnTimer,
}

/// Every live note falls (negative velocity) and can fall one more step
/// without leaving the machine's range.
pub open spec fn store_can_step(s: Seq<Option<MusicBlock>>) -> bool {
    forall|i: int| 0 <= i < s.len() && s[i] is Some ==> {
        &&& s[i]->Some_0.wf()
        &&& i32::MIN <= s[i]->Some_0.y + s[i]->Some_0.velocity
    }
}

/// Store and ledger after one whole frame in which the spawner, if it
/// fired, put its note into `spawn_lane`: spawn, then motion, then the
/// judge pass over this frame's press events, then the despawn pass.
pub open spec fn spec_step_frame(
    sim: Simulation,
    elapsed_ms: u64,
    keys: Seq<u32>,
    spawn_lane: BlockLocation,
) -> (Seq<Option<MusicBlock>>, Scoreboard) {
    let fired = elapsed_ms >= sim.timer.remaining_ms;
    let spawned = if fired {
        spec_spawn(sim.store@, MusicBlock::spec_new(spawn_lane, MusicBlockKind::Normal))
    } else {
        sim.store@
    };
    let moved = spec_step_all(spawned);
    let events = press_events(sim.matcher, sim.bindings, keys);
    let judged = judge_events_spec(moved, sim.score_board, events);
    (spec_despawn_all(judged.0), spec_despawn_scoreboard(judged.1, judged.0))
}

impl Simulation {
    /// A fresh run: empty store, all-zero ledger, default bindings, no key
    /// seen down, timer at the initial interval.
    pub fn new() -> (sim: Simulation)
        ensures
            sim.store@ =~= Seq::<Option<MusicBlock>>::empty(),
            sim.score_board == Scoreboard::spec_zero(),
            sim.bindings.wf(),
            sim.bindings == (KeyBindings {
                key_a: crate::lane::DEFAULT_KEY_A,
                key_b: crate::lane::DEFAULT_KEY_B,
                key_c: crate::lane::DEFAULT_KEY_C,
                key_d: crate::lane::DEFAULT_KEY_D,
            }),
            sim.matcher == (InputMatcher {
                prev_a: false,
                prev_b: false,
                prev_c: false,
                prev_d: false,
            }),
            sim.timer.remaining_ms == crate::spawn::SPAWN_TICK_INITIAL_MS,
    {
        Simulation {
            store: NoteStore::new(),
            score_board: Scoreboard::new(),
            bindings: KeyBindings::new(),
            matcher: InputMatcher::new(),
            timer: SpawnTimer::new(),
        }
    }

    /// One frame of the simulation. `elapsed_ms` is the time since the
    /// last frame; `keys_down` are the key codes down this frame. Returns
    /// this frame's press events (also usable as the per-lane visual
    /// pressed flags).
    ///
    /// The frame is `spec_step_frame` for the lane the spawner drew, with
    /// the timer advanced and the matcher remembering this frame's keys.
    pub fn step_frame(&mut self, elapsed_ms: u64, keys_down: &Vec<u32>) -> (events: Vec<
        BlockLocation,
    >)
        requires
            store_can_step(old(self).store@),
            old(self).score_board.wonderful + 4 <= usize::MAX,
            old(self).score_board.perfect + 4 <= usize::MAX,
            old(self).score_board.good + 4 <= usize::MAX,
            old(self).score_board.bad + 4 <= usize::MAX,
            old(self).score_board.combo + 4 <= usize::MAX,
            old(self).score_board.miss + old(self).store@.len() + 1 <= usize::MAX,
        ensures
            final(self).bindings == old(self).bindings,
            events@ == press_events(old(self).matcher, old(self).bindings, keys_down@),
            forall|lane: BlockLocation| #[trigger] final(self).matcher.spec_prev(lane)
                == key_down(keys_down@, old(self).bindings.spec_key(lane)),
            elapsed_ms >= old(self).timer.remaining_ms ==> crate::spawn::SPAWN_TICK_MIN_MS
                <= final(self).timer.remaining_ms <= crate::spawn::SPAWN_TICK_MAX_MS,
            elapsed_ms < old(self).timer.remaining_ms ==> final(self).timer.remaining_ms == old(
                self,
            ).timer.remaining_ms - elapsed_ms,
            exists|spawn_lane: BlockLocation| (final(self).store@, final(self).score_board)
                == spec_step_frame(*old(self), elapsed_ms, keys_down@, spawn_lane),
    {
        let ghost sim0 = *old(self);
        let ghost s0 = self.store@;

        // Spawner: its own randomized tick.
        let fired = self.timer.tick(elapsed_ms);
        let ghost mut spawn_lane = BlockLocation::A;
        if fired {
            let h = create_music_block(&mut self.store);
            proof {
                spawn_lane = choose|loc: BlockLocation| self.store@ == spec_spawn(
                    s0,
                    MusicBlock::spec_new(loc, MusicBlockKind::Normal),
                );
                assert forall|i: int| 0 <= i < self.store@.len() && self.store@[i] is Some implies {
                    &&& self.store@[i]->Some_0.wf()
                    &&& i32::MIN <= self.store@[i]->Some_0.y + self.store@[i]->Some_0.velocity
                } by {
                    if i != h {
                        assert(self.store@[i] == s0[i]);
                    }
                }
            }
        }
        let ghost spawned = self.store@;
        proof {
            assert(spawned == if elapsed_ms >= sim0.timer.remaining_ms {
                spec_spawn(s0, MusicBlock::spec_new(spawn_lane, MusicBlockKind::Normal))
            } else {
                s0
            });
        }

        // Mover: every live note falls one step.
        music_block_move(&mut self.store);
        let ghost moved = self.store@;

        // Input matcher: press edges for this frame.
        let events = self.matcher.keyboard_input(&self.bindings, keys_down);
        proof {
            assert(events@.len() <= 4);
        }

        // Judge: resolve this frame's press events.
        block_judgement(&mut self.store, &mut self.score_board, &events);
        let ghost judged_store = self.store@;
        let ghost judged_sb = self.score_board;
        proof {
            lemma_judge_events_len_miss(moved, sim0.score_board, events@);
            assert(judged_store.len() == moved.len());
            assert(judged_sb.miss == sim0.score_board.miss);
        }

        // Despawner: expired notes become misses.
        despawn_music_block(&mut self.store, &mut self.score_board);

        proof {
            assert((self.store@, self.score_board) == spec_step_frame(
                sim0,
                elapsed_ms,
                keys_down@,
                spawn_lane,
            ));
        }
        events
    }

    /// Rebind a lane's key between frames. The matcher's memory for that
    /// lane is cleared, so a press of the new key next frame fires even if
    /// the old key was down.
    pub fn rebind_key(&mut self, lane: BlockLocation, key: u32)
        requires
            forall|l: BlockLocation| l != lane ==> old(self).bindings.spec_key(l) != key,
        ensures
            final(self).bindings.spec_key(lane) == key,
            forall|l: BlockLocation| l != lane ==> final(self).bindings.spec_key(l) == old(
                self,
            ).bindings.spec_key(l),
            old(self).bindings.wf() ==> final(self).bindings.wf(),
            forall|l: BlockLocation| l != lane ==> final(self).matcher.spec_prev(l) == old(
                self,
            ).matcher.spec_prev(l),
            !final(self).matcher.spec_prev(lane),
            final(self).store == old(self).store,
            final(self).score_board == old(self).score_board,
            final(self).timer == old(self).timer,
    {
        self.bindings.set_key(lane, key);
        match lane {
            BlockLocation::A => self.matcher.prev_a = false,
            BlockLocation::B => self.matcher.prev_b = false,
            BlockLocation::C => self.matcher.prev_c = false,
            BlockLocation::D => self.matcher.prev_d = false,
        }
    }
}

} // verus!
