//! The judge: consumes the lane-press events of a frame and resolves each
//! against the live notes.
//!
//! For each event the judge scans the lane's notes in slot order and takes
//! the first note whose position falls inside a judgable window; that note
//! is scored and destroyed, and the pass advances to the next event — a
//! second qualifying note in the same lane stays alive. A press with no
//! qualifying note is a whiff: it is consumed without any effect.

use vstd::prelude::*;

use crate::judgment::spec_check;
use crate::judgment::JudgmentLevel;
use crate::lane::BlockLocation;
use crate::note::MusicBlock;
use crate::note::NoteStore;
use crate::score::apply_level;
use crate::score::Scoreboard;

verus! {

/// A slot the judge may resolve for `lane`: it holds a live note of that
/// lane whose position earns some tier.
pub open spec fn slot_judgable(slot: Option<MusicBlock>, lane: BlockLocation) -> bool {
    match slot {
        Option::Some(b) => b.location == lane && !(spec_check(b.y as int) is NoTier),
        Option::None => false,
    }
}

/// First judgable slot for `lane` at or after `k`, if any.
pub open spec fn first_judgable_from(
    s: Seq<Option<MusicBlock>>,
    lane: BlockLocation,
    k: int,
) -> Option<int>
    decreases s.len() - k when 0 <= k
{
    if k >= s.len() {
        Option::None
    } else if slot_judgable(s[k], lane) {
        Option::Some(k)
    } else {
        first_judgable_from(s, lane, k + 1)
    }
}

/// Store and ledger after one lane-press event: the first judgable note of
/// the lane is scored by its tier and removed; with no such note, nothing
/// changes.
pub open spec fn judge_event_spec(
    s: Seq<Option<MusicBlock>>,
    sb: Scoreboard,
    lane: BlockLocation,
) -> (Seq<Option<MusicBlock>>, Scoreboard) {
    match first_judgable_from(s, lane, 0) {
        Option::Some(i) => (
            s.update(i, Option::None),
            apply_level(sb, spec_check(s[i]->Some_0.y as int)),
        ),
        Option::None => (s, sb),
    }
}

/// Store and ledger after a whole judge pass, event by event in order.
pub open spec fn judge_events_spec(
    s: Seq<Option<MusicBlock>>,
    sb: Scoreboard,
    events: Seq<BlockLocation>,
) -> (Seq<Option<MusicBlock>>, Scoreboard)
    decreases events.len()
{
    if events.len() == 0 {
        (s, sb)
    } else {
        let next = judge_event_spec(s, sb, events[0]);
        judge_events_spec(next.0, next.1, events.skip(1))
    }
}

/// When no slot below `k` is judgable for `lane`, the search may start at
/// `k` instead of 0.
pub proof fn lemma_first_judgable_skip(s: Seq<Option<MusicBlock>>, lane: BlockLocation, k: int)
    requires
        0 <= k <= s.len(),
        forall|j: int| 0 <= j < k ==> !slot_judgable(s[j], lane),
    ensures
        first_judgable_from(s, lane, 0) == first_judgable_from(s, lane, k),
    decreases k,
{
    if k > 0 {
        lemma_first_judgable_skip(s, lane, k - 1);
        assert(!slot_judgable(s[k - 1], lane));
    }
}

/// A found index is in range and points at a judgable slot.
pub proof fn lemma_first_judgable_found(s: Seq<Option<MusicBlock>>, lane: BlockLocation, k: int)
    requires
        0 <= k,
    ensures
        first_judgable_from(s, lane, k) matches Option::Some(i) ==> k <= i < s.len()
            && slot_judgable(s[i], lane),
    decreases s.len() - k,
{
    if k < s.len() && !slot_judgable(s[k], lane) {
        lemma_first_judgable_found(s, lane, k + 1);
    }
}

/// A lane with no live notes has no judgable slot.
proof fn lemma_no_judgable_from(s: Seq<Option<MusicBlock>>, lane: BlockLocation, k: int)
    requires
        0 <= k <= s.len(),
        forall|i: int| 0 <= i < s.len() && s[i] is Some ==> s[i]->Some_0.location != lane,
    ensures
        first_judgable_from(s, lane, k) is None,
    decreases s.len() - k,
{
    if k < s.len() {
        lemma_no_judgable_from(s, lane, k + 1);
    }
}

/// Judging a lane with no live notes leaves the store and the ledger
/// unchanged.
pub proof fn lemma_judge_lane_without_notes(
    s: Seq<Option<MusicBlock>>,
    sb: Scoreboard,
    lane: BlockLocation,
)
    requires
        forall|i: int| 0 <= i < s.len() && s[i] is Some ==> s[i]->Some_0.location != lane,
    ensures
        judge_event_spec(s, sb, lane) == (s, sb),
{
    lemma_no_judgable_from(s, lane, 0);
}

/// A judge pass with no press events leaves the store and the ledger
/// unchanged.
pub proof fn lemma_judge_no_events(s: Seq<Option<MusicBlock>>, sb: Scoreboard)
    ensures
        judge_events_spec(s, sb, Seq::<BlockLocation>::empty()) == (s, sb),
{
}

/// A judge pass never changes the number of slots and never records a miss:
/// the judged note's slot is cleared in place, and `Miss` belongs to the
/// despawn path alone.
pub proof fn lemma_judge_events_len_miss(
    s: Seq<Option<MusicBlock>>,
    sb: Scoreboard,
    events: Seq<BlockLocation>,
)
    ensures
        judge_events_spec(s, sb, events).0.len() == s.len(),
        judge_events_spec(s, sb, events).1.miss == sb.miss,
    decreases events.len(),
{
    if events.len() > 0 {
        let next = judge_event_spec(s, sb, events[0]);
        assert(next.0.len() == s.len() && next.1.miss == sb.miss) by {
            lemma_first_judgable_found(s, events[0], 0);
            match first_judgable_from(s, events[0], 0) {
                Option::Some(i) => {
                    assert(slot_judgable(s[i], events[0]));
                    assert(!(spec_check(s[i]->Some_0.y as int) is Miss));
                },
                Option::None => {},
            }
        }
        lemma_judge_events_len_miss(next.0, next.1, events.skip(1));
    }
}

/// One event grows each tier counter by at most one, never shrinks one,
/// never touches the miss counter, and grows the combo by at most one.
pub proof fn lemma_judge_event_counter_growth(
    s: Seq<Option<MusicBlock>>,
    sb: Scoreboard,
    lane: BlockLocation,
)
    requires
        sb.wonderful < usize::MAX,
        sb.perfect < usize::MAX,
        sb.good < usize::MAX,
        sb.bad < usize::MAX,
        sb.combo < usize::MAX,
    ensures
        ({
            let sb2 = judge_event_spec(s, sb, lane).1;
            &&& sb.wonderful <= sb2.wonderful <= sb.wonderful + 1
            &&& sb.perfect <= sb2.perfect <= sb.perfect + 1
            &&& sb.good <= sb2.good <= sb.good + 1
            &&& sb.bad <= sb2.bad <= sb.bad + 1
            &&& sb2.combo <= sb.combo + 1
            &&& sb2.miss == sb.miss
        }),
{
}

/// Resolve one lane-press event, as `judge_event_spec` says: scan the
/// lane's notes in slot order, score and remove the first judgable one.
/// Returns whether a note was resolved.
pub fn judge_event(store: &mut NoteStore, score_board: &mut Scoreboard, lane: BlockLocation) -> (judged:
    bool)
    requires
        old(score_board).wonderful < usize::MAX,
        old(score_board).perfect < usize::MAX,
        old(score_board).good < usize::MAX,
        old(score_board).bad < usize::MAX,
        old(score_board).combo < usize::MAX,
    ensures
        (final(store)@, *final(score_board)) == judge_event_spec(
            old(store)@,
            *old(score_board),
            lane,
        ),
        judged == (first_judgable_from(old(store)@, lane, 0) is Some),
{
    let ghost s0 = store@;
    let n = store.len();
    let mut i: usize = 0;
    while i < n
        invariant
            s0 == old(store)@,
            store@ == s0,
            *score_board == *old(score_board),
            old(score_board).wonderful < usize::MAX,
            old(score_board).perfect < usize::MAX,
            old(score_board).good < usize::MAX,
            old(score_board).bad < usize::MAX,
            old(score_board).combo < usize::MAX,
            n == s0.len(),
            0 <= i <= n,
            forall|j: int| 0 <= j < i ==> !slot_judgable(s0[j], lane),
        decreases n - i,
    {
        let slot = store.read(i);
        match slot {
            Option::Some(b) => {
                if b.location == lane {
                    let level = JudgmentLevel::check(b.y);
                    match level {
                        JudgmentLevel::NoTier => {},
                        _ => {
                            proof {
                                lemma_first_judgable_skip(s0, lane, i as int);
                                assert(slot_judgable(s0[i as int], lane));
                                assert(first_judgable_from(s0, lane, 0) == Option::Some(i as int));
                            }
                            match level {
                                JudgmentLevel::Wonderful => score_board.wonderful(),
                                JudgmentLevel::Perfect => score_board.perfect(),
                                JudgmentLevel::Good => score_board.good(),
                                JudgmentLevel::Bad => score_board.bad(),
                                _ => {},
                            }
                            store.remove(i);
                            return true;
                        },
                    }
                }
            },
            Option::None => {},
        }
        i += 1;
    }
    proof {
        lemma_first_judgable_skip(s0, lane, n as int);
    }
    false
}

/// One judge pass: resolve the frame's press events in order, as
/// `judge_events_spec` says. With no events, nothing changes.
pub fn block_judgement(
    store: &mut NoteStore,
    score_board: &mut Scoreboard,
    key_press_events: &Vec<BlockLocation>,
)
    requires
        old(score_board).wonderful + key_press_events@.len() <= usize::MAX,
        old(score_board).perfect + key_press_events@.len() <= usize::MAX,
        old(score_board).good + key_press_events@.len() <= usize::MAX,
        old(score_board).bad + key_press_events@.len() <= usize::MAX,
        old(score_board).combo + key_press_events@.len() <= usize::MAX,
    ensures
        (final(store)@, *final(score_board)) == judge_events_spec(
            old(store)@,
            *old(score_board),
            key_press_events@,
        ),
        key_press_events@.len() == 0 ==> final(store)@ == old(store)@ && *final(score_board)
            == *old(score_board),
{
    let ghost s0 = store@;
    let ghost sb0 = *score_board;
    let ghost events = key_press_events@;
    let m = key_press_events.len();
    proof {
        assert(events.skip(0) =~= events);
    }
    let mut k: usize = 0;
    while k < m
        invariant
            s0 == old(store)@,
            sb0 == *old(score_board),
            events == key_press_events@,
            m == events.len(),
            0 <= k <= m,
            sb0.wonderful + m <= usize::MAX,
            sb0.perfect + m <= usize::MAX,
            sb0.good + m <= usize::MAX,
            sb0.bad + m <= usize::MAX,
            sb0.combo + m <= usize::MAX,
            score_board.wonderful <= sb0.wonderful + k,
            score_board.perfect <= sb0.perfect + k,
            score_board.good <= sb0.good + k,
            score_board.bad <= sb0.bad + k,
            score_board.combo <= sb0.combo + k,
            score_board.miss == sb0.miss,
            judge_events_spec(s0, sb0, events) == judge_events_spec(
                store@,
                *score_board,
                events.skip(k as int),
            ),
        decreases m - k,
    {
        let ghost s_pre = store@;
        let ghost sb_pre = *score_board;
        let lane = key_press_events[k];
        proof {
            lemma_judge_event_counter_growth(s_pre, sb_pre, lane);
            assert(events.skip(k as int)[0] == events[k as int]);
        }
        judge_event(store, score_board, lane);
        proof {
            assert(events.skip(k as int).skip(1) =~= events.skip(k as int + 1));
            assert(judge_events_spec(s_pre, sb_pre, events.skip(k as int)) == judge_events_spec(
                store@,
                *score_board,
                events.skip(k as int + 1),
            ));
        }
        k += 1;
    }
    proof {
        assert(events.skip(m as int) =~= Seq::<BlockLocation>::empty());
    }
}

} // verus!
