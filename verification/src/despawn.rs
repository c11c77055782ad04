//! The despawner: removes notes that crossed the bottom boundary without
//! being judged and records each as a miss.
//!
//! The boundary test is strict: a note exactly on the despawn line is still
//! alive; one unit further down it is removed. This is the only producer of
//! the Miss tier.

use vstd::prelude::*;

use crate::note::MusicBlock;
use crate::note::NoteStore;
use crate::note::MUSIC_BLOCK_DESPAWN_POINT;
use crate::score::Scoreboard;

verus! {

/// A slot whose note has fallen strictly below the despawn boundary.
pub open spec fn slot_expired(slot: Option<MusicBlock>) -> bool {
    slot is Some && (slot->Some_0.y as int) < MUSIC_BLOCK_DESPAWN_POINT
}

/// The store after a despawn pass: expired slots cleared, all others
/// untouched.
pub open spec fn spec_despawn_all(s: Seq<Option<MusicBlock>>) -> Seq<Option<MusicBlock>> {
    Seq::new(s.len(), |i: int| if slot_expired(s[i]) { Option::None } else { s[i] })
}

/// How many slots hold an expired note.
pub open spec fn expired_count(s: Seq<Option<MusicBlock>>) -> nat
    decreases s.len()
{
    if s.len() == 0 {
        0
    } else {
        expired_count(s.drop_last()) + (if slot_expired(s.last()) { 1nat } else { 0nat })
    }
}

/// The ledger after a despawn pass: one miss per expired note, the combo
/// reset when there was any, every other counter untouched.
pub open spec fn spec_despawn_scoreboard(sb: Scoreboard, s: Seq<Option<MusicBlock>>) -> Scoreboard {
    Scoreboard {
        miss: (sb.miss + expired_count(s)) as usize,
        combo: if expired_count(s) > 0 {
            0
        } else {
            sb.combo
        },
        ..sb
    }
}

/// A note exactly on the despawn boundary is not expired; only a note
/// strictly below it is.
pub proof fn lemma_despawn_boundary(b: MusicBlock)
    ensures
        b.y >= MUSIC_BLOCK_DESPAWN_POINT ==> !slot_expired(Option::Some(b)),
        b.y < MUSIC_BLOCK_DESPAWN_POINT ==> slot_expired(Option::Some(b)),
{
}

/// A store with an expired slot has a positive expired count (so a despawn
/// pass over it records at least one miss and resets the combo).
pub proof fn lemma_expired_count_positive(s: Seq<Option<MusicBlock>>, i: int)
    requires
        0 <= i < s.len(),
        slot_expired(s[i]),
    ensures
        expired_count(s) > 0,
    decreases s.len(),
{
    if i == s.len() - 1 {
        assert(slot_expired(s.last()));
    } else {
        assert(s.drop_last()[i] == s[i]);
        lemma_expired_count_positive(s.drop_last(), i);
    }
}

/// One despawn pass: every note strictly below the despawn boundary is
/// removed and counted as a miss (resetting the combo); every other slot,
/// and every other counter, is untouched.
pub fn despawn_music_block(store: &mut NoteStore, score_board: &mut Scoreboard)
    requires
        old(score_board).miss + old(store)@.len() <= usize::MAX,
    ensures
        final(store)@ == spec_despawn_all(old(store)@),
        *final(score_board) == spec_despawn_scoreboard(*old(score_board), old(store)@),
        final(score_board).miss == old(score_board).miss + expired_count(old(store)@),
        final(score_board).combo == if expired_count(old(store)@) > 0 {
            0int
        } else {
            old(score_board).combo as int
        },
        final(score_board).wonderful == old(score_board).wonderful,
        final(score_board).perfect == old(score_board).perfect,
        final(score_board).good == old(score_board).good,
        final(score_board).bad == old(score_board).bad,
{
    let ghost s0 = store@;
    let ghost sb0 = *score_board;
    let n = store.len();
    let mut i: usize = 0;
    while i < n
        invariant
            s0 == old(store)@,
            sb0 == *old(score_board),
            n == s0.len(),
            store@.len() == s0.len(),
            0 <= i <= n,
            sb0.miss + n <= usize::MAX,
            forall|j: int| 0 <= j < i ==> store@[j] == (if slot_expired(s0[j]) {
                Option::None::<MusicBlock>
            } else {
                s0[j]
            }),
            forall|j: int| i <= j < n ==> store@[j] == s0[j],
            expired_count(s0.take(i as int)) <= i,
            score_board.miss == sb0.miss + expired_count(s0.take(i as int)),
            score_board.combo == if expired_count(s0.take(i as int)) > 0 {
                0int
            } else {
                sb0.combo as int
            },
            score_board.wonderful == sb0.wonderful,
            score_board.perfect == sb0.perfect,
            score_board.good == sb0.good,
            score_board.bad == sb0.bad,
        decreases n - i,
    {
        proof {
            assert(s0.take(i as int + 1).drop_last() =~= s0.take(i as int));
            assert(s0.take(i as int + 1).last() == s0[i as int]);
        }
        let slot = store.read(i);
        match slot {
            Option::Some(b) => {
                if b.y < MUSIC_BLOCK_DESPAWN_POINT {
                    store.remove(i);
                    score_board.miss();
                }
            },
            Option::None => {},
        }
        i += 1;
    }
    proof {
        assert(s0.take(n as int) =~= s0);
        assert(store@ =~= spec_despawn_all(s0));
    }
}

} // verus!
