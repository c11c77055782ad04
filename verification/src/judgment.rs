//! The judgment tiers and the classifier that maps a note's distance from
//! the target line to a tier.
//!
//! The windows are nested intervals around the target line, tested from the
//! tightest outward, so the strictest satisfied tier always wins. `Miss` is
//! never produced here: it belongs to the despawn path alone. `NoTier` means
//! the note is too far from the line to judge; the note stays alive and the
//! press is spent without effect.

use vstd::prelude::*;

use crate::lane::TIMING_BLOCK_POSITION_Y;

verus! {

/// How far below (first constant) and above (second constant) the target
/// line each window reaches.
pub const JUDGMENT_PERFECT_BELOW: i32 = 20;
pub const JUDGMENT_PERFECT_ABOVE: i32 = 10;
pub const JUDGMENT_GOOD_BELOW: i32 = 70;
pub const JUDGMENT_GOOD_ABOVE: i32 = 40;
pub const JUDGMENT_BAD_BELOW: i32 = 110;
pub const JUDGMENT_BAD_ABOVE: i32 = 60;

/// Quality of a judged press, ordered from best to worst. `Miss` is an
/// unjudged expiry, produced only by the despawner; `NoTier` is not a tier
/// at all: the note was too far from the line, and nothing happened.
#[derive(Clone, Copy, PartialEq, Eq, Structural, Debug)]
pub enum JudgmentLevel {
    Wonderful,
    Perfect,
    Good,
    Bad,
    Miss,
    NoTier,
}

/// A Y position inside the Perfect window.
pub open spec fn in_perfect_window(y: int) -> bool {
    TIMING_BLOCK_POSITION_Y - JUDGMENT_PERFECT_BELOW <= y
        <= TIMING_BLOCK_POSITION_Y + JUDGMENT_PERFECT_ABOVE
}

/// A Y position inside the Good window.
pub open spec fn in_good_window(y: int) -> bool {
    TIMING_BLOCK_POSITION_Y - JUDGMENT_GOOD_BELOW <= y
        <= TIMING_BLOCK_POSITION_Y + JUDGMENT_GOOD_ABOVE
}

/// A Y position inside the Bad window.
pub open spec fn in_bad_window(y: int) -> bool {
    TIMING_BLOCK_POSITION_Y - JUDGMENT_BAD_BELOW <= y
        <= TIMING_BLOCK_POSITION_Y + JUDGMENT_BAD_ABOVE
}

/// The tier a note at Y position `y` earns when its lane's key is pressed:
/// the strictest window containing `y`, or `NoTier` when even the Bad
/// window does not contain it.
pub open spec fn spec_check(y: int) -> JudgmentLevel {
    if y == TIMING_BLOCK_POSITION_Y {
        JudgmentLevel::Wonderful
    } else if in_perfect_window(y) {
        JudgmentLevel::Perfect
    } else if in_good_window(y) {
        JudgmentLevel::Good
    } else if in_bad_window(y) {
        JudgmentLevel::Bad
    } else {
        JudgmentLevel::NoTier
    }
}

impl JudgmentLevel {
    /// Classify a note's Y position into a judgment tier.
    pub fn check(block_position: i32) -> (level: JudgmentLevel)
        ensures
            level == spec_check(block_position as int),
    {
        let y = block_position;
        if y == TIMING_BLOCK_POSITION_Y {
            JudgmentLevel::Wonderful
        } else if TIMING_BLOCK_POSITION_Y - JUDGMENT_PERFECT_BELOW <= y
            && y <= TIMING_BLOCK_POSITION_Y + JUDGMENT_PERFECT_ABOVE {
            JudgmentLevel::Perfect
        } else if TIMING_BLOCK_POSITION_Y - JUDGMENT_GOOD_BELOW <= y
            && y <= TIMING_BLOCK_POSITION_Y + JUDGMENT_GOOD_ABOVE {
            JudgmentLevel::Good
        } else if TIMING_BLOCK_POSITION_Y - JUDGMENT_BAD_BELOW <= y
            && y <= TIMING_BLOCK_POSITION_Y + JUDGMENT_BAD_ABOVE {
            JudgmentLevel::Bad
        } else {
            JudgmentLevel::NoTier
        }
    }
}

/// The judgment windows are nested — a position satisfying Perfect also
/// satisfies Good and Bad, and the exact target line satisfies Perfect —
/// and classification returns the strictest satisfied tier.
pub proof fn lemma_windows_nested(y: int)
    ensures
        y == TIMING_BLOCK_POSITION_Y ==> in_perfect_window(y),
        in_perfect_window(y) ==> in_good_window(y),
        in_good_window(y) ==> in_bad_window(y),
        spec_check(y) is Wonderful <==> y == TIMING_BLOCK_POSITION_Y,
        spec_check(y) is Perfect <==> (in_perfect_window(y) && y != TIMING_BLOCK_POSITION_Y),
        spec_check(y) is Good <==> (in_good_window(y) && !in_perfect_window(y)),
        spec_check(y) is Bad <==> (in_bad_window(y) && !in_good_window(y)),
        spec_check(y) is NoTier <==> !in_bad_window(y),
        !(spec_check(y) is Miss),
{
}

} // verus!
