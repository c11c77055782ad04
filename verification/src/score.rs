//! The score/combo ledger: one counter per tier plus the current combo.
//!
//! Counters only grow; the combo grows by one on Wonderful or Perfect and
//! resets to zero on Good, Bad, or Miss — and on nothing else.

use vstd::prelude::*;

use crate::judgment::JudgmentLevel;

verus! {

/// Counters of judged presses per tier, plus the current streak of
/// consecutive Wonderful-or-Perfect judgments.
#[derive(Clone, Copy, PartialEq, Eq, Structural, Debug)]
pub struct Scoreboard {
    pub combo: usize,
    pub wonderful: usize,
    pub perfect: usize,
    pub good: usize,
    pub bad: usize,
    pub miss: usize,
}

/// The ledger after one judged event. Wonderful and Perfect raise their
/// counter and the combo; Good, Bad and Miss raise their counter and reset
/// the combo; `NoTier` is no event and changes nothing.
pub open spec fn apply_level(sb: Scoreboard, level: JudgmentLevel) -> Scoreboard {
    match level {
        JudgmentLevel::Wonderful => Scoreboard {
            wonderful: (sb.wonderful + 1) as usize,
            combo: (sb.combo + 1) as usize,
            ..sb
        },
        JudgmentLevel::Perfect => Scoreboard {
            perfect: (sb.perfect + 1) as usize,
            combo: (sb.combo + 1) as usize,
            ..sb
        },
        JudgmentLevel::Good => Scoreboard { good: (sb.good + 1) as usize, combo: 0, ..sb },
        JudgmentLevel::Bad => Scoreboard { bad: (sb.bad + 1) as usize, combo: 0, ..sb },
        JudgmentLevel::Miss => Scoreboard { miss: (sb.miss + 1) as usize, combo: 0, ..sb },
        JudgmentLevel::NoTier => sb,
    }
}

impl Scoreboard {
    /// The all-zero ledger.
    pub open spec fn spec_zero() -> Scoreboard {
        Scoreboard { combo: 0, wonderful: 0, perfect: 0, good: 0, bad: 0, miss: 0 }
    }

    /// The all-zero ledger the game starts with.
    pub fn new() -> (sb: Scoreboard)
        ensures
            sb == Scoreboard::spec_zero(),
    {
        Scoreboard { combo: 0, wonderful: 0, perfect: 0, good: 0, bad: 0, miss: 0 }
    }

    /// Lengthen the current streak by one.
    pub fn combo(&mut self)
        requires
            old(self).combo < usize::MAX,
        ensures
            *final(self) == (Scoreboard { combo: (old(self).combo + 1) as usize, ..*old(self) }),
    {
        self.combo += 1;
    }

    /// End the current streak.
    pub fn combo_reset(&mut self)
        ensures
            *final(self) == (Scoreboard { combo: 0, ..*old(self) }),
    {
        self.combo = 0;
    }

    /// Record a Wonderful judgment.
    pub fn wonderful(&mut self)
        requires
            old(self).wonderful < usize::MAX,
            old(self).combo < usize::MAX,
        ensures
            *final(self) == apply_level(*old(self), JudgmentLevel::Wonderful),
    {
        self.wonderful += 1;
        self.combo();
    }

    /// Record a Perfect judgment.
    pub fn perfect(&mut self)
        requires
            old(self).perfect < usize::MAX,
            old(self).combo < usize::MAX,
        ensures
            *final(self) == apply_level(*old(self), JudgmentLevel::Perfect),
    {
        self.perfect += 1;
        self.combo();
    }

    /// Record a Good judgment.
    pub fn good(&mut self)
        requires
            old(self).good < usize::MAX,
        ensures
            *final(self) == apply_level(*old(self), JudgmentLevel::Good),
    {
        self.good += 1;
        self.combo_reset();
    }

    /// Record a Bad judgment.
    pub fn bad(&mut self)
        requires
            old(self).bad < usize::MAX,
        ensures
            *final(self) == apply_level(*old(self), JudgmentLevel::Bad),
    {
        self.bad += 1;
        self.combo_reset();
    }

    /// Record a missed note (an unjudged expiry).
    pub fn miss(&mut self)
        requires
            old(self).miss < usize::MAX,
        ensures
            *final(self) == apply_level(*old(self), JudgmentLevel::Miss),
    {
        self.miss += 1;
        self.combo_reset();
    }

    /// The counter a tier is tallied in, for display; `NoTier` has none.
    pub fn counter(&self, level: JudgmentLevel) -> (n: Option<usize>)
        ensures
            n == match level {
                JudgmentLevel::Wonderful => Option::Some(self.wonderful),
                JudgmentLevel::Perfect => Option::Some(self.perfect),
                JudgmentLevel::Good => Option::Some(self.good),
                JudgmentLevel::Bad => Option::Some(self.bad),
                JudgmentLevel::Miss => Option::Some(self.miss),
                JudgmentLevel::NoTier => Option::None,
            },
    {
        match level {
            JudgmentLevel::Wonderful => Option::Some(self.wonderful),
            JudgmentLevel::Perfect => Option::Some(self.perfect),
            JudgmentLevel::Good => Option::Some(self.good),
            JudgmentLevel::Bad => Option::Some(self.bad),
            JudgmentLevel::Miss => Option::Some(self.miss),
            JudgmentLevel::NoTier => Option::None,
        }
    }
}

/// The combo is zero right after an event exactly when the event was Good,
/// Bad or Miss; after Wonderful or Perfect it has grown by one; and no
/// counter ever shrinks.
pub proof fn lemma_combo_reset_iff(sb: Scoreboard, level: JudgmentLevel)
    requires
        sb.combo < usize::MAX,
        !(level is NoTier),
    ensures
        apply_level(sb, level).combo == 0 <==> (level is Good || level is Bad || level is Miss),
        (level is Wonderful || level is Perfect) ==> apply_level(sb, level).combo == sb.combo + 1,
{
}

/// Counters never decrease under an event, and each grows by at most one;
/// the combo never changes except through an event.
pub proof fn lemma_counters_monotonic(sb: Scoreboard, level: JudgmentLevel)
    requires
        sb.wonderful < usize::MAX,
        sb.perfect < usize::MAX,
        sb.good < usize::MAX,
        sb.bad < usize::MAX,
        sb.miss < usize::MAX,
    ensures
        sb.wonderful <= apply_level(sb, level).wonderful <= sb.wonderful + 1,
        sb.perfect <= apply_level(sb, level).perfect <= sb.perfect + 1,
        sb.good <= apply_level(sb, level).good <= sb.good + 1,
        sb.bad <= apply_level(sb, level).bad <= sb.bad + 1,
        sb.miss <= apply_level(sb, level).miss <= sb.miss + 1,
{
}

} // verus!
