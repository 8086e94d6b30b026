//! Score bookkeeping: the worth attached to a unit, the per-tick scoring
//! events and the process-wide accumulator.

use vstd::prelude::*;
use crate::sim::Simulation;
use crate::GameState;

verus! {

/// Positive score value attached to a unit; constant for its lifetime and
/// consumed exactly once, when the unit is destroyed by a hit.
#[derive(Clone, Copy, PartialEq, Eq, Structural, Debug)]
pub struct Worth(pub usize);

/// Process-wide score accumulator: starts at zero for a session and never
/// decreases.
#[derive(Clone, Copy, PartialEq, Eq, Structural, Debug)]
pub struct Score(pub usize);

impl Default for Score {
    fn default() -> (s: Score)
        ensures
            s == (Score(0)),
    {
        Score(0)
    }
}

/// A scoring event: one confirmed kill, carrying the destroyed unit's worth.
/// Emitted at most once per unit across the unit's whole lifetime.
#[derive(Clone, Copy, PartialEq, Eq, Structural, Debug)]
pub struct ScoreIncreased(pub usize);

/// Total worth carried by a queue of scoring events.
pub open spec fn sum_events(s: Seq<ScoreIncreased>) -> int
    decreases s.len(),
{
    if s.len() == 0 {
        0
    } else {
        sum_events(s.drop_last()) + s.last().0
    }
}

pub proof fn lemma_sum_events_nonneg(s: Seq<ScoreIncreased>)
    ensures
        sum_events(s) >= 0,
    decreases s.len(),
{
    if s.len() > 0 {
        lemma_sum_events_nonneg(s.drop_last());
    }
}

/// Addition capped at the accumulator's machine limit.
pub open spec fn saturated_add(a: int, b: int) -> int {
    if a + b <= usize::MAX {
        a + b
    } else {
        usize::MAX as int
    }
}

impl Simulation {
    /// The scoring pass: accumulate every scoring event of the tick into
    /// the session score, unconditionally. The score only ever grows; at
    /// the machine limit of the accumulator it saturates.
    pub fn increase_score(&mut self, events: &Vec<ScoreIncreased>)
        requires
            old(self).wf(),
        ensures
            final(self).wf(),
            final(self).score.0 == saturated_add(old(self).score.0 as int, sum_events(events@)),
            final(self).score.0 >= old(self).score.0,
            *final(self) == (Simulation { score: final(self).score, ..*old(self) }),
    {
        let n = events.len();
        assert(events@.subrange(0, 0) =~= Seq::<ScoreIncreased>::empty());
        let mut i: usize = 0;
        while i < n
            invariant
                0 <= i <= n,
                n == events@.len(),
                old(self).wf(),
                self.score.0 == saturated_add(
                    old(self).score.0 as int,
                    sum_events(events@.subrange(0, i as int)),
                ),
                self.score.0 >= old(self).score.0,
                *self == (Simulation { score: self.score, ..*old(self) }),
            decreases n - i,
        {
            let w = events[i].0;
            proof {
                lemma_sum_events_nonneg(events@.subrange(0, i as int));
                let longer = events@.subrange(0, i + 1);
                assert(longer.drop_last() =~= events@.subrange(0, i as int));
                assert(longer.last() == events@[i as int]);
            }
            self.score = Score(self.score.0.saturating_add(w));
            i = i + 1;
        }
        assert(events@.subrange(0, n as int) =~= events@);
    }

    /// The win check: with the active wave's live-unit count at zero the
    /// player has won and the game phase moves to its terminal branch. Only
    /// the live-unit count drives this transition; the score is never read
    /// for it.
    pub fn player_win(&mut self)
        requires
            old(self).wf(),
        ensures
            final(self).wf(),
            final(self).state == if old(self).state is Active && old(self).invader_count.0 == 0 {
                GameState::PlayerWon
            } else {
                old(self).state
            },
            *final(self) == (Simulation { state: final(self).state, ..*old(self) }),
    {
        if matches!(self.state, GameState::Active) && self.invader_count.0 == 0 {
            self.state = GameState::PlayerWon;
        }
    }
}

} // verus!
