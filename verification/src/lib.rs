//! Verified core of a wave-based shooter: a swarm of grid-aligned units
//! advances in lockstep, reverses direction at the field edges, is shot at by
//! player projectiles, and a high-value bonus unit crosses the field on its
//! own timer. The simulation state machine, its movement, collision, scoring
//! and win logic live here; rendering, asset loading and input polling are
//! external collaborators that only exchange plain values with this crate.

use vstd::prelude::*;

pub mod grid;
pub mod invader;
pub mod player;
pub mod projectile;
pub mod score;
pub mod sim;
pub mod spaceship;

verus! {

/// Upper bound on a timer period, in time units (milliseconds).
pub const PERIOD_LIMIT: u64 = 0x1_0000_0000;

/// Upper bound on the elapsed time handed to one tick, in time units.
pub const DELTA_LIMIT: u64 = 0x100_0000;

/// A repeating countdown driven by the external frame clock. Time is counted
/// in integer milliseconds; `elapsed` accumulates and wraps by `period`, so
/// the remainder is carried and the cadence does not drift under variable
/// frame time.
#[derive(Clone, Copy, PartialEq, Eq, Structural, Debug)]
pub struct Timer {
    pub elapsed: u64,
    pub period: u64,
}

impl Timer {
    /// A timer is well formed when its period is positive and bounded and the
    /// accumulated time stays below one period.
    pub open spec fn wf(self) -> bool {
        0 < self.period <= PERIOD_LIMIT && self.elapsed < self.period
    }

    /// The timer fires during a tick of `delta` time units when the
    /// accumulated time crosses its period.
    pub open spec fn fires(self, delta: u64) -> bool {
        self.elapsed + delta >= self.period
    }

    /// The timer state after a tick of `delta` time units: the accumulated
    /// time, reduced by whole periods.
    pub open spec fn spec_after(self, delta: u64) -> Timer {
        Timer { elapsed: ((self.elapsed + delta) % (self.period as int)) as u64, period: self.period }
    }

    pub fn new(period: u64) -> (t: Timer)
        requires
            0 < period <= PERIOD_LIMIT,
        ensures
            t == (Timer { elapsed: 0, period }),
            t.wf(),
    {
        Timer { elapsed: 0, period }
    }

    /// Advance the timer by the elapsed frame time; reports whether it fired
    /// (and rearmed) during this tick.
    pub fn tick(&mut self, delta: u64) -> (fired: bool)
        requires
            old(self).wf(),
            delta <= DELTA_LIMIT,
        ensures
            fired == old(self).fires(delta),
            *final(self) == old(self).spec_after(delta),
            final(self).wf(),
    {
        let total = self.elapsed + delta;
        if total >= self.period {
            self.elapsed = total % self.period;
            true
        } else {
            proof {
                vstd::arithmetic::div_mod::lemma_small_mod(total as nat, self.period as nat);
            }
            self.elapsed = total;
            false
        }
    }
}

/// The top-level game phase: a linear flow with two terminal branches.
/// `GameOver` is an architecturally implied extension point; nothing in the
/// collision engine drives a transition into it.
#[derive(Clone, Copy, PartialEq, Eq, Structural, Debug, Hash)]
pub enum GameState {
    AssetLoading,
    Spawning,
    Active,
    PlayerWon,
    GameOver,
}

impl Default for GameState {
    fn default() -> (s: GameState)
        ensures
            s == GameState::AssetLoading,
    {
        GameState::AssetLoading
    }
}

/// The inclusive range of sprite-sheet frames an animation cycles through.
#[derive(Clone, Copy, PartialEq, Eq, Structural, Debug)]
pub struct AnimationIndices {
    pub start: usize,
    pub end: usize,
}

/// The per-unit cadence of the sprite-frame animation.
#[derive(Clone, Copy, PartialEq, Eq, Structural, Debug)]
pub struct AnimationTimer(pub Timer);

} // verus!
