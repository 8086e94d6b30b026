//! Swarm units: their per-unit data record, heading, movement state and the
//! edge signals that reverse the whole swarm.

use vstd::prelude::*;
use vstd::arithmetic::div_mod::{
    lemma_div_basics_5,
    lemma_div_pos_is_pos,
    lemma_fundamental_div_mod,
    lemma_mod_division_less_than_divisor,
};
use crate::grid::{transform_x, transform_y, GridPosition, Transform, CELL_SIZE, COORD_LIMIT};
use crate::score::Worth;
use crate::sim::{ConfigError, Simulation, VIEW_LIMIT};
use crate::{AnimationIndices, AnimationTimer, GameState, Timer, DELTA_LIMIT, PERIOD_LIMIT};

verus! {

/// Default score value of a swarm unit.
pub const INVADER_WORTH: usize = 100;

/// Highest sprite-sheet frame of the swarm unit's movement animation.
pub const ANIM_END: usize = 1;

/// Process-wide counter of live swarm units. Initialized to the number of
/// spawned units at wave start, decremented exactly once per confirmed kill;
/// reaching zero is the sole win trigger.
#[derive(Clone, Copy, PartialEq, Eq, Structural, Debug)]
pub struct InvaderCount(pub usize);

/// The heading of a swarm unit. The swarm keeps exactly one active heading
/// at a time: an edge signal flips every unit's heading atomically.
#[derive(Clone, Copy, PartialEq, Eq, Structural, Debug)]
pub enum Direction {
    Left,
    Right,
}

impl Default for Direction {
    fn default() -> (d: Direction)
        ensures
            d == Direction::Left,
    {
        Direction::Left
    }
}

/// An edge signal: some unit stands on the leftmost or rightmost playable
/// column. Consuming the signal flips the whole swarm's heading.
#[derive(Clone, Copy, PartialEq, Eq, Structural, Debug)]
pub enum EdgeReached {
    Left,
    Right,
}

/// The heading the swarm is forced to when it consumes an edge signal: away
/// from the edge that was reached.
pub open spec fn reversed(e: EdgeReached) -> Direction {
    match e {
        EdgeReached::Left => Direction::Right,
        EdgeReached::Right => Direction::Left,
    }
}

/// Movement state of a swarm unit. `Dying` stops the unit from contributing
/// to movement and collision; no exit animation exists, so a unit marked
/// `Dying` is retired from play at the same moment.
#[derive(Clone, Copy, PartialEq, Eq, Structural, Debug)]
pub enum InvaderState {
    Moving,
    Dying,
}

impl Default for InvaderState {
    fn default() -> (s: InvaderState)
        ensures
            s == InvaderState::Moving,
    {
        InvaderState::Moving
    }
}

impl InvaderState {
    /// The sprite-frame range the unit's animation cycles through. Only the
    /// `Moving` state has frames; a `Dying` unit is retired immediately and
    /// is never animated.
    pub fn get_animation_indices(&self) -> (r: AnimationIndices)
        requires
            *self is Moving,
        ensures
            r == (AnimationIndices { start: 0, end: ANIM_END }),
    {
        AnimationIndices { start: 0, end: ANIM_END }
    }
}

/// Cadence configuration for the swarm's movement timers. Only the starting
/// period drives behavior today; the floor and the decrement are the declared
/// room for speeding the swarm up as a wave progresses.
#[derive(Clone, Copy, PartialEq, Eq, Structural, Debug)]
pub struct TimerConfig {
    pub period: u64,
    pub min_period: u64,
    pub decrement: u64,
}

impl TimerConfig {
    pub open spec fn wf(self) -> bool {
        0 < self.period <= PERIOD_LIMIT
    }
}

/// One swarm unit. A unit that is destroyed keeps its record, with `alive`
/// cleared, so that its identity is never reused within a wave; a retired
/// record contributes to nothing.
#[derive(Clone, Copy, PartialEq, Eq, Structural, Debug)]
pub struct Invader {
    pub id: u64,
    pub grid_position: GridPosition,
    pub direction: Direction,
    pub state: InvaderState,
    pub move_timer: Timer,
    pub animation_timer: AnimationTimer,
    pub sprite_index: usize,
    pub worth: Worth,
    pub alive: bool,
}

impl Invader {
    /// Build one unit record: its spawn cell, a fresh identity, the default
    /// heading and movement state, fresh timers on the given cadence, the
    /// first sprite frame and its worth.
    pub fn new(id: u64, x: i64, y: i64, worth: Worth, starting_period: u64) -> (u: Invader)
        requires
            0 < starting_period <= PERIOD_LIMIT,
            -COORD_LIMIT <= x <= COORD_LIMIT,
            -COORD_LIMIT <= y <= COORD_LIMIT,
        ensures
            u == (Invader {
                id,
                grid_position: GridPosition { x, y },
                direction: Direction::Left,
                state: InvaderState::Moving,
                move_timer: Timer { elapsed: 0, period: starting_period },
                animation_timer: AnimationTimer(Timer { elapsed: 0, period: starting_period }),
                sprite_index: 0,
                worth,
                alive: true,
            }),
            u.wf(),
    {
        Invader {
            id,
            grid_position: GridPosition { x, y },
            direction: Direction::default(),
            state: InvaderState::default(),
            move_timer: Timer::new(starting_period),
            animation_timer: AnimationTimer(Timer::new(starting_period)),
            sprite_index: 0,
            worth,
            alive: true,
        }
    }

    pub open spec fn wf(self) -> bool {
        &&& self.move_timer.wf()
        &&& self.animation_timer.0.wf()
        &&& -COORD_LIMIT <= self.grid_position.x <= COORD_LIMIT
        &&& -COORD_LIMIT <= self.grid_position.y <= COORD_LIMIT
        &&& self.sprite_index <= ANIM_END
        &&& (self.alive ==> self.state is Moving)
    }
}

/// The number of live units in a swarm registry.
pub open spec fn count_alive(s: Seq<Invader>) -> int
    decreases s.len(),
{
    if s.len() == 0 {
        0
    } else {
        count_alive(s.drop_last()) + if s.last().alive { 1int } else { 0int }
    }
}

pub proof fn lemma_count_alive_bounds(s: Seq<Invader>)
    ensures
        0 <= count_alive(s) <= s.len(),
    decreases s.len(),
{
    if s.len() > 0 {
        lemma_count_alive_bounds(s.drop_last());
    }
}

/// Replacing one record changes the live count exactly by the liveness it
/// takes away and the liveness it brings.
pub proof fn lemma_count_alive_update(s: Seq<Invader>, i: int, u: Invader)
    requires
        0 <= i < s.len(),
    ensures
        count_alive(s.update(i, u)) == count_alive(s) - (if s[i].alive {
            1int
        } else {
            0int
        }) + (if u.alive {
            1int
        } else {
            0int
        }),
    decreases s.len(),
{
    let s2 = s.update(i, u);
    if i == s.len() - 1 {
        assert(s2.drop_last() =~= s.drop_last());
    } else {
        assert(s2.drop_last() =~= s.drop_last().update(i, u));
        assert(s2.last() == s.last());
        lemma_count_alive_update(s.drop_last(), i, u);
    }
}

/// A registry with a live unit in it holds at least one live unit.
pub proof fn lemma_count_alive_pos(s: Seq<Invader>, i: int)
    requires
        0 <= i < s.len(),
        s[i].alive,
    ensures
        count_alive(s) >= 1,
    decreases s.len(),
{
    lemma_count_alive_bounds(s.drop_last());
    if i < s.len() - 1 {
        lemma_count_alive_pos(s.drop_last(), i);
    }
}

pub proof fn lemma_count_alive_push(s: Seq<Invader>, u: Invader)
    ensures
        count_alive(s.push(u)) == count_alive(s) + if u.alive {
            1int
        } else {
            0int
        },
{
    assert(s.push(u).drop_last() =~= s);
}

/// The swarm unit spawned `k`-th in a wave burst: the burst walks the
/// spawn window column by column, six rows per column, starting two cells
/// in from the field's top left.
pub open spec fn swarm_unit(first_id: u64, period: u64, k: int) -> Invader {
    Invader {
        id: (first_id + k) as u64,
        grid_position: GridPosition { x: (2 + k / 6) as i64, y: (2 + k % 6) as i64 },
        direction: Direction::Left,
        state: InvaderState::Moving,
        move_timer: Timer { elapsed: 0, period },
        animation_timer: AnimationTimer(Timer { elapsed: 0, period }),
        sprite_index: 0,
        worth: Worth(INVADER_WORTH),
        alive: true,
    }
}

impl Simulation {
    /// Spawn the wave's swarm in a single burst over columns `2 ..
    /// columns - 2` and rows `2 .. 8`: each unit gets a fresh identity, its
    /// spawn cell, the default heading, a fresh movement timer on the
    /// configured cadence and the default worth. Sets the live-unit count to
    /// the burst size and enters the active phase. Refuses a grid too small
    /// to place that swarm, leaving the simulation unchanged.
    pub fn spawn_invaders(&mut self) -> (r: Result<(), ConfigError>)
        requires
            old(self).wf(),
            old(self).state is Spawning,
            old(self).invaders@.len() == 0,
            old(self).next_id + 6 * old(self).grid.columns <= u64::MAX,
        ensures
            final(self).wf(),
            r is Err <==> (old(self).grid.columns < 5 || old(self).grid.rows < 8),
            r is Err ==> r == Result::<(), ConfigError>::Err(ConfigError::GridTooSmall)
                && *final(self) == *old(self),
            r is Ok ==> {
                &&& final(self).invaders@.len() == 6 * (old(self).grid.columns - 4)
                &&& forall|k: int|
                    0 <= k < final(self).invaders@.len()
                        ==> (#[trigger] final(self).invaders@[k]) == swarm_unit(
                        old(self).next_id,
                        old(self).timer_config.period,
                        k,
                    )
                &&& final(self).invader_count.0 == 6 * (old(self).grid.columns - 4)
                &&& final(self).next_id == old(self).next_id + 6 * (old(self).grid.columns - 4)
                &&& final(self).state is Active
                &&& *final(self) == (Simulation {
                    invaders: final(self).invaders,
                    invader_count: final(self).invader_count,
                    next_id: final(self).next_id,
                    state: GameState::Active,
                    ..*old(self)
                })
            },
    {
        if self.grid.columns < 5 || self.grid.rows < 8 {
            return Err(ConfigError::GridTooSmall);
        }
        proof {
            lemma_fundamental_div_mod(self.width as int, CELL_SIZE as int);
            lemma_mod_division_less_than_divisor(self.width as int, CELL_SIZE as int);
            lemma_div_pos_is_pos(self.width as int, CELL_SIZE as int);
        }
        let n: usize = (6 * (self.grid.columns - 4)) as usize;
        let first_id: u64 = self.next_id;
        let period: u64 = self.timer_config.period;
        let mut k: usize = 0;
        while k < n
            invariant
                0 <= k <= n,
                n == 6 * (self.grid.columns - 4),
                5 <= self.grid.columns <= VIEW_LIMIT,
                0 < period <= PERIOD_LIMIT,
                first_id + n <= u64::MAX,
                self.invaders@.len() == k,
                forall|j: int|
                    0 <= j < k ==> (#[trigger] self.invaders@[j]) == swarm_unit(
                        first_id,
                        period,
                        j,
                    ),
                count_alive(self.invaders@) == k,
                *self == (Simulation { invaders: self.invaders, ..*old(self) }),
            decreases n - k,
        {
            let kk = k as i64;
            proof {
                lemma_div_pos_is_pos(kk as int, 6);
                lemma_div_basics_5(kk as int, 6);
                lemma_mod_division_less_than_divisor(kk as int, 6);
            }
            let unit = Invader::new(first_id + k as u64, 2 + kk / 6, 2 + kk % 6, Worth(INVADER_WORTH), period);
            proof {
                lemma_count_alive_push(self.invaders@, unit);
            }
            self.invaders.push(unit);
            k = k + 1;
        }
        self.invader_count = InvaderCount(n);
        self.next_id = self.next_id + n as u64;
        self.state = GameState::Active;
        Ok(())
    }
}

/// Two registries with the same length and the same liveness pattern hold
/// the same number of live units.
pub proof fn lemma_count_alive_congruent(s1: Seq<Invader>, s2: Seq<Invader>)
    requires
        s1.len() == s2.len(),
        forall|i: int| 0 <= i < s1.len() ==> (#[trigger] s1[i]).alive == (#[trigger] s2[i]).alive,
    ensures
        count_alive(s1) == count_alive(s2),
    decreases s1.len(),
{
    if s1.len() > 0 {
        assert(s1.last().alive == s2.last().alive);
        lemma_count_alive_congruent(s1.drop_last(), s2.drop_last());
    }
}

/// Where a unit's column coordinate steps by one in its heading. The step
/// saturates at the machine coordinate limit, far beyond any field, so the
/// coordinate can never overflow.
pub open spec fn stepped_x(x: int, d: Direction) -> int {
    match d {
        Direction::Left => if x > -COORD_LIMIT {
            x - 1
        } else {
            x
        },
        Direction::Right => if x < COORD_LIMIT {
            x + 1
        } else {
            x
        },
    }
}

/// A swarm unit after one movement tick: its cadence timer advances by the
/// elapsed time, and when the timer fires the unit's column shifts by one in
/// its heading. A retired unit contributes nothing and is untouched.
pub open spec fn moved_invader(u: Invader, delta: u64) -> Invader {
    if u.alive {
        Invader {
            move_timer: u.move_timer.spec_after(delta),
            grid_position: GridPosition {
                x: if u.move_timer.fires(delta) {
                    stepped_x(u.grid_position.x as int, u.direction) as i64
                } else {
                    u.grid_position.x
                },
                y: u.grid_position.y,
            },
            ..u
        }
    } else {
        u
    }
}

/// The edge signals one unit contributes after a movement pass: `Left` when
/// it stands on column zero, then `Right` when it stands on the last
/// playable column. A retired unit contributes nothing.
pub open spec fn unit_edge_events(u: Invader, columns: int) -> Seq<EdgeReached> {
    (if u.alive && u.grid_position.x == 0 {
        seq![EdgeReached::Left]
    } else {
        Seq::empty()
    }) + (if u.alive && u.grid_position.x == columns - 1 {
        seq![EdgeReached::Right]
    } else {
        Seq::empty()
    })
}

/// The per-tick edge-signal queue: every unit's contribution, in registry
/// order.
pub open spec fn edge_events(s: Seq<Invader>, columns: int) -> Seq<EdgeReached>
    decreases s.len(),
{
    if s.len() == 0 {
        Seq::empty()
    } else {
        edge_events(s.drop_last(), columns) + unit_edge_events(s.last(), columns)
    }
}

/// The swarm heading after the edge-signal queue is consumed in emission
/// order: each signal forces the heading away from its edge, so the last
/// signal wins; an empty queue leaves the heading alone.
pub open spec fn dir_after(events: Seq<EdgeReached>, d: Direction) -> Direction {
    if events.len() == 0 {
        d
    } else {
        reversed(events.last())
    }
}

/// A swarm unit after one animation tick: its animation timer advances, and
/// when it fires the sprite frame steps through the movement animation's
/// range, wrapping at the end. A retired unit is untouched.
pub open spec fn animated_invader(u: Invader, delta: u64) -> Invader {
    if u.alive {
        Invader {
            animation_timer: AnimationTimer(u.animation_timer.0.spec_after(delta)),
            sprite_index: if u.animation_timer.0.fires(delta) {
                if u.sprite_index == ANIM_END {
                    0
                } else {
                    (u.sprite_index + 1) as usize
                }
            } else {
                u.sprite_index
            },
            ..u
        }
    } else {
        u
    }
}

/// The whole swarm registry after the movement pass.
pub open spec fn moved_invaders(us: Seq<Invader>, delta: u64) -> Seq<Invader> {
    us.map_values(|u: Invader| moved_invader(u, delta))
}

/// The whole swarm registry after the reversal pass.
pub open spec fn reversed_invaders(us: Seq<Invader>, events: Seq<EdgeReached>) -> Seq<Invader> {
    us.map_values(|u: Invader| Invader { direction: dir_after(events, u.direction), ..u })
}

/// The whole swarm registry after the animation pass.
pub open spec fn animated_invaders(us: Seq<Invader>, delta: u64) -> Seq<Invader> {
    us.map_values(|u: Invader| animated_invader(u, delta))
}

impl Simulation {
    /// The movement pass: advance every live unit's cadence timer by the
    /// elapsed frame time and, where a timer fires, shift that unit's column
    /// by one in its heading. The step is applied unconditionally; answering
    /// a unit that stepped onto a boundary column is the edge detector's
    /// responsibility, later in the same tick.
    pub fn move_invaders(&mut self, delta: u64)
        requires
            old(self).wf(),
            delta <= DELTA_LIMIT,
        ensures
            final(self).wf(),
            final(self).invaders@.len() == old(self).invaders@.len(),
            forall|i: int|
                0 <= i < old(self).invaders@.len()
                    ==> (#[trigger] final(self).invaders@[i]) == moved_invader(
                    old(self).invaders@[i],
                    delta,
                ),
            final(self).invaders@ == moved_invaders(old(self).invaders@, delta),
            *final(self) == (Simulation { invaders: final(self).invaders, ..*old(self) }),
    {
        let n = self.invaders.len();
        let mut i: usize = 0;
        while i < n
            invariant
                0 <= i <= n,
                n == self.invaders@.len() == old(self).invaders@.len(),
                delta <= DELTA_LIMIT,
                old(self).wf(),
                forall|j: int|
                    0 <= j < i ==> (#[trigger] self.invaders@[j]) == moved_invader(
                        old(self).invaders@[j],
                        delta,
                    ),
                forall|j: int| i <= j < n ==> self.invaders@[j] == old(self).invaders@[j],
                *self == (Simulation { invaders: self.invaders, ..*old(self) }),
            decreases n - i,
        {
            let mut u = self.invaders[i];
            assert(u == old(self).invaders@[i as int]);
            assert(u.wf());
            if u.alive {
                let fired = u.move_timer.tick(delta);
                if fired {
                    match u.direction {
                        Direction::Left => {
                            if u.grid_position.x > -COORD_LIMIT {
                                u.grid_position.x = u.grid_position.x - 1;
                            }
                        },
                        Direction::Right => {
                            if u.grid_position.x < COORD_LIMIT {
                                u.grid_position.x = u.grid_position.x + 1;
                            }
                        },
                    }
                }
                self.invaders.set(i, u);
            }
            i = i + 1;
        }
        proof {
            lemma_count_alive_congruent(self.invaders@, old(self).invaders@);
            assert(self.invaders@ =~= moved_invaders(old(self).invaders@, delta));
        }
    }

    /// The edge-detection pass: scan the swarm after positions updated and
    /// emit a `Left` signal for every live unit on column zero and a `Right`
    /// signal for every live unit on the last playable column, in registry
    /// order. Detection mutates nothing.
    pub fn detect_edge(&self) -> (events: Vec<EdgeReached>)
        requires
            self.wf(),
        ensures
            events@ == edge_events(self.invaders@, self.grid.columns as int),
    {
        let n = self.invaders.len();
        let mut events: Vec<EdgeReached> = Vec::new();
        let ghost cols = self.grid.columns as int;
        assert(self.invaders@.subrange(0, 0) =~= Seq::<Invader>::empty());
        let mut i: usize = 0;
        while i < n
            invariant
                0 <= i <= n,
                n == self.invaders@.len(),
                self.wf(),
                cols == self.grid.columns as int,
                events@ == edge_events(self.invaders@.subrange(0, i as int), cols),
            decreases n - i,
        {
            let u = self.invaders[i];
            let ghost prefix = self.invaders@.subrange(0, i as int);
            if u.alive && u.grid_position.x == 0 {
                events.push(EdgeReached::Left);
            }
            if u.alive && u.grid_position.x == self.grid.columns - 1 {
                events.push(EdgeReached::Right);
            }
            proof {
                let longer = self.invaders@.subrange(0, i + 1);
                assert(longer.drop_last() =~= prefix);
                assert(longer.last() == u);
                assert(events@ =~= edge_events(prefix, cols) + unit_edge_events(u, cols));
            }
            i = i + 1;
        }
        proof {
            assert(self.invaders@.subrange(0, n as int) =~= self.invaders@);
        }
        events
    }

    /// The reversal pass: consume the tick's edge-signal queue in emission
    /// order; each signal flips the whole swarm's heading away from its
    /// edge, so the queue's last signal decides the heading every unit ends
    /// the tick with. An empty queue changes nothing.
    pub fn change_moving_direction(&mut self, events: &Vec<EdgeReached>)
        requires
            old(self).wf(),
        ensures
            final(self).wf(),
            final(self).invaders@.len() == old(self).invaders@.len(),
            forall|i: int|
                0 <= i < old(self).invaders@.len()
                    ==> (#[trigger] final(self).invaders@[i]) == (Invader {
                    direction: dir_after(events@, old(self).invaders@[i].direction),
                    ..old(self).invaders@[i]
                }),
            final(self).invaders@ == reversed_invaders(old(self).invaders@, events@),
            *final(self) == (Simulation { invaders: final(self).invaders, ..*old(self) }),
    {
        if events.len() == 0 {
            assert(forall|i: int|
                0 <= i < self.invaders@.len() ==> (#[trigger] self.invaders@[i]) == (Invader {
                    direction: dir_after(events@, self.invaders@[i].direction),
                    ..self.invaders@[i]
                }));
            assert(self.invaders@ =~= reversed_invaders(self.invaders@, events@));
            return ;
        }
        let last = events[events.len() - 1];
        let heading = match last {
            EdgeReached::Left => Direction::Right,
            EdgeReached::Right => Direction::Left,
        };
        let n = self.invaders.len();
        let mut i: usize = 0;
        while i < n
            invariant
                0 <= i <= n,
                n == self.invaders@.len() == old(self).invaders@.len(),
                old(self).wf(),
                events@.len() > 0,
                heading == reversed(events@.last()),
                forall|j: int|
                    0 <= j < i ==> (#[trigger] self.invaders@[j]) == (Invader {
                        direction: heading,
                        ..old(self).invaders@[j]
                    }),
                forall|j: int| i <= j < n ==> self.invaders@[j] == old(self).invaders@[j],
                *self == (Simulation { invaders: self.invaders, ..*old(self) }),
            decreases n - i,
        {
            let mut u = self.invaders[i];
            u.direction = heading;
            self.invaders.set(i, u);
            i = i + 1;
        }
        proof {
            lemma_count_alive_congruent(self.invaders@, old(self).invaders@);
            assert(self.invaders@ =~= reversed_invaders(old(self).invaders@, events@));
        }
    }

    /// The animation pass: advance every live unit's animation timer and,
    /// where it fires, step the unit's sprite frame through the movement
    /// animation, wrapping at the last frame.
    pub fn animate_invaders(&mut self, delta: u64)
        requires
            old(self).wf(),
            delta <= DELTA_LIMIT,
        ensures
            final(self).wf(),
            final(self).invaders@.len() == old(self).invaders@.len(),
            forall|i: int|
                0 <= i < old(self).invaders@.len()
                    ==> (#[trigger] final(self).invaders@[i]) == animated_invader(
                    old(self).invaders@[i],
                    delta,
                ),
            final(self).invaders@ == animated_invaders(old(self).invaders@, delta),
            *final(self) == (Simulation { invaders: final(self).invaders, ..*old(self) }),
    {
        let n = self.invaders.len();
        let mut i: usize = 0;
        while i < n
            invariant
                0 <= i <= n,
                n == self.invaders@.len() == old(self).invaders@.len(),
                delta <= DELTA_LIMIT,
                old(self).wf(),
                forall|j: int|
                    0 <= j < i ==> (#[trigger] self.invaders@[j]) == animated_invader(
                        old(self).invaders@[j],
                        delta,
                    ),
                forall|j: int| i <= j < n ==> self.invaders@[j] == old(self).invaders@[j],
                *self == (Simulation { invaders: self.invaders, ..*old(self) }),
            decreases n - i,
        {
            let mut u = self.invaders[i];
            assert(u == old(self).invaders@[i as int]);
            assert(u.wf());
            if u.alive {
                let fired = u.animation_timer.0.tick(delta);
                if fired {
                    let indices = u.state.get_animation_indices();
                    u.sprite_index = if u.sprite_index == indices.end {
                        indices.start
                    } else {
                        u.sprite_index + 1
                    };
                }
                self.invaders.set(i, u);
            }
            i = i + 1;
        }
        proof {
            lemma_count_alive_congruent(self.invaders@, old(self).invaders@);
            assert(self.invaders@ =~= animated_invaders(old(self).invaders@, delta));
        }
    }

    /// One confirmed kill: the live-unit count goes down by one. The caller
    /// answers for the kill being confirmed, so the count never crosses
    /// zero.
    pub fn decrease_invader_count(&mut self)
        requires
            old(self).invader_count.0 > 0,
        ensures
            *final(self) == (Simulation {
                invader_count: InvaderCount((old(self).invader_count.0 - 1) as usize),
                ..*old(self)
            }),
    {
        self.invader_count = InvaderCount(self.invader_count.0 - 1);
    }
}

/// What the render sink is told about one live swarm unit: its identity,
/// the render-space position of its cell's center, and its sprite-frame
/// hint.
pub open spec fn render_entry(s: Simulation, u: Invader) -> (u64, Transform, usize) {
    (
        u.id,
        Transform {
            x: transform_x(u.grid_position.x as int, s.start_x()) as i64,
            y: transform_y(u.grid_position.y as int, s.start_y()) as i64,
        },
        u.sprite_index,
    )
}

/// The render sink's view of a swarm registry: one entry per live unit, in
/// registry order.
pub open spec fn render_list(s: Simulation, units: Seq<Invader>) -> Seq<(u64, Transform, usize)>
    decreases units.len(),
{
    if units.len() == 0 {
        Seq::empty()
    } else {
        render_list(s, units.drop_last()) + if units.last().alive {
            seq![render_entry(s, units.last())]
        } else {
            Seq::empty()
        }
    }
}

impl Simulation {
    /// The render pass: convert every live unit's cell coordinate to its
    /// render-space position, on demand and never cached stale, and hand
    /// the render sink one `(identity, position, sprite frame)` tuple per
    /// unit.
    pub fn position_invaders_on_grid(&self) -> (out: Vec<(u64, Transform, usize)>)
        requires
            self.wf(),
        ensures
            out@ == render_list(*self, self.invaders@),
    {
        proof {
            lemma_div_pos_is_pos(self.width as int, 2);
            lemma_div_basics_5(self.width as int, 2);
            lemma_div_pos_is_pos(self.height as int, 2);
            lemma_div_basics_5(self.height as int, 2);
        }
        let start_x = -(self.width / 2);
        let start_y = self.height / 2;
        let n = self.invaders.len();
        let mut out: Vec<(u64, Transform, usize)> = Vec::new();
        assert(self.invaders@.subrange(0, 0) =~= Seq::<Invader>::empty());
        let mut i: usize = 0;
        while i < n
            invariant
                0 <= i <= n,
                n == self.invaders@.len(),
                self.wf(),
                start_x == self.start_x(),
                start_y == self.start_y(),
                -COORD_LIMIT <= start_x <= COORD_LIMIT,
                -COORD_LIMIT <= start_y <= COORD_LIMIT,
                out@ == render_list(*self, self.invaders@.subrange(0, i as int)),
            decreases n - i,
        {
            let u = self.invaders[i];
            if u.alive {
                let t = u.grid_position.get_transform(start_x, start_y);
                out.push((u.id, t, u.sprite_index));
            }
            proof {
                let longer = self.invaders@.subrange(0, i + 1);
                assert(longer.drop_last() =~= self.invaders@.subrange(0, i as int));
                assert(longer.last() == u);
                assert(out@ =~= render_list(*self, longer));
            }
            i = i + 1;
        }
        assert(self.invaders@.subrange(0, n as int) =~= self.invaders@);
        out
    }
}

/// Every edge signal a swarm with no live unit on the last playable column
/// can emit is a `Left` signal.
pub proof fn lemma_edge_events_all_left(s: Seq<Invader>, columns: int)
    requires
        forall|i: int|
            0 <= i < s.len() ==> !((#[trigger] s[i]).alive && s[i].grid_position.x == columns - 1),
    ensures
        forall|k: int|
            0 <= k < edge_events(s, columns).len() ==> (#[trigger] edge_events(s, columns)[k])
                == EdgeReached::Left,
    decreases s.len(),
{
    if s.len() > 0 {
        assert(forall|i: int| 0 <= i < s.drop_last().len() ==> (#[trigger] s.drop_last()[i]) == s[i]);
        lemma_edge_events_all_left(s.drop_last(), columns);
        assert(!(s.last().alive && s.last().grid_position.x == columns - 1));
    }
}

/// A swarm with a live unit on column zero emits at least one edge signal.
pub proof fn lemma_edge_events_nonempty(s: Seq<Invader>, columns: int, i: int)
    requires
        0 <= i < s.len(),
        s[i].alive,
        s[i].grid_position.x == 0,
    ensures
        edge_events(s, columns).len() > 0,
    decreases s.len(),
{
    if i == s.len() - 1 {
        assert(unit_edge_events(s.last(), columns).len() > 0);
    } else {
        assert(s.drop_last()[i] == s[i]);
        lemma_edge_events_nonempty(s.drop_last(), columns, i);
    }
}

/// A unit standing on column zero after the movement pass forces, once edge
/// detection and reversal run, every unit's heading to `Right` before the
/// next movement pass — provided no live unit stands on the last playable
/// column in the same tick, where the later of the two signals would decide
/// instead.
pub proof fn lemma_left_edge_reverses_swarm(units: Seq<Invader>, columns: int, i: int)
    requires
        0 <= i < units.len(),
        units[i].alive,
        units[i].grid_position.x == 0,
        forall|j: int|
            0 <= j < units.len() ==> !((#[trigger] units[j]).alive
                && units[j].grid_position.x == columns - 1),
    ensures
        forall|d: Direction| dir_after(edge_events(units, columns), d) == Direction::Right,
{
    let events = edge_events(units, columns);
    lemma_edge_events_nonempty(units, columns, i);
    lemma_edge_events_all_left(units, columns);
    assert(events.last() == events[events.len() - 1]);
    assert(events.last() == EdgeReached::Left);
}

} // verus!
