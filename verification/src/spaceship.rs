//! The bonus unit: a high-value starship that crosses the field leftward at
//! constant speed, independent of the swarm cadence, and self-despawns once
//! it leaves the field's trailing edge.

use vstd::prelude::*;
use vstd::arithmetic::div_mod::{
    lemma_div_basics_5,
    lemma_div_pos_is_pos,
    lemma_fundamental_div_mod,
    lemma_mod_division_less_than_divisor,
};
use crate::grid::{transform_x, transform_y, GridPosition, CELL_SIZE, COORD_LIMIT, HALF_CELL_SIZE, MILLI};
use crate::score::Worth;
use crate::sim::{Simulation, FLIGHT_LIMIT_MILLI};
use crate::{DELTA_LIMIT, Timer};

verus! {

/// Bonus-unit speed, in render units per second (equivalently, thousandths
/// of a unit per millisecond).
pub const SPACESHIP_SPEED: i64 = 200;

/// Score value of the bonus unit.
pub const SPACESHIP_WORTH: usize = 1000;

/// Period of the bonus-unit spawn timer, in time units (milliseconds).
pub const SPACESHIP_SPAWN_PERIOD: u64 = 5000;

/// A bonus unit in flight. Positions are in thousandths of a render unit. A
/// destroyed or despawned starship keeps its record, with `alive` cleared,
/// so that its identity is never reused within a session; a retired record
/// contributes to nothing.
#[derive(Clone, Copy, PartialEq, Eq, Structural, Debug)]
pub struct Starship {
    pub id: u64,
    pub x_milli: i64,
    pub y_milli: i64,
    pub worth: Worth,
    pub alive: bool,
}

/// Some bonus unit in the registry is still alive.
pub open spec fn has_live_ship(ships: Seq<Starship>) -> bool {
    exists|i: int| 0 <= i < ships.len() && (#[trigger] ships[i]).alive
}

/// The bonus unit the spawner introduces: one cell past the field's right
/// border, at the topmost row, with the fixed high worth and a fresh
/// identity.
pub open spec fn spawned_ship(id: u64, columns: int, start_x: int, start_y: int) -> Starship {
    Starship {
        id,
        x_milli: (transform_x(columns + 1, start_x) * MILLI) as i64,
        y_milli: (transform_y(0, start_y) * MILLI) as i64,
        worth: Worth(SPACESHIP_WORTH),
        alive: true,
    }
}

/// The spawner introduces a bonus unit exactly when its timer fires, the
/// singleton guard (if configured) finds no live bonus unit, and an
/// identity is still available.
pub open spec fn ship_spawns(
    timer: Timer,
    delta: u64,
    guard: bool,
    ships: Seq<Starship>,
    next_id: u64,
) -> bool {
    timer.fires(delta) && !(guard && has_live_ship(ships)) && next_id < u64::MAX
}

/// A bonus unit after one movement tick: a live one advances leftward by
/// its speed times the elapsed time. The step saturates at the flight
/// limit, far beyond any field, so the coordinate can never overflow; a
/// retired unit is untouched.
pub open spec fn moved_ship(sh: Starship, delta: u64) -> Starship {
    if sh.alive && sh.x_milli >= -FLIGHT_LIMIT_MILLI {
        Starship { x_milli: (sh.x_milli - SPACESHIP_SPEED * delta) as i64, ..sh }
    } else {
        sh
    }
}

/// A live bonus unit has crossed the field's trailing edge by more than
/// half a cell: the per-tick despawn check retires it, regardless of hit
/// status. `hw` is half the field width in render units.
pub open spec fn ship_outside(hw: int, sh: Starship) -> bool {
    sh.alive && sh.x_milli < (-hw - HALF_CELL_SIZE) * MILLI
}

/// Some live bonus unit is beyond the trailing edge.
pub open spec fn some_ship_outside(s: Simulation) -> bool {
    exists|i: int|
        0 <= i < s.starships@.len() && ship_outside(s.half_width(), #[trigger] s.starships@[i])
}

/// A bonus unit after the despawn check: retired exactly when it was
/// beyond the trailing edge.
pub open spec fn culled_ship(hw: int, sh: Starship) -> Starship {
    if ship_outside(hw, sh) {
        Starship { alive: false, ..sh }
    } else {
        sh
    }
}

/// The whole bonus-unit registry after the despawn check.
pub open spec fn culled_ships(ss: Seq<Starship>, hw: int) -> Seq<Starship> {
    ss.map_values(|sh: Starship| culled_ship(hw, sh))
}

/// The whole bonus-unit registry after the movement pass.
pub open spec fn moved_ships(ss: Seq<Starship>, delta: u64) -> Seq<Starship> {
    ss.map_values(|sh: Starship| moved_ship(sh, delta))
}

impl Simulation {
    /// Whether a live bonus unit is on the field: the singleton guard of
    /// the strict spawn policy.
    pub fn any_live_starship(&self) -> (r: bool)
        ensures
            r == has_live_ship(self.starships@),
    {
        let n = self.starships.len();
        let mut i: usize = 0;
        while i < n
            invariant
                0 <= i <= n,
                n == self.starships@.len(),
                forall|j: int| 0 <= j < i ==> !(#[trigger] self.starships@[j]).alive,
            decreases n - i,
        {
            if self.starships[i].alive {
                return true;
            }
            i = i + 1;
        }
        false
    }

    /// The bonus-spawner pass: advance the spawn timer by the elapsed frame
    /// time; when it fires — and, under the strict singleton policy, no
    /// bonus unit is currently alive — introduce one bonus unit just past
    /// the field's right border, at the top row, moving on its own
    /// render-space speed independent of the swarm cadence.
    pub fn spawn_spaceship(&mut self, delta: u64)
        requires
            old(self).wf(),
            delta <= DELTA_LIMIT,
        ensures
            final(self).wf(),
            final(self).spawn_timer == old(self).spawn_timer.spec_after(delta),
            ship_spawns(
                old(self).spawn_timer,
                delta,
                old(self).guard_bonus_spawn,
                old(self).starships@,
                old(self).next_id,
            ) ==> {
                &&& final(self).starships@ == old(self).starships@.push(
                    spawned_ship(
                        old(self).next_id,
                        old(self).grid.columns as int,
                        old(self).start_x(),
                        old(self).start_y(),
                    ),
                )
                &&& *final(self) == (Simulation {
                    starships: final(self).starships,
                    spawn_timer: final(self).spawn_timer,
                    next_id: (old(self).next_id + 1) as u64,
                    ..*old(self)
                })
            },
            !ship_spawns(
                old(self).spawn_timer,
                delta,
                old(self).guard_bonus_spawn,
                old(self).starships@,
                old(self).next_id,
            ) ==> *final(self) == (Simulation {
                spawn_timer: final(self).spawn_timer,
                ..*old(self)
            }),
    {
        let fired = self.spawn_timer.tick(delta);
        if fired {
            let blocked = self.guard_bonus_spawn && self.any_live_starship();
            if !blocked && self.next_id < u64::MAX {
                proof {
                    lemma_div_pos_is_pos(self.width as int, CELL_SIZE as int);
                    lemma_div_basics_5(self.width as int, CELL_SIZE as int);
                    lemma_div_pos_is_pos(self.width as int, 2);
                    lemma_div_basics_5(self.width as int, 2);
                    lemma_div_pos_is_pos(self.height as int, 2);
                    lemma_div_basics_5(self.height as int, 2);
                    lemma_fundamental_div_mod(self.width as int, CELL_SIZE as int);
                    lemma_mod_division_less_than_divisor(self.width as int, CELL_SIZE as int);
                    lemma_fundamental_div_mod(self.width as int, 2);
                    lemma_mod_division_less_than_divisor(self.width as int, 2);
                }
                let gp = GridPosition { x: self.grid.columns + 1, y: 0 };
                let t = gp.get_transform(-(self.width / 2), self.height / 2);
                let ship = Starship {
                    id: self.next_id,
                    x_milli: t.x * MILLI,
                    y_milli: t.y * MILLI,
                    worth: Worth(SPACESHIP_WORTH),
                    alive: true,
                };
                self.starships.push(ship);
                self.next_id = self.next_id + 1;
            }
        }
    }

    /// The bonus-movement pass: every live bonus unit advances leftward by
    /// its constant speed times the elapsed frame time.
    pub fn move_spaceship(&mut self, delta: u64)
        requires
            old(self).wf(),
            delta <= DELTA_LIMIT,
        ensures
            final(self).wf(),
            final(self).starships@.len() == old(self).starships@.len(),
            forall|i: int|
                0 <= i < old(self).starships@.len() ==> (#[trigger] final(self).starships@[i])
                    == moved_ship(old(self).starships@[i], delta),
            final(self).starships@ == moved_ships(old(self).starships@, delta),
            *final(self) == (Simulation { starships: final(self).starships, ..*old(self) }),
    {
        let n = self.starships.len();
        let mut i: usize = 0;
        while i < n
            invariant
                0 <= i <= n,
                n == self.starships@.len() == old(self).starships@.len(),
                delta <= DELTA_LIMIT,
                old(self).wf(),
                forall|j: int|
                    0 <= j < i ==> (#[trigger] self.starships@[j]) == moved_ship(
                        old(self).starships@[j],
                        delta,
                    ),
                forall|j: int| i <= j < n ==> self.starships@[j] == old(self).starships@[j],
                *self == (Simulation { starships: self.starships, ..*old(self) }),
            decreases n - i,
        {
            let mut sh = self.starships[i];
            assert(sh == old(self).starships@[i as int]);
            if sh.alive && sh.x_milli >= -FLIGHT_LIMIT_MILLI {
                sh.x_milli = sh.x_milli - SPACESHIP_SPEED * delta as i64;
                self.starships.set(i, sh);
            }
            i = i + 1;
        }
        assert(self.starships@ =~= moved_ships(old(self).starships@, delta));
    }

    /// Whether some live bonus unit has crossed the field's trailing edge
    /// by more than half a cell.
    pub fn starship_outside(&self) -> (r: bool)
        requires
            self.wf(),
        ensures
            r == some_ship_outside(*self),
    {
        let threshold = (-(self.width / 2) - HALF_CELL_SIZE) * MILLI;
        let n = self.starships.len();
        let mut i: usize = 0;
        while i < n
            invariant
                0 <= i <= n,
                n == self.starships@.len(),
                self.wf(),
                threshold == (-self.half_width() - HALF_CELL_SIZE) * MILLI,
                forall|j: int|
                    0 <= j < i ==> !ship_outside(self.half_width(), #[trigger] self.starships@[j]),
            decreases n - i,
        {
            let sh = self.starships[i];
            if sh.alive && sh.x_milli < threshold {
                return true;
            }
            i = i + 1;
        }
        false
    }

    /// The bonus-despawn pass: retire every live bonus unit whose position
    /// has crossed the field's trailing edge by more than half a cell.
    pub fn despawn_spaceship(&mut self)
        requires
            old(self).wf(),
        ensures
            final(self).wf(),
            final(self).starships@.len() == old(self).starships@.len(),
            forall|i: int|
                0 <= i < old(self).starships@.len() ==> (#[trigger] final(self).starships@[i])
                    == culled_ship(old(self).half_width(), old(self).starships@[i]),
            final(self).starships@ == culled_ships(old(self).starships@, old(self).half_width()),
            *final(self) == (Simulation { starships: final(self).starships, ..*old(self) }),
    {
        let threshold = (-(self.width / 2) - HALF_CELL_SIZE) * MILLI;
        let n = self.starships.len();
        let mut i: usize = 0;
        while i < n
            invariant
                0 <= i <= n,
                n == self.starships@.len() == old(self).starships@.len(),
                old(self).wf(),
                threshold == (-old(self).half_width() - HALF_CELL_SIZE) * MILLI,
                forall|j: int|
                    0 <= j < i ==> (#[trigger] self.starships@[j]) == culled_ship(
                        old(self).half_width(),
                        old(self).starships@[j],
                    ),
                forall|j: int| i <= j < n ==> self.starships@[j] == old(self).starships@[j],
                *self == (Simulation { starships: self.starships, ..*old(self) }),
            decreases n - i,
        {
            let mut sh = self.starships[i];
            if sh.alive && sh.x_milli < threshold {
                sh.alive = false;
                self.starships.set(i, sh);
            }
            i = i + 1;
        }
        assert(self.starships@ =~= culled_ships(old(self).starships@, old(self).half_width()));
    }
}

} // verus!
