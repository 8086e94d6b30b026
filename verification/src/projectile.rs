//! Projectiles and the axis-aligned bounding-box overlap test that decides
//! hits.

use vstd::prelude::*;
use crate::grid::{transform_x, transform_y, COORD_LIMIT, HALF_CELL_SIZE, MILLI};
use crate::invader::{
    count_alive,
    lemma_count_alive_pos,
    lemma_count_alive_update,
    Invader,
    InvaderCount,
    InvaderState,
};
use crate::player::Player;
use crate::score::{sum_events, ScoreIncreased};
use crate::sim::{Simulation, FLIGHT_LIMIT_MILLI};
use crate::spaceship::Starship;
use crate::DELTA_LIMIT;

verus! {

/// Projectile speed, in render units per second (equivalently, thousandths
/// of a unit per millisecond).
pub const PROJECTILE_SPEED: i64 = 300;

/// Half extents of a projectile's bounding box, in render units.
pub const PROJECTILE_HALF_WIDTH: i64 = 1;

pub const PROJECTILE_HALF_HEIGHT: i64 = 5;

/// How far above the player a fired projectile starts, in render units.
pub const PROJECTILE_OFFSET: i64 = 30;

/// Machine limit on the magnitude of a render-space coordinate handed to the
/// overlap test, in thousandths of a unit.
pub const OVERLAP_LIMIT: i64 = 0x1000_0000_0000_0000;

/// A projectile in flight. Positions are in thousandths of a render unit. A
/// destroyed projectile keeps its record, with `alive` cleared, so that its
/// identity is never reused within a session; a retired record contributes
/// to nothing.
#[derive(Clone, Copy, PartialEq, Eq, Structural, Debug)]
pub struct Projectile {
    pub id: u64,
    pub x_milli: i64,
    pub y_milli: i64,
    pub alive: bool,
}

/// A detected projectile-versus-unit overlap: the identities of the unit
/// (swarm or bonus) and the projectile. Detection emits these without
/// mutating any entity; a following resolution pass consumes them.
#[derive(Clone, Copy, PartialEq, Eq, Structural, Debug)]
pub struct HitDetected {
    pub unit: u64,
    pub projectile: u64,
}

/// Axis-aligned bounding-box overlap of two boxes given by their centers and
/// half extents: positive overlap on both axes. Touching edges (zero overlap
/// on an axis) do not count.
pub open spec fn aabb_overlaps(
    ax: int,
    ay: int,
    a_half_x: int,
    a_half_y: int,
    bx: int,
    by: int,
    b_half_x: int,
    b_half_y: int,
) -> bool {
    &&& ax - a_half_x < bx + b_half_x
    &&& bx - b_half_x < ax + a_half_x
    &&& ay - a_half_y < by + b_half_y
    &&& by - b_half_y < ay + a_half_y
}

/// Decides overlap of two centered boxes; every argument is in the same
/// render-space scale.
pub fn collide(
    ax: i64,
    ay: i64,
    a_half_x: i64,
    a_half_y: i64,
    bx: i64,
    by: i64,
    b_half_x: i64,
    b_half_y: i64,
) -> (r: bool)
    requires
        -OVERLAP_LIMIT <= ax <= OVERLAP_LIMIT,
        -OVERLAP_LIMIT <= ay <= OVERLAP_LIMIT,
        0 <= a_half_x <= OVERLAP_LIMIT,
        0 <= a_half_y <= OVERLAP_LIMIT,
        -OVERLAP_LIMIT <= bx <= OVERLAP_LIMIT,
        -OVERLAP_LIMIT <= by <= OVERLAP_LIMIT,
        0 <= b_half_x <= OVERLAP_LIMIT,
        0 <= b_half_y <= OVERLAP_LIMIT,
    ensures
        r == aabb_overlaps(
            ax as int,
            ay as int,
            a_half_x as int,
            a_half_y as int,
            bx as int,
            by as int,
            b_half_x as int,
            b_half_y as int,
        ),
{
    let a_min_x = ax - a_half_x;
    let a_max_x = ax + a_half_x;
    let a_min_y = ay - a_half_y;
    let a_max_y = ay + a_half_y;
    let b_min_x = bx - b_half_x;
    let b_max_x = bx + b_half_x;
    let b_min_y = by - b_half_y;
    let b_max_y = by + b_half_y;
    a_min_x < b_max_x && b_min_x < a_max_x && a_min_y < b_max_y && b_min_y < a_max_y
}

/// The projectile a fire input spawns: at the player's column, a fixed
/// offset above the player, with a fresh identity.
pub open spec fn spawned_projectile(p: Player, id: u64) -> Projectile {
    Projectile {
        id,
        x_milli: p.x_milli,
        y_milli: (p.y_milli + PROJECTILE_OFFSET * MILLI) as i64,
        alive: true,
    }
}

/// A fire input spawns a projectile exactly when a player is on the field
/// (a fire event without one is a no-op, never fatal) and an identity is
/// still available.
pub open spec fn projectile_fired(s: Simulation, fire: bool) -> bool {
    fire && s.player is Some && s.next_id < u64::MAX
}

/// A projectile after one movement tick: a live one rises by its speed
/// times the elapsed time. The step saturates at the flight limit, far
/// beyond any field, so the coordinate can never overflow; a retired
/// projectile is untouched.
pub open spec fn moved_projectile(p: Projectile, delta: u64) -> Projectile {
    if p.alive && p.y_milli <= FLIGHT_LIMIT_MILLI {
        Projectile { y_milli: (p.y_milli + PROJECTILE_SPEED * delta) as i64, ..p }
    } else {
        p
    }
}

/// A projectile after the despawn pass: retired exactly when it has left
/// the field through the top border.
pub open spec fn culled_projectile(p: Projectile, hh: int) -> Projectile {
    if p.alive && p.y_milli > hh * MILLI {
        Projectile { alive: false, ..p }
    } else {
        p
    }
}

/// Render-space x of a swarm unit's center, in thousandths of a unit, for
/// a field whose left border is at `start_x`.
pub open spec fn unit_center_x(u: Invader, start_x: int) -> int {
    transform_x(u.grid_position.x as int, start_x) * MILLI
}

/// Render-space y of a swarm unit's center, in thousandths of a unit, for
/// a field whose top border is at `start_y`.
pub open spec fn unit_center_y(u: Invader, start_y: int) -> int {
    transform_y(u.grid_position.y as int, start_y) * MILLI
}

/// A live projectile overlaps a live swarm unit: the projectile's box
/// against the unit's cell-sized box, both centered on their render-space
/// positions.
pub open spec fn projectile_hits_invader(start_x: int, start_y: int, p: Projectile, u: Invader) -> bool {
    p.alive && u.alive && aabb_overlaps(
        p.x_milli as int,
        p.y_milli as int,
        PROJECTILE_HALF_WIDTH * MILLI,
        PROJECTILE_HALF_HEIGHT * MILLI,
        unit_center_x(u, start_x),
        unit_center_y(u, start_y),
        HALF_CELL_SIZE * MILLI,
        HALF_CELL_SIZE * MILLI,
    )
}

/// A live projectile overlaps a live bonus unit, which carries the same
/// cell-sized box as a swarm unit.
pub open spec fn projectile_hits_starship(p: Projectile, sh: Starship) -> bool {
    p.alive && sh.alive && aabb_overlaps(
        p.x_milli as int,
        p.y_milli as int,
        PROJECTILE_HALF_WIDTH * MILLI,
        PROJECTILE_HALF_HEIGHT * MILLI,
        sh.x_milli as int,
        sh.y_milli as int,
        HALF_CELL_SIZE * MILLI,
        HALF_CELL_SIZE * MILLI,
    )
}

/// The hits one projectile detects against a swarm registry, in registry
/// order.
pub open spec fn invader_hits(start_x: int, start_y: int, p: Projectile, units: Seq<Invader>) -> Seq<
    HitDetected,
>
    decreases units.len(),
{
    if units.len() == 0 {
        Seq::empty()
    } else {
        invader_hits(start_x, start_y, p, units.drop_last()) + if projectile_hits_invader(
            start_x,
            start_y,
            p,
            units.last(),
        ) {
            seq![HitDetected { unit: units.last().id, projectile: p.id }]
        } else {
            Seq::empty()
        }
    }
}

/// The hits one projectile detects against the bonus units, in registry
/// order.
pub open spec fn starship_hits(p: Projectile, ships: Seq<Starship>) -> Seq<HitDetected>
    decreases ships.len(),
{
    if ships.len() == 0 {
        Seq::empty()
    } else {
        starship_hits(p, ships.drop_last()) + if projectile_hits_starship(p, ships.last()) {
            seq![HitDetected { unit: ships.last().id, projectile: p.id }]
        } else {
            Seq::empty()
        }
    }
}

/// All hits one projectile detects: every swarm unit first, then every
/// bonus unit.
pub open spec fn hits_for_projectile(
    start_x: int,
    start_y: int,
    units: Seq<Invader>,
    ships: Seq<Starship>,
    p: Projectile,
) -> Seq<HitDetected> {
    invader_hits(start_x, start_y, p, units) + starship_hits(p, ships)
}

/// The tick's whole hit-event queue: every projectile's detections, in
/// registry order.
pub open spec fn all_hits(
    start_x: int,
    start_y: int,
    units: Seq<Invader>,
    ships: Seq<Starship>,
    ps: Seq<Projectile>,
) -> Seq<HitDetected>
    decreases ps.len(),
{
    if ps.len() == 0 {
        Seq::empty()
    } else {
        all_hits(start_x, start_y, units, ships, ps.drop_last()) + hits_for_projectile(
            start_x,
            start_y,
            units,
            ships,
            ps.last(),
        )
    }
}

/// Some hit event in the queue names this unit identity.
pub open spec fn hits_name_unit(hits: Seq<HitDetected>, id: u64) -> bool {
    exists|k: int| 0 <= k < hits.len() && (#[trigger] hits[k]).unit == id
}

/// Some hit event in the queue names this projectile identity.
pub open spec fn hits_name_projectile(hits: Seq<HitDetected>, id: u64) -> bool {
    exists|k: int| 0 <= k < hits.len() && (#[trigger] hits[k]).projectile == id
}

/// A swarm unit after the resolution pass: destroyed — marked `Dying` and
/// retired at once, since no exit animation exists — exactly when it was
/// still alive and some hit event names it. A unit already destroyed is
/// untouched: later duplicate events are dropped.
pub open spec fn resolved_invader(u: Invader, hits: Seq<HitDetected>) -> Invader {
    if u.alive && hits_name_unit(hits, u.id) {
        Invader { alive: false, state: InvaderState::Dying, ..u }
    } else {
        u
    }
}

/// A projectile after the resolution pass: destroyed exactly when it was
/// still alive and some hit event names it.
pub open spec fn resolved_projectile(p: Projectile, hits: Seq<HitDetected>) -> Projectile {
    if p.alive && hits_name_projectile(hits, p.id) {
        Projectile { alive: false, ..p }
    } else {
        p
    }
}

/// A bonus unit after the resolution pass: destroyed exactly when it was
/// still alive and some hit event names it.
pub open spec fn resolved_starship(sh: Starship, hits: Seq<HitDetected>) -> Starship {
    if sh.alive && hits_name_unit(hits, sh.id) {
        Starship { alive: false, ..sh }
    } else {
        sh
    }
}

/// The whole projectile registry after the movement pass.
pub open spec fn moved_projectiles(ps: Seq<Projectile>, delta: u64) -> Seq<Projectile> {
    ps.map_values(|p: Projectile| moved_projectile(p, delta))
}

/// The whole projectile registry after the despawn pass.
pub open spec fn culled_projectiles(ps: Seq<Projectile>, hh: int) -> Seq<Projectile> {
    ps.map_values(|p: Projectile| culled_projectile(p, hh))
}

/// The whole swarm registry after the resolution pass.
pub open spec fn resolved_invaders(us: Seq<Invader>, hits: Seq<HitDetected>) -> Seq<Invader> {
    us.map_values(|u: Invader| resolved_invader(u, hits))
}

/// The whole projectile registry after the resolution pass.
pub open spec fn resolved_projectiles(ps: Seq<Projectile>, hits: Seq<HitDetected>) -> Seq<
    Projectile,
> {
    ps.map_values(|p: Projectile| resolved_projectile(p, hits))
}

/// The whole bonus-unit registry after the resolution pass.
pub open spec fn resolved_starships(ss: Seq<Starship>, hits: Seq<HitDetected>) -> Seq<Starship> {
    ss.map_values(|sh: Starship| resolved_starship(sh, hits))
}

/// How many swarm units a resolution pass took from alive to destroyed,
/// position by position.
pub open spec fn credited_count(olds: Seq<Invader>, news: Seq<Invader>) -> int
    decreases olds.len(),
{
    if olds.len() == 0 || news.len() != olds.len() {
        0
    } else {
        credited_count(olds.drop_last(), news.drop_last()) + if olds.last().alive
            && !news.last().alive {
            1int
        } else {
            0int
        }
    }
}

/// The total worth of the swarm units a resolution pass took from alive to
/// destroyed: each destroyed unit's worth is consumed exactly once.
pub open spec fn credited_sum(olds: Seq<Invader>, news: Seq<Invader>) -> int
    decreases olds.len(),
{
    if olds.len() == 0 || news.len() != olds.len() {
        0
    } else {
        credited_sum(olds.drop_last(), news.drop_last()) + if olds.last().alive
            && !news.last().alive {
            olds.last().worth.0 as int
        } else {
            0int
        }
    }
}

/// How many bonus units a resolution pass took from alive to destroyed.
pub open spec fn credited_ship_count(olds: Seq<Starship>, news: Seq<Starship>) -> int
    decreases olds.len(),
{
    if olds.len() == 0 || news.len() != olds.len() {
        0
    } else {
        credited_ship_count(olds.drop_last(), news.drop_last()) + if olds.last().alive
            && !news.last().alive {
            1int
        } else {
            0int
        }
    }
}

/// The total worth of the bonus units a resolution pass took from alive to
/// destroyed.
pub open spec fn credited_ship_sum(olds: Seq<Starship>, news: Seq<Starship>) -> int
    decreases olds.len(),
{
    if olds.len() == 0 || news.len() != olds.len() {
        0
    } else {
        credited_ship_sum(olds.drop_last(), news.drop_last()) + if olds.last().alive
            && !news.last().alive {
            olds.last().worth.0 as int
        } else {
            0int
        }
    }
}

/// A unit was credited by a resolution pass: it went from alive to
/// destroyed at its registry position.
pub open spec fn unit_credited(olds: Seq<Invader>, news: Seq<Invader>, i: int) -> bool {
    olds[i].alive && !news[i].alive
}

impl Simulation {
    /// The fire pass: a fire input spawns one projectile at the player's
    /// position, a fixed offset above it, with a fresh identity. Without a
    /// player on the field the input is ignored for this tick.
    pub fn spawn_projectile(&mut self, fire: bool)
        requires
            old(self).wf(),
        ensures
            final(self).wf(),
            old(self).player matches Some(p) ==> ((fire && old(self).next_id < u64::MAX) ==> {
                &&& final(self).projectiles@ == old(self).projectiles@.push(
                    spawned_projectile(p, old(self).next_id),
                )
                &&& *final(self) == (Simulation {
                    projectiles: final(self).projectiles,
                    next_id: (old(self).next_id + 1) as u64,
                    ..*old(self)
                })
            }),
            !projectile_fired(*old(self), fire) ==> *final(self) == *old(self),
    {
        if fire && self.next_id < u64::MAX {
            if let Some(p) = self.player {
                let proj = Projectile {
                    id: self.next_id,
                    x_milli: p.x_milli,
                    y_milli: p.y_milli + PROJECTILE_OFFSET * MILLI,
                    alive: true,
                };
                self.projectiles.push(proj);
                self.next_id = self.next_id + 1;
            }
        }
    }

    /// The projectile-movement pass: every live projectile rises by its
    /// speed times the elapsed frame time.
    pub fn move_projectile(&mut self, delta: u64)
        requires
            old(self).wf(),
            delta <= DELTA_LIMIT,
        ensures
            final(self).wf(),
            final(self).projectiles@.len() == old(self).projectiles@.len(),
            forall|i: int|
                0 <= i < old(self).projectiles@.len()
                    ==> (#[trigger] final(self).projectiles@[i]) == moved_projectile(
                    old(self).projectiles@[i],
                    delta,
                ),
            final(self).projectiles@ == moved_projectiles(old(self).projectiles@, delta),
            *final(self) == (Simulation { projectiles: final(self).projectiles, ..*old(self) }),
    {
        let n = self.projectiles.len();
        let mut i: usize = 0;
        while i < n
            invariant
                0 <= i <= n,
                n == self.projectiles@.len() == old(self).projectiles@.len(),
                delta <= DELTA_LIMIT,
                old(self).wf(),
                forall|j: int|
                    0 <= j < i ==> (#[trigger] self.projectiles@[j]) == moved_projectile(
                        old(self).projectiles@[j],
                        delta,
                    ),
                forall|j: int| i <= j < n ==> self.projectiles@[j] == old(self).projectiles@[j],
                *self == (Simulation { projectiles: self.projectiles, ..*old(self) }),
            decreases n - i,
        {
            let mut p = self.projectiles[i];
            assert(p == old(self).projectiles@[i as int]);
            if p.alive && p.y_milli <= FLIGHT_LIMIT_MILLI {
                p.y_milli = p.y_milli + PROJECTILE_SPEED * delta as i64;
                self.projectiles.set(i, p);
            }
            i = i + 1;
        }
        assert(self.projectiles@ =~= moved_projectiles(old(self).projectiles@, delta));
    }

    /// The projectile-despawn pass: retire every live projectile whose
    /// position has left the field through the top border.
    pub fn despawn_projectiles(&mut self)
        requires
            old(self).wf(),
        ensures
            final(self).wf(),
            final(self).projectiles@.len() == old(self).projectiles@.len(),
            forall|i: int|
                0 <= i < old(self).projectiles@.len()
                    ==> (#[trigger] final(self).projectiles@[i]) == culled_projectile(
                    old(self).projectiles@[i],
                    old(self).half_height(),
                ),
            final(self).projectiles@ == culled_projectiles(
                old(self).projectiles@,
                old(self).half_height(),
            ),
            *final(self) == (Simulation { projectiles: final(self).projectiles, ..*old(self) }),
    {
        let threshold = (self.height / 2) * MILLI;
        let n = self.projectiles.len();
        let mut i: usize = 0;
        while i < n
            invariant
                0 <= i <= n,
                n == self.projectiles@.len() == old(self).projectiles@.len(),
                old(self).wf(),
                threshold == old(self).half_height() * MILLI,
                forall|j: int|
                    0 <= j < i ==> (#[trigger] self.projectiles@[j]) == culled_projectile(
                        old(self).projectiles@[j],
                        old(self).half_height(),
                    ),
                forall|j: int| i <= j < n ==> self.projectiles@[j] == old(self).projectiles@[j],
                *self == (Simulation { projectiles: self.projectiles, ..*old(self) }),
            decreases n - i,
        {
            let mut p = self.projectiles[i];
            if p.alive && p.y_milli > threshold {
                p.alive = false;
                self.projectiles.set(i, p);
            }
            i = i + 1;
        }
        assert(self.projectiles@ =~= culled_projectiles(
            old(self).projectiles@,
            old(self).half_height(),
        ));
    }
}

impl Simulation {
    /// The detection pass: test every live projectile against every live
    /// swarm and bonus unit by bounding-box overlap on their render-space
    /// positions, and emit one hit event per overlapping pair, in registry
    /// order. Detection mutates no entity; resolution is a separate pass.
    pub fn hit_invader(&self) -> (hits: Vec<HitDetected>)
        requires
            self.wf(),
        ensures
            hits@ == all_hits(
                self.start_x(),
                self.start_y(),
                self.invaders@,
                self.starships@,
                self.projectiles@,
            ),
    {
        proof {
            vstd::arithmetic::div_mod::lemma_div_pos_is_pos(self.width as int, 2);
            vstd::arithmetic::div_mod::lemma_div_basics_5(self.width as int, 2);
            vstd::arithmetic::div_mod::lemma_div_pos_is_pos(self.height as int, 2);
            vstd::arithmetic::div_mod::lemma_div_basics_5(self.height as int, 2);
        }
        let start_x = -(self.width / 2);
        let start_y = self.height / 2;
        let np = self.projectiles.len();
        let nu = self.invaders.len();
        let ns = self.starships.len();
        let mut hits: Vec<HitDetected> = Vec::new();
        assert(self.projectiles@.subrange(0, 0) =~= Seq::<Projectile>::empty());
        let mut i: usize = 0;
        while i < np
            invariant
                0 <= i <= np,
                np == self.projectiles@.len(),
                nu == self.invaders@.len(),
                ns == self.starships@.len(),
                self.wf(),
                start_x == self.start_x(),
                start_y == self.start_y(),
                -COORD_LIMIT <= start_x <= COORD_LIMIT,
                -COORD_LIMIT <= start_y <= COORD_LIMIT,
                hits@ == all_hits(
                    self.start_x(),
                    self.start_y(),
                    self.invaders@,
                    self.starships@,
                    self.projectiles@.subrange(0, i as int),
                ),
            decreases np - i,
        {
            let p = self.projectiles[i];
            let ghost hits_before = hits@;
            assert(self.invaders@.subrange(0, 0) =~= Seq::<Invader>::empty());
            let mut j: usize = 0;
            while j < nu
                invariant
                    0 <= j <= nu,
                    np == self.projectiles@.len(),
                    nu == self.invaders@.len(),
                    ns == self.starships@.len(),
                    self.wf(),
                    start_x == self.start_x(),
                    start_y == self.start_y(),
                    -COORD_LIMIT <= start_x <= COORD_LIMIT,
                    -COORD_LIMIT <= start_y <= COORD_LIMIT,
                    0 <= i < np,
                    p == self.projectiles@[i as int],
                    hits@ == hits_before + invader_hits(
                        self.start_x(),
                        self.start_y(),
                        p,
                        self.invaders@.subrange(0, j as int),
                    ),
                decreases nu - j,
            {
                let u = self.invaders[j];
                if p.alive && u.alive {
                    let t = u.grid_position.get_transform(start_x, start_y);
                    let hit = collide(
                        p.x_milli,
                        p.y_milli,
                        PROJECTILE_HALF_WIDTH * MILLI,
                        PROJECTILE_HALF_HEIGHT * MILLI,
                        t.x * MILLI,
                        t.y * MILLI,
                        HALF_CELL_SIZE * MILLI,
                        HALF_CELL_SIZE * MILLI,
                    );
                    if hit {
                        hits.push(HitDetected { unit: u.id, projectile: p.id });
                    }
                }
                proof {
                    let longer = self.invaders@.subrange(0, j + 1);
                    assert(longer.drop_last() =~= self.invaders@.subrange(0, j as int));
                    assert(longer.last() == u);
                    assert(hits@ =~= hits_before + invader_hits(
                        self.start_x(),
                        self.start_y(),
                        p,
                        longer,
                    ));
                }
                j = j + 1;
            }
            assert(self.invaders@.subrange(0, nu as int) =~= self.invaders@);
            let ghost hits_mid = hits@;
            assert(self.starships@.subrange(0, 0) =~= Seq::<Starship>::empty());
            let mut k: usize = 0;
            while k < ns
                invariant
                    0 <= k <= ns,
                    np == self.projectiles@.len(),
                    ns == self.starships@.len(),
                    self.wf(),
                    0 <= i < np,
                    p == self.projectiles@[i as int],
                    hits_mid == hits_before + invader_hits(
                        self.start_x(),
                        self.start_y(),
                        p,
                        self.invaders@,
                    ),
                    hits@ == hits_mid + starship_hits(p, self.starships@.subrange(0, k as int)),
                decreases ns - k,
            {
                let sh = self.starships[k];
                if p.alive && sh.alive {
                    let hit = collide(
                        p.x_milli,
                        p.y_milli,
                        PROJECTILE_HALF_WIDTH * MILLI,
                        PROJECTILE_HALF_HEIGHT * MILLI,
                        sh.x_milli,
                        sh.y_milli,
                        HALF_CELL_SIZE * MILLI,
                        HALF_CELL_SIZE * MILLI,
                    );
                    if hit {
                        hits.push(HitDetected { unit: sh.id, projectile: p.id });
                    }
                }
                proof {
                    let longer = self.starships@.subrange(0, k + 1);
                    assert(longer.drop_last() =~= self.starships@.subrange(0, k as int));
                    assert(longer.last() == sh);
                    assert(hits@ =~= hits_mid + starship_hits(p, longer));
                }
                k = k + 1;
            }
            proof {
                assert(self.starships@.subrange(0, ns as int) =~= self.starships@);
                let longer = self.projectiles@.subrange(0, i + 1);
                assert(longer.drop_last() =~= self.projectiles@.subrange(0, i as int));
                assert(longer.last() == p);
                assert(hits@ =~= all_hits(
                    self.start_x(),
                    self.start_y(),
                    self.invaders@,
                    self.starships@,
                    longer,
                ));
            }
            i = i + 1;
        }
        assert(self.projectiles@.subrange(0, np as int) =~= self.projectiles@);
        hits
    }

    /// The resolution pass: consume the tick's hit events. Each event
    /// destroys its projectile and its unit, each at most once however many
    /// events name it this tick; each confirmed swarm kill decrements the
    /// live-unit count exactly once; and exactly one scoring event per
    /// destroyed unit is emitted, carrying that unit's worth. An event
    /// naming an already-destroyed unit is dropped: no double scoring, no
    /// count decrement past the kill that retired the unit.
    pub fn handle_hit(&mut self, hits: &Vec<HitDetected>) -> (events: Vec<ScoreIncreased>)
        requires
            old(self).wf(),
        ensures
            final(self).wf(),
            final(self).invaders@.len() == old(self).invaders@.len(),
            final(self).projectiles@.len() == old(self).projectiles@.len(),
            final(self).starships@.len() == old(self).starships@.len(),
            forall|i: int|
                0 <= i < old(self).invaders@.len() ==> (#[trigger] final(self).invaders@[i])
                    == resolved_invader(old(self).invaders@[i], hits@),
            forall|i: int|
                0 <= i < old(self).projectiles@.len() ==> (#[trigger] final(self).projectiles@[i])
                    == resolved_projectile(old(self).projectiles@[i], hits@),
            forall|i: int|
                0 <= i < old(self).starships@.len() ==> (#[trigger] final(self).starships@[i])
                    == resolved_starship(old(self).starships@[i], hits@),
            final(self).invaders@ == resolved_invaders(old(self).invaders@, hits@),
            final(self).projectiles@ == resolved_projectiles(old(self).projectiles@, hits@),
            final(self).starships@ == resolved_starships(old(self).starships@, hits@),
            final(self).invader_count.0 == old(self).invader_count.0 - credited_count(
                old(self).invaders@,
                final(self).invaders@,
            ),
            final(self).invader_count.0 <= old(self).invader_count.0,
            events@.len() == credited_count(old(self).invaders@, final(self).invaders@)
                + credited_ship_count(old(self).starships@, final(self).starships@),
            sum_events(events@) == credited_sum(old(self).invaders@, final(self).invaders@)
                + credited_ship_sum(old(self).starships@, final(self).starships@),
            *final(self) == (Simulation {
                invaders: final(self).invaders,
                projectiles: final(self).projectiles,
                starships: final(self).starships,
                invader_count: final(self).invader_count,
                ..*old(self)
            }),
    {
        let mut events: Vec<ScoreIncreased> = Vec::new();
        let nu = self.invaders.len();
        let np = self.projectiles.len();
        let ns = self.starships.len();
        assert(self.invaders@.subrange(0, 0) =~= Seq::<Invader>::empty());
        let mut i: usize = 0;
        while i < nu
            invariant
                0 <= i <= nu,
                nu == self.invaders@.len() == old(self).invaders@.len(),
                old(self).wf(),
                forall|j: int|
                    0 <= j < i ==> (#[trigger] self.invaders@[j]) == resolved_invader(
                        old(self).invaders@[j],
                        hits@,
                    ),
                forall|j: int| i <= j < nu ==> self.invaders@[j] == old(self).invaders@[j],
                self.invader_count.0 == count_alive(self.invaders@),
                self.invader_count.0 == old(self).invader_count.0 - credited_count(
                    old(self).invaders@.subrange(0, i as int),
                    self.invaders@.subrange(0, i as int),
                ),
                events@.len() == credited_count(
                    old(self).invaders@.subrange(0, i as int),
                    self.invaders@.subrange(0, i as int),
                ),
                sum_events(events@) == credited_sum(
                    old(self).invaders@.subrange(0, i as int),
                    self.invaders@.subrange(0, i as int),
                ),
                *self == (Simulation {
                    invaders: self.invaders,
                    invader_count: self.invader_count,
                    ..*old(self)
                }),
            decreases nu - i,
        {
            let ghost old_pre = old(self).invaders@.subrange(0, i as int);
            let ghost cur_pre = self.invaders@.subrange(0, i as int);
            let ghost events_pre = events@;
            let mut u = self.invaders[i];
            if u.alive && hits_contain_unit(hits, u.id) {
                u.alive = false;
                u.state = InvaderState::Dying;
                proof {
                    lemma_count_alive_pos(self.invaders@, i as int);
                    lemma_count_alive_update(self.invaders@, i as int, u);
                }
                self.invaders.set(i, u);
                self.decrease_invader_count();
                events.push(ScoreIncreased(u.worth.0));
                proof {
                    assert(events@.drop_last() =~= events_pre);
                }
            }
            proof {
                let o2 = old(self).invaders@.subrange(0, i + 1);
                let c2 = self.invaders@.subrange(0, i + 1);
                assert(o2.drop_last() =~= old_pre);
                assert(c2.drop_last() =~= cur_pre);
                assert(o2.last() == old(self).invaders@[i as int]);
                assert(c2.last() == self.invaders@[i as int]);
            }
            i = i + 1;
        }
        assert(old(self).invaders@.subrange(0, nu as int) =~= old(self).invaders@);
        assert(self.invaders@.subrange(0, nu as int) =~= self.invaders@);
        let ghost inv_count = credited_count(old(self).invaders@, self.invaders@);
        let ghost inv_sum = credited_sum(old(self).invaders@, self.invaders@);
        let mut pi: usize = 0;
        while pi < np
            invariant
                0 <= pi <= np,
                np == self.projectiles@.len() == old(self).projectiles@.len(),
                nu == self.invaders@.len() == old(self).invaders@.len(),
                old(self).wf(),
                forall|j: int|
                    0 <= j < nu ==> (#[trigger] self.invaders@[j]) == resolved_invader(
                        old(self).invaders@[j],
                        hits@,
                    ),
                self.invader_count.0 == count_alive(self.invaders@),
                self.invader_count.0 == old(self).invader_count.0 - inv_count,
                inv_count == credited_count(old(self).invaders@, self.invaders@),
                inv_sum == credited_sum(old(self).invaders@, self.invaders@),
                events@.len() == inv_count,
                sum_events(events@) == inv_sum,
                forall|j: int|
                    0 <= j < pi ==> (#[trigger] self.projectiles@[j]) == resolved_projectile(
                        old(self).projectiles@[j],
                        hits@,
                    ),
                forall|j: int| pi <= j < np ==> self.projectiles@[j] == old(self).projectiles@[j],
                *self == (Simulation {
                    invaders: self.invaders,
                    projectiles: self.projectiles,
                    invader_count: self.invader_count,
                    ..*old(self)
                }),
            decreases np - pi,
        {
            let mut p = self.projectiles[pi];
            if p.alive && hits_contain_projectile(hits, p.id) {
                p.alive = false;
                self.projectiles.set(pi, p);
            }
            pi = pi + 1;
        }
        assert(self.starships@.subrange(0, 0) =~= Seq::<Starship>::empty());
        assert(old(self).starships@.subrange(0, 0) =~= Seq::<Starship>::empty());
        let mut si: usize = 0;
        while si < ns
            invariant
                0 <= si <= ns,
                ns == self.starships@.len() == old(self).starships@.len(),
                np == self.projectiles@.len() == old(self).projectiles@.len(),
                nu == self.invaders@.len() == old(self).invaders@.len(),
                old(self).wf(),
                forall|j: int|
                    0 <= j < nu ==> (#[trigger] self.invaders@[j]) == resolved_invader(
                        old(self).invaders@[j],
                        hits@,
                    ),
                forall|j: int|
                    0 <= j < np ==> (#[trigger] self.projectiles@[j]) == resolved_projectile(
                        old(self).projectiles@[j],
                        hits@,
                    ),
                self.invader_count.0 == count_alive(self.invaders@),
                self.invader_count.0 == old(self).invader_count.0 - inv_count,
                inv_count == credited_count(old(self).invaders@, self.invaders@),
                inv_sum == credited_sum(old(self).invaders@, self.invaders@),
                forall|j: int|
                    0 <= j < si ==> (#[trigger] self.starships@[j]) == resolved_starship(
                        old(self).starships@[j],
                        hits@,
                    ),
                forall|j: int| si <= j < ns ==> self.starships@[j] == old(self).starships@[j],
                events@.len() == inv_count + credited_ship_count(
                    old(self).starships@.subrange(0, si as int),
                    self.starships@.subrange(0, si as int),
                ),
                sum_events(events@) == inv_sum + credited_ship_sum(
                    old(self).starships@.subrange(0, si as int),
                    self.starships@.subrange(0, si as int),
                ),
                *self == (Simulation {
                    invaders: self.invaders,
                    projectiles: self.projectiles,
                    starships: self.starships,
                    invader_count: self.invader_count,
                    ..*old(self)
                }),
            decreases ns - si,
        {
            let ghost old_pre = old(self).starships@.subrange(0, si as int);
            let ghost cur_pre = self.starships@.subrange(0, si as int);
            let ghost events_pre = events@;
            let mut sh = self.starships[si];
            if sh.alive && hits_contain_unit(hits, sh.id) {
                sh.alive = false;
                self.starships.set(si, sh);
                events.push(ScoreIncreased(sh.worth.0));
                proof {
                    assert(events@.drop_last() =~= events_pre);
                }
            }
            proof {
                let o2 = old(self).starships@.subrange(0, si + 1);
                let c2 = self.starships@.subrange(0, si + 1);
                assert(o2.drop_last() =~= old_pre);
                assert(c2.drop_last() =~= cur_pre);
                assert(o2.last() == old(self).starships@[si as int]);
                assert(c2.last() == self.starships@[si as int]);
            }
            si = si + 1;
        }
        assert(old(self).starships@.subrange(0, ns as int) =~= old(self).starships@);
        assert(self.starships@.subrange(0, ns as int) =~= self.starships@);
        proof {
            lemma_credited_count_nonneg(old(self).invaders@, self.invaders@);
            assert(self.invaders@ =~= resolved_invaders(old(self).invaders@, hits@));
            assert(self.projectiles@ =~= resolved_projectiles(old(self).projectiles@, hits@));
            assert(self.starships@ =~= resolved_starships(old(self).starships@, hits@));
        }
        events
    }
}

/// A resolution pass can only take units from alive to destroyed, so its
/// credit tally is never negative.
pub proof fn lemma_credited_count_nonneg(olds: Seq<Invader>, news: Seq<Invader>)
    ensures
        credited_count(olds, news) >= 0,
    decreases olds.len(),
{
    if olds.len() > 0 && news.len() == olds.len() {
        lemma_credited_count_nonneg(olds.drop_last(), news.drop_last());
    }
}

/// Worths are never negative, so a resolution pass's swarm credit total is
/// never negative.
pub proof fn lemma_credited_sum_nonneg(olds: Seq<Invader>, news: Seq<Invader>)
    ensures
        credited_sum(olds, news) >= 0,
    decreases olds.len(),
{
    if olds.len() > 0 && news.len() == olds.len() {
        lemma_credited_sum_nonneg(olds.drop_last(), news.drop_last());
    }
}

/// Worths are never negative, so a resolution pass's bonus credit total is
/// never negative.
pub proof fn lemma_credited_ship_sum_nonneg(olds: Seq<Starship>, news: Seq<Starship>)
    ensures
        credited_ship_sum(olds, news) >= 0,
    decreases olds.len(),
{
    if olds.len() > 0 && news.len() == olds.len() {
        lemma_credited_ship_sum_nonneg(olds.drop_last(), news.drop_last());
    }
}

/// At most one scoring event is emitted per unit across its entire
/// lifetime: the resolution pass credits a unit exactly when it takes that
/// unit from alive to destroyed, every pass leaves destroyed units
/// destroyed, and a destroyed unit can never again make that transition —
/// so a unit credited by one resolution pass cannot be credited by any
/// later one.
pub proof fn lemma_unit_scored_at_most_once(
    first_old: Seq<Invader>,
    first_new: Seq<Invader>,
    later_old: Seq<Invader>,
    later_new: Seq<Invader>,
    i: int,
)
    requires
        0 <= i < first_old.len(),
        first_new.len() == first_old.len(),
        0 <= i < later_old.len(),
        later_new.len() == later_old.len(),
        unit_credited(first_old, first_new, i),
        !first_new[i].alive ==> !later_old[i].alive,
    ensures
        !unit_credited(later_old, later_new, i),
{
}

/// Whether some hit event in this queue names the given unit identity.
fn hits_contain_unit(hits: &Vec<HitDetected>, id: u64) -> (r: bool)
    ensures
        r == hits_name_unit(hits@, id),
{
    let n = hits.len();
    let mut k: usize = 0;
    while k < n
        invariant
            0 <= k <= n,
            n == hits@.len(),
            forall|j: int| 0 <= j < k ==> (#[trigger] hits@[j]).unit != id,
        decreases n - k,
    {
        if hits[k].unit == id {
            return true;
        }
        k = k + 1;
    }
    false
}

/// Whether some hit event in this queue names the given projectile
/// identity.
fn hits_contain_projectile(hits: &Vec<HitDetected>, id: u64) -> (r: bool)
    ensures
        r == hits_name_projectile(hits@, id),
{
    let n = hits.len();
    let mut k: usize = 0;
    while k < n
        invariant
            0 <= k <= n,
            n == hits@.len(),
            forall|j: int| 0 <= j < k ==> (#[trigger] hits@[j]).projectile != id,
        decreases n - k,
    {
        if hits[k].projectile == id {
            return true;
        }
        k = k + 1;
    }
    false
}

} // verus!
