//! The simulation context: one state object owning the unit registry, the
//! counters and the game phase, advanced in discrete ticks by a fixed pass
//! order. All shared state has exactly one logical writer per field per
//! tick, enforced by that pass order.

use vstd::prelude::*;
use crate::grid::{Grid, CELL_SIZE, HALF_CELL_SIZE, MILLI};
use crate::invader::{
    Direction,
    animated_invader,
    animated_invaders,
    count_alive,
    dir_after,
    moved_invader,
    edge_events,
    lemma_count_alive_bounds,
    moved_invaders,
    reversed_invaders,
    Invader,
    InvaderCount,
    TimerConfig,
};
use crate::player::{player_after_input, Player, BOTTOM_OFFSET};
use crate::projectile::{
    all_hits,
    credited_count,
    resolved_invader,
    credited_ship_sum,
    credited_sum,
    culled_projectiles,
    moved_projectiles,
    resolved_invaders,
    resolved_projectiles,
    resolved_starships,
    spawned_projectile,
    HitDetected,
    Projectile,
};
use crate::score::{saturated_add, sum_events, Score};
use crate::spaceship::{
    culled_ships,
    moved_ships,
    ship_spawns,
    spawned_ship,
    Starship,
    SPACESHIP_SPAWN_PERIOD,
};
use crate::{GameState, Timer, DELTA_LIMIT};

verus! {

/// Machine limit on the viewport extent, in render units.
pub const VIEW_LIMIT: i64 = 0x1000_0000;

/// The farthest any continuously moving entity can travel in one tick, in
/// thousandths of a render unit: the highest speed in the game times the
/// largest elapsed time one tick accepts.
pub const MAX_STEP_MILLI: i64 = 300 * 0x100_0000;

/// Machine limit on how far a continuously moving entity can fly, in
/// thousandths of a render unit: movement saturates here, far beyond any
/// field, so a coordinate can never overflow. The per-tick despawn passes
/// retire entities at the field border long before this.
pub const FLIGHT_LIMIT_MILLI: i64 = 0x4_0000_0000_0000;

/// Default period of a swarm unit's movement and animation timers, in time
/// units (milliseconds).
pub const MOVE_PERIOD: u64 = 1000;

/// Floor the movement period may shrink to, in time units.
pub const MIN_MOVE_PERIOD: u64 = 500;

/// Step by which the movement period may shrink, in time units.
pub const MOVE_PERIOD_DECREMENT: u64 = 100;

/// What one active tick leaves behind, stated over the mathematical views
/// of the registries: the pass order of a tick, written out as a function.
pub struct TickOutcome {
    pub player: Option<Player>,
    pub invaders: Seq<Invader>,
    pub projectiles: Seq<Projectile>,
    pub starships: Seq<Starship>,
    pub score: int,
    pub invader_count: int,
    pub state: GameState,
    pub spawn_timer: Timer,
    pub next_id: u64,
}

/// Configuration degeneracy: the grid is too small to place the required
/// swarm. Fatal at wave start; the core refuses to start the wave rather
/// than spawn a malformed swarm.
#[derive(Clone, Copy, PartialEq, Eq, Structural, Debug)]
pub enum ConfigError {
    GridTooSmall,
}

/// The whole simulation state: field geometry, game phase, unit registry,
/// counters and timers. Components never touch ambient globals; every pass
/// reads and writes this context explicitly.
pub struct Simulation {
    /// Field extent in cells, derived once from the viewport.
    pub grid: Grid,
    /// Viewport width in render units.
    pub width: i64,
    /// Viewport height in render units.
    pub height: i64,
    /// Top-level game phase.
    pub state: GameState,
    /// Accumulated score for this session.
    pub score: Score,
    /// Number of live swarm units.
    pub invader_count: InvaderCount,
    /// The swarm registry. Destroyed units keep their record with `alive`
    /// cleared; identities are never reused within a session.
    pub invaders: Vec<Invader>,
    /// Projectiles, live and retired.
    pub projectiles: Vec<Projectile>,
    /// Bonus units, live and retired.
    pub starships: Vec<Starship>,
    /// The player avatar, absent until spawned.
    pub player: Option<Player>,
    /// Cadence of the bonus-unit spawner.
    pub spawn_timer: Timer,
    /// Cadence configuration for swarm movement timers.
    pub timer_config: TimerConfig,
    /// Whether the spawner skips its turn while a bonus unit is alive (the
    /// strict singleton policy) or spawns unconditionally.
    pub guard_bonus_spawn: bool,
    /// Identity source: every id ever handed out is below this.
    pub next_id: u64,
}

impl Simulation {
    /// Half the viewport width, in render units: the field spans
    /// `-half_width() .. half_width()`.
    pub open spec fn half_width(self) -> int {
        self.width / 2
    }

    /// Half the viewport height, in render units.
    pub open spec fn half_height(self) -> int {
        self.height / 2
    }

    /// Render-space x of the field's left border: the origin the grid
    /// columns are laid out from.
    pub open spec fn start_x(self) -> int {
        -self.half_width()
    }

    /// Render-space y of the field's top border: the origin the grid rows
    /// are laid out from.
    pub open spec fn start_y(self) -> int {
        self.half_height()
    }

    /// The viewport is positive and bounded and the grid extent is exactly
    /// the viewport divided by the cell size.
    pub open spec fn geometry_wf(self) -> bool {
        &&& 0 < self.width <= VIEW_LIMIT
        &&& 0 < self.height <= VIEW_LIMIT
        &&& self.grid.columns == self.width / CELL_SIZE
        &&& self.grid.rows == self.height / CELL_SIZE
    }

    /// Every identity is unique, within and across the unit registries, and
    /// below the identity source.
    pub open spec fn ids_wf(self) -> bool {
        &&& forall|i: int, j: int|
            #![trigger self.invaders@[i], self.invaders@[j]]
            0 <= i < self.invaders@.len() && 0 <= j < self.invaders@.len() && i != j
                ==> self.invaders@[i].id != self.invaders@[j].id
        &&& forall|i: int| 0 <= i < self.invaders@.len() ==> (#[trigger] self.invaders@[i]).id < self.next_id
        &&& forall|i: int, j: int|
            #![trigger self.projectiles@[i], self.projectiles@[j]]
            0 <= i < self.projectiles@.len() && 0 <= j < self.projectiles@.len() && i != j
                ==> self.projectiles@[i].id != self.projectiles@[j].id
        &&& forall|i: int| 0 <= i < self.projectiles@.len() ==> (#[trigger] self.projectiles@[i]).id < self.next_id
        &&& forall|i: int, j: int|
            #![trigger self.starships@[i], self.starships@[j]]
            0 <= i < self.starships@.len() && 0 <= j < self.starships@.len() && i != j
                ==> self.starships@[i].id != self.starships@[j].id
        &&& forall|i: int| 0 <= i < self.starships@.len() ==> (#[trigger] self.starships@[i]).id < self.next_id
        &&& forall|i: int, j: int|
            #![trigger self.invaders@[i], self.starships@[j]]
            0 <= i < self.invaders@.len() && 0 <= j < self.starships@.len()
                ==> self.invaders@[i].id != self.starships@[j].id
    }

    /// Every swarm unit record is well formed and its movement timer runs on
    /// the configured cadence.
    pub open spec fn invaders_wf(self) -> bool {
        forall|i: int| 0 <= i < self.invaders@.len() ==> (#[trigger] self.invaders@[i]).wf()
    }

    /// Live projectiles fly within one step of the playable width, never
    /// below their spawn row and never past the flight limit upward (the
    /// despawn pass retires them at the field's top border long before).
    pub open spec fn projectiles_wf(self) -> bool {
        forall|i: int|
            0 <= i < self.projectiles@.len() && (#[trigger] self.projectiles@[i]).alive ==> {
                &&& -(self.half_width() * MILLI + MAX_STEP_MILLI) <= self.projectiles@[i].x_milli
                    <= self.half_width() * MILLI + MAX_STEP_MILLI
                &&& -(self.half_height() * MILLI) <= self.projectiles@[i].y_milli
                    <= FLIGHT_LIMIT_MILLI + MAX_STEP_MILLI
            }
    }

    /// A live bonus unit flies at the fixed bonus row, no farther right than
    /// its off-field spawn column and never past the flight limit leftward
    /// (the despawn pass retires it at the trailing edge long before).
    pub open spec fn starships_wf(self) -> bool {
        forall|i: int|
            0 <= i < self.starships@.len() && (#[trigger] self.starships@[i]).alive ==> {
                &&& -(FLIGHT_LIMIT_MILLI + MAX_STEP_MILLI) <= self.starships@[i].x_milli
                    <= (self.half_width() + 2 * CELL_SIZE) * MILLI
                &&& self.starships@[i].y_milli == (self.half_height() - HALF_CELL_SIZE) * MILLI
            }
    }

    /// The player, once spawned, sits at the fixed bottom row, within one
    /// step of the playable width.
    pub open spec fn player_wf(self) -> bool {
        match self.player {
            Some(p) => {
                &&& -(self.half_width() * MILLI + MAX_STEP_MILLI) <= p.x_milli
                    <= self.half_width() * MILLI + MAX_STEP_MILLI
                &&& p.y_milli == (-self.half_height() + BOTTOM_OFFSET) * MILLI
            },
            None => true,
        }
    }

    /// The tick-boundary invariant of the whole simulation. Established by
    /// the constructor, preserved by every pass and by every tick.
    pub open spec fn wf(self) -> bool {
        &&& self.geometry_wf()
        &&& self.ids_wf()
        &&& self.invaders_wf()
        &&& self.projectiles_wf()
        &&& self.starships_wf()
        &&& self.player_wf()
        &&& self.spawn_timer.wf()
        &&& self.timer_config.wf()
        &&& self.invader_count.0 == count_alive(self.invaders@)
    }

    /// Create a simulation for a viewport of the given extent, deriving the
    /// grid from the fixed cell size. The stricter bonus-spawn policy (skip
    /// a spawn while one is alive) is the default; `guard_bonus_spawn:
    /// false` selects the unconditional variant.
    pub fn new(width: i64, height: i64, guard_bonus_spawn: bool) -> (s: Simulation)
        requires
            0 < width <= VIEW_LIMIT,
            0 < height <= VIEW_LIMIT,
        ensures
            s.wf(),
            s.width == width,
            s.height == height,
            s.grid.columns == width / CELL_SIZE,
            s.grid.rows == height / CELL_SIZE,
            s.state is AssetLoading,
            s.score == (Score(0)),
            s.invader_count == (InvaderCount(0)),
            s.invaders@.len() == 0,
            s.projectiles@.len() == 0,
            s.starships@.len() == 0,
            s.player is None,
            s.spawn_timer == (Timer { elapsed: 0, period: SPACESHIP_SPAWN_PERIOD }),
            s.timer_config == (TimerConfig {
                period: MOVE_PERIOD,
                min_period: MIN_MOVE_PERIOD,
                decrement: MOVE_PERIOD_DECREMENT,
            }),
            s.guard_bonus_spawn == guard_bonus_spawn,
            s.next_id == 0,
    {
        let grid = Grid { rows: height / CELL_SIZE, columns: width / CELL_SIZE };
        Simulation {
            grid,
            width,
            height,
            state: GameState::AssetLoading,
            score: Score(0),
            invader_count: InvaderCount(0),
            invaders: Vec::new(),
            projectiles: Vec::new(),
            starships: Vec::new(),
            player: None,
            spawn_timer: Timer::new(SPACESHIP_SPAWN_PERIOD),
            timer_config: TimerConfig {
                period: MOVE_PERIOD,
                min_period: MIN_MOVE_PERIOD,
                decrement: MOVE_PERIOD_DECREMENT,
            },
            guard_bonus_spawn,
            next_id: 0,
        }
    }

    /// The asset-loading phase has completed: move to the spawning phase.
    /// In any other phase this is a no-op.
    pub fn assets_loaded(&mut self)
        requires
            old(self).wf(),
        ensures
            final(self).wf(),
            final(self).state == if old(self).state is AssetLoading {
                GameState::Spawning
            } else {
                old(self).state
            },
            *final(self) == (Simulation { state: final(self).state, ..*old(self) }),
    {
        if matches!(self.state, GameState::AssetLoading) {
            self.state = GameState::Spawning;
        }
    }

    /// Retire every entity of the session at once — the swarm, the
    /// projectiles, the bonus units and the player — as a phase transition
    /// (win, loss or restart) does, and zero the live-unit count.
    /// Identities are not reused: the identity source keeps its value.
    pub fn despawn_entities(&mut self)
        requires
            old(self).wf(),
        ensures
            final(self).wf(),
            final(self).invaders@.len() == 0,
            final(self).projectiles@.len() == 0,
            final(self).starships@.len() == 0,
            *final(self) == (Simulation {
                invaders: final(self).invaders,
                projectiles: final(self).projectiles,
                starships: final(self).starships,
                player: None,
                invader_count: InvaderCount(0),
                ..*old(self)
            }),
    {
        self.invaders = Vec::new();
        self.projectiles = Vec::new();
        self.starships = Vec::new();
        self.player = None;
        self.invader_count = InvaderCount(0);
    }

    /// The hit-event queue one active tick detects: collision runs after
    /// the movement passes, on the moved projectiles and the moved,
    /// reversed swarm, against the bonus units as they entered the tick.
    pub open spec fn tick_hits(self, delta: u64, fire: bool, left: bool, right: bool) -> Seq<
        HitDetected,
    > {
        let player1 = player_after_input(self.player, left, right, delta, self.half_width());
        let fired = fire && self.player is Some && self.next_id < u64::MAX;
        let proj1 = match player1 {
            Some(p) => if fired {
                self.projectiles@.push(spawned_projectile(p, self.next_id))
            } else {
                self.projectiles@
            },
            None => self.projectiles@,
        };
        let proj3 = culled_projectiles(moved_projectiles(proj1, delta), self.half_height());
        let inv1 = moved_invaders(self.invaders@, delta);
        let inv3 = animated_invaders(
            reversed_invaders(inv1, edge_events(inv1, self.grid.columns as int)),
            delta,
        );
        all_hits(self.start_x(), self.start_y(), inv3, self.starships@, proj3)
    }

    /// Everything one active tick produces, pass by pass in the fixed
    /// order: player movement, projectile spawn, flight and despawn, swarm
    /// movement, edge detection and swarm-wide reversal, animation,
    /// collision detection, resolution with its scoring events, score
    /// accumulation, the win check, and the bonus unit's despawn, spawn and
    /// flight.
    pub open spec fn tick_outcome(self, delta: u64, fire: bool, left: bool, right: bool) -> TickOutcome {
        let player1 = player_after_input(self.player, left, right, delta, self.half_width());
        let fired = fire && self.player is Some && self.next_id < u64::MAX;
        let nid1 = if fired {
            (self.next_id + 1) as u64
        } else {
            self.next_id
        };
        let proj1 = match player1 {
            Some(p) => if fired {
                self.projectiles@.push(spawned_projectile(p, self.next_id))
            } else {
                self.projectiles@
            },
            None => self.projectiles@,
        };
        let proj2 = moved_projectiles(proj1, delta);
        let proj3 = culled_projectiles(proj2, self.half_height());
        let inv1 = moved_invaders(self.invaders@, delta);
        let edges = edge_events(inv1, self.grid.columns as int);
        let inv2 = reversed_invaders(inv1, edges);
        let inv3 = animated_invaders(inv2, delta);
        let hits = self.tick_hits(delta, fire, left, right);
        let inv4 = resolved_invaders(inv3, hits);
        let proj4 = resolved_projectiles(proj3, hits);
        let ships1 = resolved_starships(self.starships@, hits);
        let count4 = self.invader_count.0 - credited_count(inv3, inv4);
        let score4 = saturated_add(
            self.score.0 as int,
            credited_sum(inv3, inv4) + credited_ship_sum(self.starships@, ships1),
        );
        let state4 = if count4 == 0 {
            GameState::PlayerWon
        } else {
            GameState::Active
        };
        let ships2 = culled_ships(ships1, self.half_width());
        let spawns = ship_spawns(self.spawn_timer, delta, self.guard_bonus_spawn, ships2, nid1);
        let ships3 = if spawns {
            ships2.push(
                spawned_ship(nid1, self.grid.columns as int, self.start_x(), self.start_y()),
            )
        } else {
            ships2
        };
        let ships4 = moved_ships(ships3, delta);
        let nid2 = if spawns {
            (nid1 + 1) as u64
        } else {
            nid1
        };
        TickOutcome {
            player: player1,
            invaders: inv4,
            projectiles: proj4,
            starships: ships4,
            score: score4,
            invader_count: count4,
            state: state4,
            spawn_timer: self.spawn_timer.spec_after(delta),
            next_id: nid2,
        }
    }

    /// One simulation tick, driven by the external frame clock and the
    /// tick's input pulses. Outside the active phase the tick does nothing.
    /// Within it, the passes run in the fixed documented order — movement
    /// (player, projectiles, swarm), edge detection and reversal, collision
    /// detection, resolution and scoring, the win check, and the bonus
    /// spawner — so every field has exactly one logical writer per tick,
    /// and every event queue raised in the tick is consumed in the same
    /// tick: the tick leaves exactly what `tick_outcome` states.
    #[verifier::rlimit(100)]
    pub fn tick(&mut self, delta: u64, fire: bool, left: bool, right: bool)
        requires
            old(self).wf(),
            delta <= DELTA_LIMIT,
        ensures
            final(self).wf(),
            !(old(self).state is Active) ==> *final(self) == *old(self),
            old(self).state is Active ==> (final(self).state is Active
                || final(self).state is PlayerWon),
            (old(self).state is Active && final(self).invader_count.0 == 0)
                ==> final(self).state is PlayerWon,
            old(self).state is Active ==> ({
                let o = old(self).tick_outcome(delta, fire, left, right);
                &&& final(self).player == o.player
                &&& final(self).invaders@ == o.invaders
                &&& final(self).projectiles@ == o.projectiles
                &&& final(self).starships@ == o.starships
                &&& final(self).score.0 == o.score
                &&& final(self).invader_count.0 == o.invader_count
                &&& final(self).state == o.state
                &&& final(self).spawn_timer == o.spawn_timer
                &&& final(self).next_id == o.next_id
                &&& final(self).grid == old(self).grid
                &&& final(self).width == old(self).width
                &&& final(self).height == old(self).height
                &&& final(self).timer_config == old(self).timer_config
                &&& final(self).guard_bonus_spawn == old(self).guard_bonus_spawn
            }),
    {
        if !matches!(self.state, GameState::Active) {
            return ;
        }
        self.move_player(left, right, delta);
        let ghost player1 = player_after_input(
            old(self).player,
            left,
            right,
            delta,
            old(self).half_width(),
        );
        let ghost fired = fire && old(self).player is Some && old(self).next_id < u64::MAX;
        let ghost nid1: u64 = if fired {
            (old(self).next_id + 1) as u64
        } else {
            old(self).next_id
        };
        assert(self.player == player1);
        self.spawn_projectile(fire);
        let ghost proj1 = (match player1 {
            Some(p) => if fired {
                old(self).projectiles@.push(spawned_projectile(p, old(self).next_id))
            } else {
                old(self).projectiles@
            },
            None => old(self).projectiles@,
        });
        assert(self.projectiles@ == proj1);
        assert(self.next_id == nid1);
        self.move_projectile(delta);
        let ghost proj2 = moved_projectiles(proj1, delta);
        assert(self.projectiles@ == proj2);
        self.despawn_projectiles();
        let ghost proj3 = culled_projectiles(proj2, old(self).half_height());
        assert(self.projectiles@ == proj3);
        self.move_invaders(delta);
        let ghost inv1 = moved_invaders(old(self).invaders@, delta);
        assert(self.invaders@ == inv1);
        let edges = self.detect_edge();
        assert(edges@ == edge_events(inv1, old(self).grid.columns as int));
        self.change_moving_direction(&edges);
        let ghost inv2 = reversed_invaders(inv1, edges@);
        assert(self.invaders@ == inv2);
        self.animate_invaders(delta);
        let ghost inv3 = animated_invaders(inv2, delta);
        assert(self.invaders@ == inv3);
        let hits = self.hit_invader();
        let ghost hit_queue = all_hits(
            old(self).start_x(),
            old(self).start_y(),
            inv3,
            old(self).starships@,
            proj3,
        );
        assert(hits@ == hit_queue);
        let score_events = self.handle_hit(&hits);
        let ghost inv4 = resolved_invaders(inv3, hit_queue);
        let ghost proj4 = resolved_projectiles(proj3, hit_queue);
        let ghost ships1 = resolved_starships(old(self).starships@, hit_queue);
        assert(self.invaders@ == inv4);
        assert(self.projectiles@ == proj4);
        assert(self.starships@ == ships1);
        assert(self.invader_count.0 == old(self).invader_count.0 - credited_count(inv3, inv4));
        assert(sum_events(score_events@) == credited_sum(inv3, inv4) + credited_ship_sum(
            old(self).starships@,
            ships1,
        ));
        self.increase_score(&score_events);
        assert(self.score.0 == saturated_add(
            old(self).score.0 as int,
            credited_sum(inv3, inv4) + credited_ship_sum(old(self).starships@, ships1),
        ));
        self.player_win();
        self.despawn_spaceship();
        let ghost ships2 = culled_ships(ships1, old(self).half_width());
        assert(self.starships@ == ships2);
        self.spawn_spaceship(delta);
        let ghost spawns = ship_spawns(
            old(self).spawn_timer,
            delta,
            old(self).guard_bonus_spawn,
            ships2,
            nid1,
        );
        let ghost ships3 = (if spawns {
            ships2.push(
                spawned_ship(
                    nid1,
                    old(self).grid.columns as int,
                    old(self).start_x(),
                    old(self).start_y(),
                ),
            )
        } else {
            ships2
        });
        assert(self.starships@ == ships3);
        self.move_spaceship(delta);
        let ghost ships4 = moved_ships(ships3, delta);
        assert(self.starships@ == ships4);
    }
}

/// Across any tick the swarm registry keeps its size and its identities, a
/// destroyed unit is never resurrected, the score never decreases, and the
/// live-unit count never increases.
pub proof fn lemma_tick_monotone(s: Simulation, delta: u64, fire: bool, left: bool, right: bool)
    ensures
        ({
            let o = s.tick_outcome(delta, fire, left, right);
            &&& o.invaders.len() == s.invaders@.len()
            &&& forall|i: int|
                0 <= i < s.invaders@.len() ==> (#[trigger] o.invaders[i]).id == s.invaders@[i].id
            &&& forall|i: int|
                0 <= i < s.invaders@.len() ==> (!s.invaders@[i].alive ==> !(
                #[trigger] o.invaders[i]).alive)
            &&& s.score.0 <= o.score <= usize::MAX
            &&& o.invader_count <= s.invader_count.0
        }),
{
    let o = s.tick_outcome(delta, fire, left, right);
    let player1 = player_after_input(s.player, left, right, delta, s.half_width());
    let fired = fire && s.player is Some && s.next_id < u64::MAX;
    let proj1 = (match player1 {
        Some(p) => if fired {
            s.projectiles@.push(spawned_projectile(p, s.next_id))
        } else {
            s.projectiles@
        },
        None => s.projectiles@,
    });
    let proj3 = culled_projectiles(moved_projectiles(proj1, delta), s.half_height());
    let inv1 = moved_invaders(s.invaders@, delta);
    let edges = edge_events(inv1, s.grid.columns as int);
    let inv2 = reversed_invaders(inv1, edges);
    let inv3 = animated_invaders(inv2, delta);
    let hits = all_hits(s.start_x(), s.start_y(), inv3, s.starships@, proj3);
    let inv4 = resolved_invaders(inv3, hits);
    let ships1 = resolved_starships(s.starships@, hits);
    assert(o.invaders == inv4);
    assert forall|i: int| 0 <= i < s.invaders@.len() implies (#[trigger] o.invaders[i]).id
        == s.invaders@[i].id && (!s.invaders@[i].alive ==> !o.invaders[i].alive) by {
        assert(inv1[i] == moved_invader(s.invaders@[i], delta));
        assert(inv2[i] == (Invader { direction: dir_after(edges, inv1[i].direction), ..inv1[i] }));
        assert(inv3[i] == animated_invader(inv2[i], delta));
        assert(inv4[i] == resolved_invader(inv3[i], hits));
    }
    crate::projectile::lemma_credited_count_nonneg(inv3, inv4);
    crate::projectile::lemma_credited_sum_nonneg(inv3, inv4);
    crate::projectile::lemma_credited_ship_sum_nonneg(s.starships@, ships1);
}

/// A unit that the movement pass of a tick leaves on column zero, with no
/// live unit on the last playable column in the same tick, forces the
/// whole swarm's heading to `Right` by the end of that tick — before any
/// unit's next positional update. (With both boundary columns occupied at
/// once, the signal emitted last would decide instead.)
pub proof fn lemma_tick_reverses_at_left_edge(
    s: Simulation,
    delta: u64,
    fire: bool,
    left: bool,
    right: bool,
    i: int,
)
    requires
        ({
            let inv1 = moved_invaders(s.invaders@, delta);
            &&& 0 <= i < inv1.len()
            &&& inv1[i].alive
            &&& inv1[i].grid_position.x == 0
            &&& forall|j: int|
                0 <= j < inv1.len() ==> !((#[trigger] inv1[j]).alive
                    && inv1[j].grid_position.x == s.grid.columns - 1)
        }),
    ensures
        ({
            let o = s.tick_outcome(delta, fire, left, right);
            forall|j: int|
                0 <= j < o.invaders.len() ==> (#[trigger] o.invaders[j]).direction
                    == Direction::Right
        }),
{
    let o = s.tick_outcome(delta, fire, left, right);
    let inv1 = moved_invaders(s.invaders@, delta);
    let edges = edge_events(inv1, s.grid.columns as int);
    let inv2 = reversed_invaders(inv1, edges);
    let inv3 = animated_invaders(inv2, delta);
    crate::invader::lemma_left_edge_reverses_swarm(inv1, s.grid.columns as int, i);
    assert forall|j: int| 0 <= j < o.invaders.len() implies (#[trigger] o.invaders[j]).direction
        == Direction::Right by {
        assert(inv2[j] == (Invader { direction: dir_after(edges, inv1[j].direction), ..inv1[j] }));
        assert(inv3[j] == animated_invader(inv2[j], delta));
        assert(o.invaders[j] == resolved_invader(inv3[j], s.tick_hits(delta, fire, left, right)));
    }
}

/// A bonus unit whose position has crossed the field's trailing edge by
/// more than half a cell at a tick's start is retired by that tick's
/// despawn check, whatever else the tick does.
pub proof fn lemma_tick_despawns_ship_past_trailing_edge(
    s: Simulation,
    delta: u64,
    fire: bool,
    left: bool,
    right: bool,
    i: int,
)
    requires
        0 <= i < s.starships@.len(),
        s.starships@[i].x_milli < (-s.half_width() - HALF_CELL_SIZE) * MILLI,
    ensures
        !s.tick_outcome(delta, fire, left, right).starships[i].alive,
{
    let o = s.tick_outcome(delta, fire, left, right);
    let hits = s.tick_hits(delta, fire, left, right);
    let nid1: u64 = if fire && s.player is Some && s.next_id < u64::MAX {
        (s.next_id + 1) as u64
    } else {
        s.next_id
    };
    let ships1 = resolved_starships(s.starships@, hits);
    let ships2 = culled_ships(ships1, s.half_width());
    let spawns = ship_spawns(s.spawn_timer, delta, s.guard_bonus_spawn, ships2, nid1);
    let ships3 = if spawns {
        ships2.push(spawned_ship(nid1, s.grid.columns as int, s.start_x(), s.start_y()))
    } else {
        ships2
    };
    assert(ships1[i] == crate::projectile::resolved_starship(s.starships@[i], hits));
    assert(ships2[i] == crate::spaceship::culled_ship(s.half_width(), ships1[i]));
    assert(!ships2[i].alive);
    assert(ships3[i] == ships2[i]);
    assert(o.starships[i] == crate::spaceship::moved_ship(ships3[i], delta));
}

/// The live-unit count never falls below zero: in every well-formed
/// simulation state — established at creation and preserved by every pass
/// and every tick — the count equals the number of live swarm units in the
/// registry, which lies between zero and the registry's size.
pub proof fn lemma_invader_count_never_negative(s: Simulation)
    requires
        s.wf(),
    ensures
        s.invader_count.0 == count_alive(s.invaders@),
        0 <= count_alive(s.invaders@) <= s.invaders@.len(),
{
    lemma_count_alive_bounds(s.invaders@);
}

} // verus!
