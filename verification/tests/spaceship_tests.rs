use rust_invaders::grid::MILLI;
use rust_invaders::projectile::{HitDetected, Projectile};
use rust_invaders::score::Worth;
use rust_invaders::sim::Simulation;
use rust_invaders::spaceship::{SPACESHIP_SPAWN_PERIOD, SPACESHIP_SPEED, SPACESHIP_WORTH};

fn running_wave() -> Simulation {
    let mut s = Simulation::new(320, 320, true);
    s.assets_loaded();
    s.spawn_player();
    s.spawn_invaders().unwrap();
    s
}

#[test]
fn spawner_constants() {
    assert_eq!(SPACESHIP_SPAWN_PERIOD, 5000);
    assert_eq!(SPACESHIP_SPEED, 200);
    assert_eq!(SPACESHIP_WORTH, 1000);
}

#[test]
fn spawner_waits_for_its_period() {
    let mut s = running_wave();
    s.spawn_spaceship(4999);
    assert_eq!(s.starships.len(), 0);
    s.spawn_spaceship(1);
    assert_eq!(s.starships.len(), 1);
    let ship = &s.starships[0];
    // One cell past the right border of a 10-column field, at the top row.
    assert_eq!(ship.x_milli, (-160 + 16 + 11 * 32) * MILLI);
    assert_eq!(ship.y_milli, (160 - 16) * MILLI);
    assert_eq!(ship.worth, Worth(1000));
    assert!(ship.alive);
}

#[test]
fn guarded_spawner_skips_while_one_lives() {
    let mut s = running_wave();
    s.spawn_spaceship(5000);
    assert_eq!(s.starships.len(), 1);
    s.spawn_spaceship(5000);
    assert_eq!(s.starships.len(), 1);
    // Once the first is destroyed, the next period spawns again.
    s.starships[0].alive = false;
    s.spawn_spaceship(5000);
    assert_eq!(s.starships.len(), 2);
}

#[test]
fn unguarded_spawner_spawns_every_period() {
    let mut s = Simulation::new(320, 320, false);
    s.assets_loaded();
    s.spawn_player();
    s.spawn_invaders().unwrap();
    s.spawn_spaceship(5000);
    s.spawn_spaceship(5000);
    assert_eq!(s.starships.len(), 2);
    assert!(s.starships[0].alive && s.starships[1].alive);
}

#[test]
fn ship_moves_left_at_constant_speed() {
    let mut s = running_wave();
    s.spawn_spaceship(5000);
    let x0 = s.starships[0].x_milli;
    s.move_spaceship(1000);
    assert_eq!(s.starships[0].x_milli, x0 - 200 * MILLI);
    s.move_spaceship(500);
    assert_eq!(s.starships[0].x_milli, x0 - 300 * MILLI);
}

#[test]
fn ship_destroyed_on_next_tick_after_crossing_edge() {
    let mut s = running_wave();
    // Tick by whole seconds; the spawner fires at the fifth tick, at
    // x = 208 units, and the ship then covers 200 units per tick.
    for _ in 0..5 {
        s.tick(1000, false, false, false);
    }
    assert_eq!(s.starships.len(), 1);
    // Spawned and moved once within the same tick: 208 - 200 = 8.
    assert_eq!(s.starships[0].x_milli, 8 * MILLI);
    // Next tick: 8 - 200 = -192, below the -176 threshold, still alive.
    s.tick(1000, false, false, false);
    assert!(s.starships[0].alive);
    assert_eq!(s.starships[0].x_milli, -192 * MILLI);
    // The very next tick evaluation destroys it, before it moves again.
    s.tick(0, false, false, false);
    assert!(!s.starships[0].alive);
    assert_eq!(s.starships[0].x_milli, -192 * MILLI);
}

#[test]
fn outside_check_uses_half_cell_margin() {
    let mut s = running_wave();
    s.starships.push(ship_at(-176 * MILLI));
    assert!(!s.starship_outside());
    s.starships[0].x_milli = -176 * MILLI - 1;
    assert!(s.starship_outside());
    s.despawn_spaceship();
    assert!(!s.starships[0].alive);
}

#[test]
fn bonus_unit_is_hittable_and_scores_its_worth() {
    let mut s = running_wave();
    s.spawn_spaceship(5000);
    let ship = s.starships[0];
    s.projectiles.push(Projectile { id: 500, x_milli: ship.x_milli, y_milli: ship.y_milli, alive: true });
    let hits = s.hit_invader();
    assert_eq!(hits.len(), 1);
    assert_eq!(hits[0], HitDetected { unit: ship.id, projectile: 500 });
    let events = s.handle_hit(&hits);
    assert_eq!(events.len(), 1);
    assert_eq!(events[0].0, 1000);
    assert!(!s.starships[0].alive);
    // The swarm count tracks swarm units only.
    assert_eq!(s.invader_count.0, 36);
    s.increase_score(&events);
    assert_eq!(s.score.0, 1000);
}

fn ship_at(x_milli: i64) -> rust_invaders::spaceship::Starship {
    rust_invaders::spaceship::Starship { id: 77, x_milli, y_milli: (160 - 16) * MILLI, worth: Worth(1000), alive: true }
}
