use rust_invaders::grid::MILLI;
use rust_invaders::projectile::{collide, HitDetected, Projectile};
use rust_invaders::score::ScoreIncreased;
use rust_invaders::sim::Simulation;
use rust_invaders::GameState;

fn fresh_wave(width: i64, height: i64) -> Simulation {
    let mut s = Simulation::new(width, height, true);
    s.assets_loaded();
    s.spawn_player();
    s.spawn_invaders().unwrap();
    s
}

#[test]
fn overlap_of_one_unit_registers() {
    // Boxes of half extents (1, 5) and (16, 16): pushed together until the
    // overlap is exactly one unit on both axes.
    assert!(collide(0, 0, 1, 5, 16, 20, 16, 16));
    // Zero overlap on the horizontal axis: edges touch, no hit.
    assert!(!collide(0, 0, 1, 5, 17, 20, 16, 16));
    // Zero overlap on the vertical axis: no hit.
    assert!(!collide(0, 0, 1, 5, 16, 21, 16, 16));
}

#[test]
fn overlap_needs_both_axes() {
    assert!(collide(0, 0, 1, 5, 0, 0, 16, 16));
    assert!(!collide(0, 0, 1, 5, 100, 0, 16, 16));
    assert!(!collide(0, 0, 1, 5, 0, 100, 16, 16));
}

#[test]
fn detection_finds_exact_one_unit_overlap() {
    let mut s = fresh_wave(320, 320);
    // Unit 0 sits at cell (2, 2): center (-80, 80) units. Park a projectile
    // so its box overlaps the unit's box by exactly one thousandth of a
    // unit on each axis.
    let px = (-80 - 16 - 1) * MILLI + 1;
    let py = (80 + 16 + 5) * MILLI - 1;
    s.projectiles.push(Projectile { id: 100, x_milli: px, y_milli: py, alive: true });
    let hits = s.hit_invader();
    assert_eq!(hits.len(), 1);
    assert_eq!(hits[0], HitDetected { unit: 0, projectile: 100 });
    // Backing off by that thousandth leaves the edges touching: no hit.
    s.projectiles[0].x_milli = px - 1;
    assert_eq!(s.hit_invader().len(), 0);
    s.projectiles[0].x_milli = px;
    s.projectiles[0].y_milli = py + 1;
    assert_eq!(s.hit_invader().len(), 0);
}

#[test]
fn detection_mutates_nothing() {
    let mut s = fresh_wave(320, 320);
    let u = s.invaders[0];
    let p = Projectile { id: 100, x_milli: -80 * MILLI, y_milli: 96 * MILLI, alive: true };
    s.projectiles.push(p);
    let hits = s.hit_invader();
    assert_eq!(hits.len(), 1);
    assert_eq!(s.invaders[0], u);
    assert_eq!(s.projectiles[0], p);
    assert_eq!(s.invader_count.0, 36);
}

#[test]
fn two_projectiles_one_unit_scores_once() {
    let mut s = fresh_wave(320, 320);
    // Both projectiles overlap unit 0 in the same tick.
    s.projectiles.push(Projectile { id: 100, x_milli: -80 * MILLI, y_milli: 96 * MILLI, alive: true });
    s.projectiles.push(Projectile { id: 101, x_milli: -80 * MILLI, y_milli: 95 * MILLI, alive: true });
    let hits = s.hit_invader();
    assert_eq!(hits.len(), 2);
    let events = s.handle_hit(&hits);
    // Exactly one scoring event, the unit destroyed once, both projectiles
    // consumed, the count decremented once.
    assert_eq!(events.len(), 1);
    assert_eq!(events[0], ScoreIncreased(100));
    assert!(!s.invaders[0].alive);
    assert!(!s.projectiles[0].alive);
    assert!(!s.projectiles[1].alive);
    assert_eq!(s.invader_count.0, 35);
    assert_eq!(s.invaders[0].id, 0);
}

#[test]
fn duplicate_events_for_dead_unit_are_dropped() {
    let mut s = fresh_wave(320, 320);
    let hits = vec![
        HitDetected { unit: 3, projectile: 900 },
        HitDetected { unit: 3, projectile: 901 },
        HitDetected { unit: 3, projectile: 902 },
    ];
    let events = s.handle_hit(&hits);
    assert_eq!(events.len(), 1);
    assert_eq!(s.invader_count.0, 35);
    // A later pass naming the same unit again is a no-op, not a decrement.
    let events = s.handle_hit(&hits);
    assert_eq!(events.len(), 0);
    assert_eq!(s.invader_count.0, 35);
}

#[test]
fn full_wave_cleared_wins_with_exact_score() {
    let mut s = fresh_wave(320, 320);
    assert_eq!(s.invader_count.0, 36);
    // Destroy all 36 units via hit events, a few per tick.
    for batch in 0..12u64 {
        let mut hits = Vec::new();
        for k in 0..3u64 {
            hits.push(HitDetected { unit: batch * 3 + k, projectile: u64::MAX });
        }
        let events = s.handle_hit(&hits);
        assert_eq!(events.len(), 3);
        s.increase_score(&events);
        s.player_win();
    }
    assert_eq!(s.invader_count.0, 0);
    assert_eq!(s.state, GameState::PlayerWon);
    assert_eq!(s.score.0, 3600);
}

#[test]
fn tick_resolves_hit_and_scores() {
    let mut s = fresh_wave(320, 320);
    // A fire pulse with a zero frame delta: the projectile spawns just
    // below the swarm's bottom row and already overlaps the two center
    // columns by one unit.
    s.tick(0, true, false, false);
    assert_eq!(s.invader_count.0, 34);
    assert_eq!(s.score.0, 200);
    assert_eq!(s.state, GameState::Active);
    assert!(!s.projectiles[0].alive);
}

#[test]
fn projectile_moves_and_despawns_off_top() {
    let mut s = fresh_wave(320, 320);
    s.spawn_projectile(true);
    assert_eq!(s.projectiles.len(), 1);
    assert_eq!(s.projectiles[0].x_milli, 0);
    assert_eq!(s.projectiles[0].y_milli, (-160 + 30 + 30) * MILLI);
    // 300 units per second, one second: up by 300 units.
    s.move_projectile(1000);
    assert_eq!(s.projectiles[0].y_milli, 200 * MILLI);
    assert!(s.projectiles[0].alive);
    s.despawn_projectiles();
    // 200 > 160: past the top border, retired.
    assert!(!s.projectiles[0].alive);
}

#[test]
fn fire_without_player_is_no_op() {
    let mut s = Simulation::new(320, 320, true);
    s.assets_loaded();
    s.spawn_invaders().unwrap();
    assert!(s.player.is_none());
    s.spawn_projectile(true);
    assert_eq!(s.projectiles.len(), 0);
}

#[test]
fn score_accumulates_and_saturates() {
    let mut s = fresh_wave(320, 320);
    let events = vec![ScoreIncreased(100), ScoreIncreased(1000), ScoreIncreased(5)];
    s.increase_score(&events);
    assert_eq!(s.score.0, 1105);
    s.score.0 = usize::MAX - 50;
    s.increase_score(&vec![ScoreIncreased(100)]);
    assert_eq!(s.score.0, usize::MAX);
}

#[test]
fn count_never_goes_below_zero() {
    let mut s = fresh_wave(320, 320);
    // Kill everything twice over; the count stops at zero.
    let mut hits = Vec::new();
    for id in 0..36u64 {
        hits.push(HitDetected { unit: id, projectile: u64::MAX });
        hits.push(HitDetected { unit: id, projectile: u64::MAX });
    }
    let events = s.handle_hit(&hits);
    assert_eq!(events.len(), 36);
    assert_eq!(s.invader_count.0, 0);
    let events = s.handle_hit(&hits);
    assert_eq!(events.len(), 0);
    assert_eq!(s.invader_count.0, 0);
}

#[test]
fn win_only_when_count_reaches_zero() {
    let mut s = fresh_wave(320, 320);
    s.player_win();
    assert_eq!(s.state, GameState::Active);
    let mut hits = Vec::new();
    for id in 0..36u64 {
        hits.push(HitDetected { unit: id, projectile: u64::MAX });
    }
    s.handle_hit(&hits);
    s.player_win();
    assert_eq!(s.state, GameState::PlayerWon);
}
