use rust_invaders::grid::MILLI;
use rust_invaders::invader::Direction;
use rust_invaders::player::{Player, BOTTOM_OFFSET, PLAYER_SPEED};
use rust_invaders::sim::Simulation;
use rust_invaders::{GameState, Timer};

fn wave_with_player() -> Simulation {
    let mut s = Simulation::new(320, 320, true);
    s.assets_loaded();
    s.spawn_player();
    s.spawn_invaders().unwrap();
    s
}

#[test]
fn defaults() {
    assert_eq!(GameState::default(), GameState::AssetLoading);
    assert_eq!(Direction::default(), Direction::Left);
    assert_eq!(PLAYER_SPEED, 100);
    assert_eq!(BOTTOM_OFFSET, 30);
}

#[test]
fn player_spawns_centered_above_bottom() {
    let mut s = Simulation::new(320, 320, true);
    s.assets_loaded();
    s.spawn_player();
    assert_eq!(s.player, Some(Player { x_milli: 0, y_milli: (-160 + 30) * MILLI }));
}

#[test]
fn player_moves_by_speed_and_time() {
    let mut s = wave_with_player();
    s.move_player(true, false, 500);
    assert_eq!(s.player.unwrap().x_milli, -50 * MILLI);
    s.move_player(false, true, 1000);
    assert_eq!(s.player.unwrap().x_milli, 50 * MILLI);
    // Both keys held: the moves cancel away from the borders.
    s.move_player(true, true, 400);
    assert_eq!(s.player.unwrap().x_milli, 50 * MILLI);
}

#[test]
fn player_stops_at_field_margin() {
    let mut s = wave_with_player();
    // Park the player just outside the left margin: a further left move is
    // refused, a right move is taken.
    s.player = Some(Player { x_milli: (-160 + 10) * MILLI - 1, y_milli: (-160 + 30) * MILLI });
    s.move_player(true, false, 1000);
    assert_eq!(s.player.unwrap().x_milli, (-160 + 10) * MILLI - 1);
    s.move_player(false, true, 100);
    assert_eq!(s.player.unwrap().x_milli, (-160 + 20) * MILLI - 1);
}

#[test]
fn move_without_player_is_no_op() {
    let mut s = Simulation::new(320, 320, true);
    s.move_player(true, false, 1000);
    assert!(s.player.is_none());
}

#[test]
fn timer_carries_remainder() {
    let mut t = Timer::new(1000);
    assert!(!t.tick(400));
    assert_eq!(t.elapsed, 400);
    assert!(t.tick(700));
    assert_eq!(t.elapsed, 100);
    // A tick longer than the whole period fires once and keeps the rest.
    assert!(t.tick(2500));
    assert_eq!(t.elapsed, 600);
}

#[test]
fn timers_are_independent() {
    let mut a = Timer::new(1000);
    let mut b = Timer::new(1000);
    a.tick(300);
    assert!(!a.tick(600));
    assert!(b.tick(1000));
    assert_eq!(a.elapsed, 900);
    assert_eq!(b.elapsed, 0);
}

#[test]
fn tick_outside_active_does_nothing() {
    let mut s = Simulation::new(320, 320, true);
    s.tick(1000, true, true, false);
    assert_eq!(s.state, GameState::AssetLoading);
    assert_eq!(s.projectiles.len(), 0);
    assert!(s.player.is_none());
    assert_eq!(s.score.0, 0);
}

#[test]
fn tick_moves_player_and_fires() {
    let mut s = wave_with_player();
    s.tick(100, false, true, false);
    assert_eq!(s.player.unwrap().x_milli, -10 * MILLI);
    assert_eq!(s.projectiles.len(), 0);
    s.tick(0, true, false, false);
    assert_eq!(s.projectiles.len(), 1);
    assert_eq!(s.projectiles[0].x_milli, -10 * MILLI);
}
