use rust_invaders::grid::GridPosition;
use rust_invaders::invader::{Direction, EdgeReached, InvaderState};
use rust_invaders::score::Worth;
use rust_invaders::sim::{ConfigError, Simulation};
use rust_invaders::GameState;

fn active_wave(width: i64, height: i64) -> Simulation {
    let mut s = Simulation::new(width, height, true);
    s.assets_loaded();
    s.spawn_player();
    s.spawn_invaders().unwrap();
    s
}

#[test]
fn state_flow_to_active() {
    let mut s = Simulation::new(320, 320, true);
    assert_eq!(s.state, GameState::AssetLoading);
    s.assets_loaded();
    assert_eq!(s.state, GameState::Spawning);
    s.spawn_player();
    let r = s.spawn_invaders();
    assert!(r.is_ok());
    assert_eq!(s.state, GameState::Active);
}

#[test]
fn swarm_spawns_over_margin_columns() {
    let s = active_wave(320, 320);
    assert_eq!(s.invader_count.0, 36);
    assert_eq!(s.invaders.len(), 36);
    let first = &s.invaders[0];
    assert_eq!(first.grid_position, GridPosition { x: 2, y: 2 });
    assert_eq!(first.worth, Worth(100));
    assert_eq!(first.direction, Direction::Left);
    assert_eq!(first.state, InvaderState::Moving);
    assert!(first.alive);
    let last = &s.invaders[35];
    assert_eq!(last.grid_position, GridPosition { x: 7, y: 7 });
    for (k, u) in s.invaders.iter().enumerate() {
        assert_eq!(u.id, k as u64);
        assert_eq!(u.grid_position.x, 2 + (k as i64) / 6);
        assert_eq!(u.grid_position.y, 2 + (k as i64) % 6);
    }
}

#[test]
fn too_few_columns_refused() {
    let mut s = Simulation::new(96, 320, true);
    s.assets_loaded();
    assert_eq!(s.spawn_invaders(), Err(ConfigError::GridTooSmall));
    assert_eq!(s.state, GameState::Spawning);
    assert_eq!(s.invaders.len(), 0);
}

#[test]
fn too_few_rows_refused() {
    let mut s = Simulation::new(320, 128, true);
    s.assets_loaded();
    assert_eq!(s.spawn_invaders(), Err(ConfigError::GridTooSmall));
    assert_eq!(s.invader_count.0, 0);
}

#[test]
fn timers_drive_movement() {
    let mut s = active_wave(320, 320);
    // Half a period: nothing fires, nothing moves.
    s.move_invaders(500);
    assert_eq!(s.invaders[0].grid_position.x, 2);
    // The other half: every timer fires and the swarm steps left in lockstep.
    s.move_invaders(500);
    assert_eq!(s.invaders[0].grid_position.x, 1);
    assert_eq!(s.invaders[35].grid_position.x, 6);
    // A partial period accumulates without firing.
    s.move_invaders(700);
    assert_eq!(s.invaders[0].grid_position.x, 1);
    assert_eq!(s.invaders[0].move_timer.elapsed, 700);
    // Crossing the period fires and carries the remainder.
    s.move_invaders(600);
    assert_eq!(s.invaders[0].grid_position.x, 0);
    assert_eq!(s.invaders[0].move_timer.elapsed, 300);
}

#[test]
fn edge_detection_emits_left_signal() {
    let mut s = active_wave(320, 320);
    s.move_invaders(1000);
    s.move_invaders(1000);
    // Leftmost column of the swarm has reached x == 0.
    assert_eq!(s.invaders[0].grid_position.x, 0);
    let events = s.detect_edge();
    assert_eq!(events.len(), 6);
    assert!(events.iter().all(|e| *e == EdgeReached::Left));
}

#[test]
fn left_edge_flips_whole_swarm_to_right() {
    let mut s = active_wave(320, 320);
    s.move_invaders(1000);
    s.move_invaders(1000);
    let events = s.detect_edge();
    s.change_moving_direction(&events);
    assert!(s.invaders.iter().all(|u| u.direction == Direction::Right));
    // The flipped heading takes effect before the next positional update.
    s.move_invaders(1000);
    assert_eq!(s.invaders[0].grid_position.x, 1);
}

#[test]
fn no_edge_keeps_heading() {
    let mut s = active_wave(320, 320);
    let events = s.detect_edge();
    assert_eq!(events.len(), 0);
    s.change_moving_direction(&events);
    assert!(s.invaders.iter().all(|u| u.direction == Direction::Left));
}

#[test]
fn opposite_signals_last_applied_wins() {
    let mut s = active_wave(320, 320);
    // Craft both edges occupied: the signal emitted last decides.
    s.invaders[0].grid_position.x = 0;
    s.invaders[1].grid_position.x = s.grid.columns - 1;
    let events = s.detect_edge();
    assert_eq!(events.len(), 2);
    assert_eq!(events[0], EdgeReached::Left);
    assert_eq!(events[1], EdgeReached::Right);
    s.change_moving_direction(&events);
    assert!(s.invaders.iter().all(|u| u.direction == Direction::Left));
}

#[test]
fn animation_cycles_sprite_frames() {
    let mut s = active_wave(320, 320);
    assert_eq!(s.invaders[0].sprite_index, 0);
    s.animate_invaders(1000);
    assert_eq!(s.invaders[0].sprite_index, 1);
    s.animate_invaders(1000);
    assert_eq!(s.invaders[0].sprite_index, 0);
    // A partial period leaves the frame alone.
    s.animate_invaders(999);
    assert_eq!(s.invaders[0].sprite_index, 0);
}

#[test]
fn animation_indices_for_moving() {
    let indices = InvaderState::Moving.get_animation_indices();
    assert_eq!(indices.start, 0);
    assert_eq!(indices.end, 1);
}

#[test]
fn render_pass_lists_live_units() {
    let mut s = active_wave(320, 320);
    let out = s.position_invaders_on_grid();
    assert_eq!(out.len(), 36);
    let (id, t, frame) = out[0];
    assert_eq!(id, 0);
    assert_eq!(t.x, -160 + 16 + 2 * 32);
    assert_eq!(t.y, 160 - 16 - 2 * 32);
    assert_eq!(frame, 0);
    // A destroyed unit disappears from the render list.
    s.invaders[0].alive = false;
    let out = s.position_invaders_on_grid();
    assert_eq!(out.len(), 35);
    assert_eq!(out[0].0, 1);
}

#[test]
fn edge_answered_in_same_tick_as_movement() {
    let mut s = active_wave(320, 320);
    s.tick(1000, false, false, false);
    s.tick(1000, false, false, false);
    // The leftmost column touched the boundary this tick, and edge
    // detection ran after movement: the swarm already heads right.
    assert_eq!(s.invaders[0].grid_position.x, 0);
    assert!(s.invaders.iter().all(|u| u.direction == Direction::Right));
    // It touches the boundary column exactly once before reversing.
    s.tick(1000, false, false, false);
    assert_eq!(s.invaders[0].grid_position.x, 1);
}

#[test]
fn despawn_entities_clears_session() {
    let mut s = active_wave(320, 320);
    s.spawn_projectile(true);
    s.spawn_spaceship(5000);
    let ids_used = s.next_id;
    s.despawn_entities();
    assert_eq!(s.invaders.len(), 0);
    assert_eq!(s.projectiles.len(), 0);
    assert_eq!(s.starships.len(), 0);
    assert!(s.player.is_none());
    assert_eq!(s.invader_count.0, 0);
    // Identities are never reused.
    assert_eq!(s.next_id, ids_used);
}

#[test]
fn dead_units_do_not_move_or_signal() {
    let mut s = active_wave(320, 320);
    s.invaders[0].alive = false;
    s.invaders[0].grid_position.x = 0;
    let events = s.detect_edge();
    assert_eq!(events.len(), 0);
    s.move_invaders(1000);
    assert_eq!(s.invaders[0].grid_position.x, 0);
    assert_eq!(s.invaders[1].grid_position.x, 1);
}
