use rust_invaders::grid::{Cell, GridPosition, Transform, CELL_SIZE, HALF_CELL_SIZE, MILLI};
use rust_invaders::sim::Simulation;

#[test]
fn cell_geometry() {
    assert_eq!(CELL_SIZE, 32);
    assert_eq!(HALF_CELL_SIZE, 16);
    assert_eq!(Cell::half_size(), 16);
    assert_eq!(MILLI, 1000);
}

#[test]
fn transform_of_origin_cell() {
    let p = GridPosition { x: 0, y: 0 };
    let t = p.get_transform(-240, 300);
    assert_eq!(t.x, -240 + 16);
    assert_eq!(t.y, 300 - 16);
}

#[test]
fn transform_is_cell_centered() {
    let p = GridPosition { x: 2, y: 3 };
    let t = p.get_transform(-160, 160);
    assert_eq!(t.x, -160 + 16 + 2 * 32);
    assert_eq!(t.y, 160 - 16 - 3 * 32);
}

#[test]
fn transform_round_trip_recovers_cell() {
    for x in 0..12i64 {
        for y in 0..12i64 {
            let p = GridPosition { x, y };
            let t = p.get_transform(-160, 160);
            let q = GridPosition::from_transform(&t, -160, 160);
            assert_eq!(q, p);
        }
    }
}

#[test]
fn transform_round_trip_other_origin() {
    let p = GridPosition { x: 7, y: 0 };
    let t = p.get_transform(13, 999);
    let q = GridPosition::from_transform(&t, 13, 999);
    assert_eq!(q, GridPosition { x: 7, y: 0 });
}

#[test]
fn from_transform_reads_cell_size_multiples() {
    let t = Transform { x: -160 + 16 + 5 * 32, y: 160 - 16 - 4 * 32 };
    let q = GridPosition::from_transform(&t, -160, 160);
    assert_eq!(q, GridPosition { x: 5, y: 4 });
}

#[test]
fn grid_derived_from_viewport() {
    let s = Simulation::new(480, 600, true);
    assert_eq!(s.grid.columns, 15);
    assert_eq!(s.grid.rows, 18);
    let s = Simulation::new(320, 320, true);
    assert_eq!(s.grid.columns, 10);
    assert_eq!(s.grid.rows, 10);
}
