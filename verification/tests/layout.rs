use invaders_core::arena::{ArenaBounds, WallGeometry, WallLocation};
use invaders_core::arena::wall_geometry;
use invaders_core::grid::GridConfig;

fn arena() -> ArenaBounds {
    ArenaBounds { left: -128, right: 128, bottom: -95, top: 95, wall_thickness: 5 }
}

// The grid configuration of the reference arena: walls at +/-128 and
// +/-95, a 10-unit gap to the side walls and the ceiling, 1x1 enemies
// spaced 20 apart, and the grid's bottom edge 80 above the player row at
// y = -85.
fn grid() -> GridConfig {
    GridConfig {
        left_wall: -128,
        right_wall: 128,
        top_wall: 95,
        bottom_edge: -5,
        side_gap: 10,
        ceiling_gap: 10,
        enemy_width: 1,
        enemy_height: 1,
        spacing: 20,
    }
}

#[test]
fn wall_positions() {
    let b = arena();
    assert_eq!(WallLocation::Left.position(&b), (-128, 0));
    assert_eq!(WallLocation::Right.position(&b), (128, 0));
    assert_eq!(WallLocation::Top.position(&b), (0, 95));
    assert_eq!(WallLocation::Bottom.position(&b), (0, -95));
}

#[test]
fn wall_sizes() {
    let b = arena();
    // Side walls: one thickness wide, arena width plus a thickness tall.
    assert_eq!(WallLocation::Left.size(&b), (5, 261));
    assert_eq!(WallLocation::Right.size(&b), (5, 261));
    assert_eq!(WallLocation::Top.size(&b), (261, 5));
    assert_eq!(WallLocation::Bottom.size(&b), (261, 5));
}

#[test]
fn wall_geometry_combines_position_and_size() {
    let b = arena();
    let g = wall_geometry(&b, WallLocation::Left);
    assert_eq!(g, WallGeometry { x: -128, y: 0, width: 5, height: 261 });
    let g = wall_geometry(&b, WallLocation::Bottom);
    assert_eq!(g, WallGeometry { x: 0, y: -95, width: 261, height: 5 });
}

#[test]
fn grid_counts() {
    let cfg = grid();
    // 236 units of width at a 21-unit pitch, 90 units of height.
    assert_eq!(cfg.column_count(), 11);
    assert_eq!(cfg.row_count(), 4);
}

#[test]
fn grid_counts_fit_the_space() {
    let cfg = grid();
    let cols = cfg.column_count() as i64;
    let rows = cfg.row_count() as i64;
    assert!(cols * (cfg.enemy_width + cfg.spacing) - cfg.spacing <= 236);
    assert!(rows * (cfg.enemy_height + cfg.spacing) - cfg.spacing <= 90);
}

#[test]
fn grid_origin_is_centred() {
    let cfg = grid();
    // Doubled coordinates: the first column's centre is at x = -105 and
    // the first row's centre at y = -4.5.
    assert_eq!(cfg.origin(), (-210, -9));
}

#[test]
fn grid_single_positions() {
    let cfg = grid();
    assert_eq!(cfg.enemy_position(0, 0), (-210, -9));
    assert_eq!(cfg.enemy_position(0, 1), (-168, -9));
    assert_eq!(cfg.enemy_position(1, 0), (-210, 33));
    assert_eq!(cfg.enemy_position(3, 10), (210, 117));
}

#[test]
fn grid_all_positions_in_spawn_order() {
    let cfg = GridConfig {
        left_wall: -10,
        right_wall: 10,
        top_wall: 10,
        bottom_edge: -5,
        side_gap: 1,
        ceiling_gap: 1,
        enemy_width: 2,
        enemy_height: 2,
        spacing: 1,
    };
    assert_eq!(cfg.column_count(), 6);
    assert_eq!(cfg.row_count(), 4);
    let v = cfg.enemy_positions();
    assert_eq!(v.len(), 24);
    assert_eq!(v[0], (-15, -8));
    assert_eq!(v[1], (-9, -8));
    assert_eq!(v[5], (15, -8));
    assert_eq!(v[6], (-15, -2));
    assert_eq!(v[7], (-9, -2));
    assert_eq!(v[23], (15, 10));
    for (i, p) in v.iter().enumerate() {
        let row = (i / 6) as i64;
        let col = (i % 6) as i64;
        assert_eq!(*p, (-15 + 2 * col * 3, -8 + 2 * row * 3));
    }
}

#[test]
fn grid_positions_match_single_queries() {
    let cfg = grid();
    let v = cfg.enemy_positions();
    assert_eq!(v.len(), 44);
    for row in 0..4 {
        for col in 0..11 {
            assert_eq!(v[row * 11 + col], cfg.enemy_position(row, col));
        }
    }
}

#[test]
fn narrow_arena_holds_one_column() {
    let cfg = GridConfig {
        left_wall: 0,
        right_wall: 25,
        top_wall: 100,
        bottom_edge: 0,
        side_gap: 0,
        ceiling_gap: 0,
        enemy_width: 16,
        enemy_height: 16,
        spacing: 4,
    };
    assert_eq!(cfg.column_count(), 1);
    assert_eq!(cfg.row_count(), 5);
    // One column: centred between the walls, half an enemy up.
    assert_eq!(cfg.origin(), (25, 16));
}
