use wre::clipmap::{
    plan_instances, snap_to, trim_rotation_index, InstanceRecord, InstanceStore, Point2, Rotation,
    CAMERA_LIMIT, N_CROSS, N_FILLERS, N_LEVELS, N_SEAMS, N_TILES, N_TRIMS, SCALE_OFFSET,
};
use wre::stamp::TILE_RES;

fn rec(scale: i64, rotation: Rotation, x: i64, y: i64) -> InstanceRecord {
    InstanceRecord { scale, rotation, translation: Point2 { x, y } }
}

fn cam(x: i64, y: i64) -> Point2 {
    Point2 { x, y }
}

/// Level `level`'s tiles: 16 for the finest, 12 for each other.
fn level_slice(store: &InstanceStore, level: usize) -> &[InstanceRecord] {
    let start = if level == 0 { 0 } else { 16 + 12 * (level - 1) };
    let len = if level == 0 { 16 } else { 12 };
    &store.tiles[start..start + len]
}

#[test]
fn camera_at_origin_places_expected_counts() {
    assert_eq!((N_LEVELS, SCALE_OFFSET, TILE_RES), (10, 5, 64));
    let store = plan_instances(cam(0, 0));
    assert_eq!(store.tiles.len(), 16 + 9 * 12);
    assert_eq!(store.tiles.len(), 124);
    assert_eq!(store.fillers.len(), 10);
    assert_eq!(store.trims.len(), 9);
    assert_eq!(store.seams.len(), 9);
    assert_eq!(store.crosses.len(), 1);
}

#[test]
fn counts_stay_within_capacities() {
    for (x, y) in [(0, 0), (-1, 5), (12345, -99999), (CAMERA_LIMIT, -CAMERA_LIMIT)] {
        let store = plan_instances(cam(x, y));
        assert_eq!(store.tiles.len(), 124);
        assert!(store.tiles.len() <= N_TILES);
        assert!(store.fillers.len() <= N_FILLERS);
        assert_eq!(store.trims.len(), N_TRIMS);
        assert_eq!(store.seams.len(), N_SEAMS);
        assert_eq!(store.crosses.len(), N_CROSS);
    }
}

#[test]
fn finest_level_at_origin() {
    let store = plan_instances(cam(0, 0));
    assert_eq!(store.crosses[0], rec(32, Rotation::Identity, 0, 0));
    assert_eq!(store.fillers[0], rec(32, Rotation::Identity, 0, 0));
    // tile size 64 * 32 = 2048; grid corner at -4096; columns first
    let tiles = level_slice(&store, 0);
    assert_eq!(tiles[0], rec(32, Rotation::Identity, -4096, -4096));
    assert_eq!(tiles[1], rec(32, Rotation::Identity, -4096, -2048));
    assert_eq!(tiles[2], rec(32, Rotation::Identity, -4096, 32));
    assert_eq!(tiles[3], rec(32, Rotation::Identity, -4096, 2080));
    assert_eq!(tiles[15], rec(32, Rotation::Identity, 2080, 2080));
    // seam at the next level's grid corner, trim turned 180° at the tie
    assert_eq!(store.seams[0], rec(32, Rotation::Identity, -4096, -4096));
    assert_eq!(store.trims[0], rec(32, Rotation::Deg180, 16, 16));
}

#[test]
fn coarser_levels_skip_the_middle() {
    let store = plan_instances(cam(0, 0));
    let tiles = level_slice(&store, 1);
    // level 1: scale 64, tile size 4096, grid corner at -8192
    let expected_cells = [(0, 0), (0, 1), (0, 2), (0, 3), (1, 0), (1, 3), (2, 0), (2, 3), (3, 0), (3, 1), (3, 2), (3, 3)];
    for (i, (x, y)) in expected_cells.iter().enumerate() {
        let fill = |c: i64| if c >= 2 { 64 } else { 0 };
        let tx = -8192 + x * 4096 + fill(*x);
        let ty = -8192 + y * 4096 + fill(*y);
        assert_eq!(tiles[i], rec(64, Rotation::Identity, tx, ty));
    }
    let last = level_slice(&store, 9);
    assert!(last.iter().all(|r| r.scale == 1 << 14));
    assert_eq!(store.fillers[9], rec(1 << 14, Rotation::Identity, 0, 0));
}

#[test]
fn plan_is_deterministic() {
    let a = plan_instances(cam(-70001, 4242));
    let b = plan_instances(cam(-70001, 4242));
    assert_eq!(a.tiles, b.tiles);
    assert_eq!(a.fillers, b.fillers);
    assert_eq!(a.trims, b.trims);
    assert_eq!(a.crosses, b.crosses);
    assert_eq!(a.seams, b.seams);
}

#[test]
fn snapped_positions_are_multiples_of_the_scale() {
    for (x, y) in [(0, 0), (-1, -1), (31, 33), (-100000, 77777)] {
        let store = plan_instances(cam(x, y));
        for (level, filler) in store.fillers.iter().enumerate() {
            let s = 1i64 << (level as u32 + SCALE_OFFSET);
            assert_eq!(filler.scale, s);
            assert_eq!(filler.translation.x.rem_euclid(s), 0);
            assert_eq!(filler.translation.y.rem_euclid(s), 0);
            assert!(filler.translation.x <= x && x < filler.translation.x + s);
            assert!(filler.translation.y <= y && y < filler.translation.y + s);
        }
    }
}

#[test]
fn moving_within_a_finest_cell_keeps_finest_level() {
    let a = plan_instances(cam(0, 0));
    for (x, y) in [(31, 31), (1, 0), (0, 17), (31, 0)] {
        let b = plan_instances(cam(x, y));
        assert_eq!(level_slice(&a, 0), level_slice(&b, 0));
        assert_eq!(a.crosses, b.crosses);
        assert_eq!(a.fillers[0], b.fillers[0]);
        assert_eq!(a.trims[0], b.trims[0]);
        assert_eq!(a.seams[0], b.seams[0]);
    }
    // crossing the cell boundary moves the finest level
    let c = plan_instances(cam(32, 0));
    assert_ne!(a.crosses, c.crosses);
    assert_eq!(c.crosses[0], rec(32, Rotation::Identity, 32, 0));
}

#[test]
fn negative_camera_snaps_down() {
    let store = plan_instances(cam(-1, -33));
    assert_eq!(store.crosses[0], rec(32, Rotation::Identity, -32, -64));
    // next level: scale 64, snap (-64, -64); d = (63, 31): x upper half, y lower half
    assert_eq!(store.trims[0], rec(32, Rotation::Deg270, -32 + 16, -64 + 16));
    assert_eq!(store.seams[0], rec(32, Rotation::Identity, -64 - 4096, -64 - 4096));
}

#[test]
fn trim_rotation_index_quadrants() {
    assert_eq!(trim_rotation_index(0, 0, 32), 3);
    assert_eq!(trim_rotation_index(31, 31, 32), 3);
    assert_eq!(trim_rotation_index(32, 0, 32), 1);
    assert_eq!(trim_rotation_index(0, 32, 32), 2);
    assert_eq!(trim_rotation_index(32, 32, 32), 0);
    assert_eq!(trim_rotation_index(63, 63, 32), 0);
}

#[test]
fn rotation_from_index_order() {
    assert_eq!(Rotation::from_index(0), Rotation::Identity);
    assert_eq!(Rotation::from_index(1), Rotation::Deg270);
    assert_eq!(Rotation::from_index(2), Rotation::Deg90);
    assert_eq!(Rotation::from_index(3), Rotation::Deg180);
}

#[test]
fn trim_rotation_follows_camera_quadrant() {
    // level 0 trim: next scale 64; camera offsets within the 64-cell decide
    assert_eq!(plan_instances(cam(40, 40)).trims[0].rotation, Rotation::Identity);
    assert_eq!(plan_instances(cam(40, 10)).trims[0].rotation, Rotation::Deg270);
    assert_eq!(plan_instances(cam(10, 40)).trims[0].rotation, Rotation::Deg90);
    assert_eq!(plan_instances(cam(10, 10)).trims[0].rotation, Rotation::Deg180);
}

#[test]
fn snap_to_rounds_down() {
    assert_eq!(snap_to(0, 32), 0);
    assert_eq!(snap_to(31, 32), 0);
    assert_eq!(snap_to(32, 32), 32);
    assert_eq!(snap_to(63, 32), 32);
    assert_eq!(snap_to(-1, 32), -32);
    assert_eq!(snap_to(-32, 32), -32);
    assert_eq!(snap_to(-33, 32), -64);
}
