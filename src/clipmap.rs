//! Per-frame placement of stamp instances over the nested levels of detail.
use crate::stamp::TILE_RES;
use vstd::arithmetic::div_mod::{
    lemma_fundamental_div_mod, lemma_fundamental_div_mod_converse, lemma_mod_bound, lemma_mod_multiples_basic,
};
use vstd::arithmetic::mul::lemma_mul_is_commutative;
use vstd::arithmetic::power2::{lemma2_to64, lemma_pow2_unfold, pow2};
use vstd::math::min;
use vstd::prelude::*;

verus! {

/// Exponent offset of the finest level: level `l` has cells of `2^(l + SCALE_OFFSET)` units.
pub const SCALE_OFFSET: u32 = 5;

/// Number of levels of detail.
pub const N_LEVELS: u32 = 10;

/// Most Tile instances of one frame: a 4×4 grid per level.
pub const N_TILES: usize = 160;

/// Most Filler instances of one frame: one per level.
pub const N_FILLERS: usize = 10;

/// Most Trim instances of one frame: one per level but the coarsest.
pub const N_TRIMS: usize = 9;

/// Most Seam instances of one frame: one per level but the coarsest.
pub const N_SEAMS: usize = 9;

/// Cross instances of one frame: one, at the camera.
pub const N_CROSS: usize = 1;

/// Largest magnitude of a camera coordinate that the planner accepts; every
/// derived position then fits in an `i64` with room to spare.
pub const CAMERA_LIMIT: i64 = 1152921504606846976;

/// A point of the ground plane in whole world units.
///
/// As a camera position it is the real position rounded down (floored) on
/// each axis: every cell size of the clipmap is a whole number, so the real
/// position and its floor snap alike and fall on the same side of every cell
/// boundary.
#[derive(Clone, Copy, Debug, PartialEq, Eq, Structural)]
pub struct Point2 {
    pub x: i64,
    pub y: i64,
}

/// One of the four fixed rotations of the Trim stamp about the vertical axis.
#[derive(Clone, Copy, Debug, PartialEq, Eq, Structural)]
pub enum Rotation {
    Identity,
    Deg270,
    Deg90,
    Deg180,
}

/// One placed stamp instance: uniform scale, then rotation, then translation.
#[derive(Clone, Copy, Debug, PartialEq, Eq, Structural)]
pub struct InstanceRecord {
    pub scale: i64,
    pub rotation: Rotation,
    pub translation: Point2,
}

/// Both coordinates within `CAMERA_LIMIT` of the origin.
pub open spec fn camera_in_range(camera: Point2) -> bool {
    &&& -CAMERA_LIMIT <= camera.x <= CAMERA_LIMIT
    &&& -CAMERA_LIMIT <= camera.y <= CAMERA_LIMIT
}

/// Cell size of `level`: `2^(level + SCALE_OFFSET)`.
pub open spec fn level_scale(level: int) -> int {
    pow2((level + SCALE_OFFSET) as nat) as int
}

/// Edge length of one tile at `level`: `TILE_RES` cells.
pub open spec fn level_tile_size(level: int) -> int {
    TILE_RES * level_scale(level)
}

/// `c` rounded down to a multiple of `s` (for `s > 0`, `/` rounds down).
pub open spec fn snap(c: int, s: int) -> int {
    (c / s) * s
}

/// The rotation that index `r` selects: 0°, 270°, 90°, 180° for 0, 1, 2, 3.
pub open spec fn rotation_of(r: int) -> Rotation {
    if r == 0 {
        Rotation::Identity
    } else if r == 1 {
        Rotation::Deg270
    } else if r == 2 {
        Rotation::Deg90
    } else {
        Rotation::Deg180
    }
}

/// Quadrant of the camera within the next coarser cell, as a rotation index:
/// 2 when it lies in the lower half along x, plus 1 when it lies in the lower
/// half along y.
pub open spec fn quadrant_index(dx: int, dy: int, s: int) -> int {
    (if dx < s { 2int } else { 0int }) + (if dy < s { 1int } else { 0int })
}

/// The instance of uniform `scale` and `rotation`, placed at `(x, y)`.
pub open spec fn record(scale: int, rotation: Rotation, x: int, y: int) -> InstanceRecord {
    InstanceRecord { scale: scale as i64, rotation, translation: Point2 { x: x as i64, y: y as i64 } }
}

/// The Cross instance: at the camera, snapped to the finest level.
pub open spec fn cross_record(camera: Point2) -> InstanceRecord {
    let s = level_scale(0);
    record(s, Rotation::Identity, snap(camera.x as int, s), snap(camera.y as int, s))
}

/// Offset of tile column (or row) `i` of the 4×4 grid from the grid's corner.
pub open spec fn tile_offset(i: int, s: int, ts: int) -> int {
    i * ts + if i >= 2 { s } else { 0 }
}

/// The Tile instance of grid cell `(x, y)` at `level`.
pub open spec fn tile_record(camera: Point2, level: int, x: int, y: int) -> InstanceRecord {
    let s = level_scale(level);
    let ts = level_tile_size(level);
    let base_x = snap(camera.x as int, s) - 2 * ts;
    let base_y = snap(camera.y as int, s) - 2 * ts;
    record(s, Rotation::Identity, base_x + tile_offset(x, s, ts), base_y + tile_offset(y, s, ts))
}

/// Whether grid cell `(x, y)` holds a tile at `level`: all 16 at the finest
/// level, the outer 12 elsewhere, where the next finer level covers the middle.
pub open spec fn keeps_tile(level: int, x: int, y: int) -> bool {
    level == 0 || !(1 <= x <= 2 && 1 <= y <= 2)
}

/// Tiles of `level` for the first `n` grid cells, cell `i` being column
/// `i / 4` and row `i % 4`.
pub open spec fn level_tiles_upto(camera: Point2, level: int, n: int) -> Seq<InstanceRecord>
    decreases n,
{
    if n <= 0 {
        seq![]
    } else {
        let x = (n - 1) / 4;
        let y = (n - 1) % 4;
        let rest = level_tiles_upto(camera, level, n - 1);
        if keeps_tile(level, x, y) {
            rest.push(tile_record(camera, level, x, y))
        } else {
            rest
        }
    }
}

/// All Tile instances of `level`.
pub open spec fn level_tiles(camera: Point2, level: int) -> Seq<InstanceRecord> {
    level_tiles_upto(camera, level, 16)
}

/// Tile instances of the first `n` levels, finest first.
pub open spec fn planned_tiles_upto(camera: Point2, n: int) -> Seq<InstanceRecord>
    decreases n,
{
    if n <= 0 {
        seq![]
    } else {
        planned_tiles_upto(camera, n - 1) + level_tiles(camera, n - 1)
    }
}

/// The Filler instance of `level`: at the camera, snapped to that level.
pub open spec fn ring_record(camera: Point2, level: int) -> InstanceRecord {
    let s = level_scale(level);
    record(s, Rotation::Identity, snap(camera.x as int, s), snap(camera.y as int, s))
}

/// The Seam instance between `level` and `level + 1`: at the corner of the
/// coarser level's grid, scaled as `level`.
pub open spec fn seam_record(camera: Point2, level: int) -> InstanceRecord {
    let s = level_scale(level);
    let ts = level_tile_size(level + 1);
    record(s, Rotation::Identity, snap(camera.x as int, 2 * s) - ts, snap(camera.y as int, 2 * s) - ts)
}

/// The Trim instance between `level` and `level + 1`: centred on the snapped
/// camera cell, turned toward the camera's quadrant of the coarser cell.
pub open spec fn trim_record(camera: Point2, level: int) -> InstanceRecord {
    let s = level_scale(level);
    let dx = camera.x - snap(camera.x as int, 2 * s);
    let dy = camera.y - snap(camera.y as int, 2 * s);
    record(
        s,
        rotation_of(quadrant_index(dx, dy, s)),
        snap(camera.x as int, s) + s / 2,
        snap(camera.y as int, s) + s / 2,
    )
}

/// Tile instances of one frame: every level's, finest first.
pub open spec fn planned_tiles(camera: Point2) -> Seq<InstanceRecord> {
    planned_tiles_upto(camera, N_LEVELS as int)
}

/// Filler instances of one frame: one per level, finest first.
pub open spec fn planned_fillers(camera: Point2) -> Seq<InstanceRecord> {
    Seq::new(N_LEVELS as nat, |level: int| ring_record(camera, level))
}

/// Trim instances of one frame: one per level but the coarsest, finest first.
pub open spec fn planned_trims(camera: Point2) -> Seq<InstanceRecord> {
    Seq::new((N_LEVELS - 1) as nat, |level: int| trim_record(camera, level))
}

/// Seam instances of one frame: one per level but the coarsest, finest first.
pub open spec fn planned_seams(camera: Point2) -> Seq<InstanceRecord> {
    Seq::new((N_LEVELS - 1) as nat, |level: int| seam_record(camera, level))
}

/// Cross instances of one frame: the one at the camera.
pub open spec fn planned_crosses(camera: Point2) -> Seq<InstanceRecord> {
    seq![cross_record(camera)]
}

/// The instances of one frame, one list per stamp.
pub struct InstanceStore {
    pub tiles: Vec<InstanceRecord>,
    pub fillers: Vec<InstanceRecord>,
    pub trims: Vec<InstanceRecord>,
    pub crosses: Vec<InstanceRecord>,
    pub seams: Vec<InstanceRecord>,
}

impl InstanceStore {
    /// Each list holds exactly what the plan for `camera` places.
    pub open spec fn is_plan_of(&self, camera: Point2) -> bool {
        &&& self.tiles@ == planned_tiles(camera)
        &&& self.fillers@ == planned_fillers(camera)
        &&& self.trims@ == planned_trims(camera)
        &&& self.crosses@ == planned_crosses(camera)
        &&& self.seams@ == planned_seams(camera)
    }
}

/// `c` rounded down to a multiple of `s`.
pub fn snap_to(c: i64, s: i64) -> (r: i64)
    requires
        0 < s <= CAMERA_LIMIT,
        -CAMERA_LIMIT <= c <= CAMERA_LIMIT,
    ensures
        r == snap(c as int, s as int),
        r <= c < r + s,
{
    proof {
        let q = c as int / s as int;
        lemma_fundamental_div_mod(c as int, s as int);
        lemma_mod_bound(c as int, s as int);
        lemma_mul_is_commutative(s as int, q);
        assert(-CAMERA_LIMIT <= q <= CAMERA_LIMIT) by (nonlinear_arith)
            requires
                c == s * q + c % s,
                0 <= c % s < s,
                0 < s,
                -CAMERA_LIMIT <= c <= CAMERA_LIMIT,
        ;
    }
    let q = c.checked_div_euclid(s).unwrap();
    q * s
}

/// Rotation index of the Trim piece for a camera at offset `(dx, dy)` from
/// the corner of its coarser cell, whose half is `s`.
pub fn trim_rotation_index(dx: i64, dy: i64, s: i64) -> (r: usize)
    ensures
        r == quadrant_index(dx as int, dy as int, s as int),
        r < 4,
        dx == 0 && dy == 0 && s > 0 ==> r == 3,
{
    let x_part: usize = if dx < s { 2 } else { 0 };
    let y_part: usize = if dy < s { 1 } else { 0 };
    x_part + y_part
}

/// Cell sizes of the levels that the planner visits, and how each relates to
/// the next.
proof fn lemma_level_scale(level: int)
    requires
        0 <= level <= N_LEVELS,
    ensures
        32 <= level_scale(level) <= 32768,
        level_scale(level + 1) == 2 * level_scale(level),
{
    lemma2_to64();
    lemma_pow2_unfold((level + 1 + SCALE_OFFSET) as nat);
    assert(level == 0 || level == 1 || level == 2 || level == 3 || level == 4 || level == 5
        || level == 6 || level == 7 || level == 8 || level == 9 || level == 10);
}

/// The instance of uniform `scale` and `rotation`, placed at `(x, y)`.
fn make_record(scale: i64, rotation: Rotation, x: i64, y: i64) -> (r: InstanceRecord)
    ensures
        r == record(scale as int, rotation, x as int, y as int),
{
    InstanceRecord { scale, rotation, translation: Point2 { x, y } }
}

/// Places the instances of one frame for a camera at `camera`: for each level,
/// finest first, the Cross (finest level only), the tiles of the 4×4 grid
/// column by column, the Filler, and, below the coarsest level, the Seam and
/// the Trim.
pub fn plan_instances(camera: Point2) -> (store: InstanceStore)
    requires
        camera_in_range(camera),
    ensures
        store.is_plan_of(camera),
{
    let mut tiles: Vec<InstanceRecord> = Vec::new();
    let mut fillers: Vec<InstanceRecord> = Vec::new();
    let mut trims: Vec<InstanceRecord> = Vec::new();
    let mut crosses: Vec<InstanceRecord> = Vec::new();
    let mut seams: Vec<InstanceRecord> = Vec::new();
    proof {
        lemma2_to64();
    }
    let mut s: i64 = 32;
    for level in 0..N_LEVELS
        invariant
            camera_in_range(camera),
            s == level_scale(level as int),
            tiles@ == planned_tiles_upto(camera, level as int),
            fillers@ == Seq::new(level as nat, |l: int| ring_record(camera, l)),
            trims@ == Seq::new(min(level as int, N_LEVELS - 1) as nat, |l: int| trim_record(camera, l)),
            seams@ == Seq::new(min(level as int, N_LEVELS - 1) as nat, |l: int| seam_record(camera, l)),
            crosses@ == (if level == 0 { seq![] } else { planned_crosses(camera) }),
    {
        proof {
            lemma_level_scale(level as int);
            lemma_level_scale(0);
        }
        let ts: i64 = TILE_RES as i64 * s;
        let snapped_x = snap_to(camera.x, s);
        let snapped_y = snap_to(camera.y, s);
        let base_x = snapped_x - 2 * ts;
        let base_y = snapped_y - 2 * ts;

        if level == 0 {
            crosses.push(make_record(s, Rotation::Identity, snapped_x, snapped_y));
        }

        for x in 0..4u32
            invariant
                camera_in_range(camera),
                32 <= s <= 32768,
                s == level_scale(level as int),
                ts == level_tile_size(level as int),
                base_x == snap(camera.x as int, s as int) - 2 * ts,
                base_y == snap(camera.y as int, s as int) - 2 * ts,
                -CAMERA_LIMIT - s <= base_x + 2 * ts <= CAMERA_LIMIT,
                -CAMERA_LIMIT - s <= base_y + 2 * ts <= CAMERA_LIMIT,
                tiles@ == planned_tiles_upto(camera, level as int) + level_tiles_upto(
                    camera,
                    level as int,
                    4 * x,
                ),
        {
            for y in 0..4u32
                invariant
                    camera_in_range(camera),
                    x < 4,
                    32 <= s <= 32768,
                    s == level_scale(level as int),
                    ts == level_tile_size(level as int),
                    base_x == snap(camera.x as int, s as int) - 2 * ts,
                    base_y == snap(camera.y as int, s as int) - 2 * ts,
                    -CAMERA_LIMIT - s <= base_x + 2 * ts <= CAMERA_LIMIT,
                    -CAMERA_LIMIT - s <= base_y + 2 * ts <= CAMERA_LIMIT,
                    tiles@ == planned_tiles_upto(camera, level as int) + level_tiles_upto(
                        camera,
                        level as int,
                        4 * x + y,
                    ),
            {
                let skip = level != 0 && (x == 1 || x == 2) && (y == 1 || y == 2);
                if !skip {
                    assert(x * ts <= 3 * 2097152 && y * ts <= 3 * 2097152) by (nonlinear_arith)
                        requires
                            x < 4,
                            y < 4,
                            0 <= ts <= 2097152,
                    ;
                    let fill_x: i64 = if x >= 2 { s } else { 0 };
                    let fill_y: i64 = if y >= 2 { s } else { 0 };
                    let tx = base_x + x as i64 * ts + fill_x;
                    let ty = base_y + y as i64 * ts + fill_y;
                    tiles.push(make_record(s, Rotation::Identity, tx, ty));
                }
                assert(tiles@ == planned_tiles_upto(camera, level as int) + level_tiles_upto(
                    camera,
                    level as int,
                    4 * x + y + 1,
                ));
            }
        }

        fillers.push(make_record(s, Rotation::Identity, snapped_x, snapped_y));

        if level < N_LEVELS - 1 {
            let next_s: i64 = 2 * s;
            let next_snap_x = snap_to(camera.x, next_s);
            let next_snap_y = snap_to(camera.y, next_s);

            let next_ts: i64 = TILE_RES as i64 * next_s;
            seams.push(make_record(s, Rotation::Identity, next_snap_x - next_ts, next_snap_y - next_ts));

            let r = trim_rotation_index(camera.x - next_snap_x, camera.y - next_snap_y, s);
            let half: i64 = s / 2;
            trims.push(make_record(s, Rotation::from_index(r), snapped_x + half, snapped_y + half));
        }
        proof {
            assert(fillers@ =~= Seq::new((level + 1) as nat, |l: int| ring_record(camera, l)));
            let n = min(level + 1, N_LEVELS - 1) as nat;
            assert(trims@ =~= Seq::new(n, |l: int| trim_record(camera, l)));
            assert(seams@ =~= Seq::new(n, |l: int| seam_record(camera, l)));
        }
        s = 2 * s;
    }
    let store = InstanceStore { tiles, fillers, trims, crosses, seams };
    assert(store.trims@ =~= planned_trims(camera));
    assert(store.seams@ =~= planned_seams(camera));
    assert(store.fillers@ =~= planned_fillers(camera));
    store
}

/// Each level places 12 tiles, the finest 16: the middle 2×2 of a coarser
/// grid is left to the next finer level.
pub proof fn lemma_level_tile_count(camera: Point2, level: int)
    requires
        0 <= level < N_LEVELS,
    ensures
        level_tiles(camera, level).len() == if level == 0 { 16int } else { 12int },
{
    reveal_with_fuel(level_tiles_upto, 17);
}

/// The first `n` levels place 16 tiles for the finest and 12 for each other.
proof fn lemma_planned_tiles_upto_len(camera: Point2, n: int)
    requires
        1 <= n <= N_LEVELS,
    ensures
        planned_tiles_upto(camera, n).len() == 16 + 12 * (n - 1),
    decreases n,
{
    lemma_level_tile_count(camera, n - 1);
    assert(planned_tiles_upto(camera, 0).len() == 0);
    if n > 1 {
        lemma_planned_tiles_upto_len(camera, n - 1);
    }
}

/// One frame places 124 tiles, one Filler per level, one Trim and one Seam per
/// level but the coarsest, and one Cross; each within its stamp's instance
/// capacity.
pub proof fn lemma_plan_counts(camera: Point2)
    ensures
        planned_tiles(camera).len() == 16 + 12 * (N_LEVELS - 1),
        planned_fillers(camera).len() == N_LEVELS,
        planned_trims(camera).len() == N_LEVELS - 1,
        planned_seams(camera).len() == N_LEVELS - 1,
        planned_crosses(camera).len() == 1,
        planned_tiles(camera).len() <= N_TILES,
        planned_fillers(camera).len() <= N_FILLERS,
        planned_trims(camera).len() <= N_TRIMS,
        planned_seams(camera).len() <= N_SEAMS,
        planned_crosses(camera).len() <= N_CROSS,
{
    lemma_planned_tiles_upto_len(camera, N_LEVELS as int);
}

/// The plan is a function of the camera position alone: two stores that both
/// hold the plan for one camera hold the same lists, element for element.
pub proof fn lemma_plan_is_deterministic(a: InstanceStore, b: InstanceStore, camera: Point2)
    requires
        a.is_plan_of(camera),
        b.is_plan_of(camera),
    ensures
        a.tiles@ == b.tiles@,
        a.fillers@ == b.fillers@,
        a.trims@ == b.trims@,
        a.crosses@ == b.crosses@,
        a.seams@ == b.seams@,
{
}

/// The snapped position of every level is a whole multiple of the level's cell
/// size, and the last such multiple at or below the camera.
pub proof fn lemma_snap_is_multiple(c: int, level: int)
    requires
        0 <= level < N_LEVELS,
    ensures
        snap(c, level_scale(level)) % level_scale(level) == 0,
        snap(c, level_scale(level)) <= c < snap(c, level_scale(level)) + level_scale(level),
{
    let s = level_scale(level);
    lemma_level_scale(level);
    lemma_mod_multiples_basic(c / s, s);
    lemma_fundamental_div_mod(c, s);
    lemma_mod_bound(c, s);
    lemma_mul_is_commutative(s, c / s);
}

/// The cell of size `2 * s` that holds `c` is fixed by the cell of size `s`
/// that holds it, and so is the half of the larger cell that `c` lies in.
proof fn lemma_coarser_cell(c: int, s: int)
    requires
        0 < s,
    ensures
        snap(c, 2 * s) == ((c / s) / 2) * (2 * s),
        (c - snap(c, 2 * s) < s) == ((c / s) % 2 == 0),
{
    let q = c / s;
    let r = c % s;
    let q2 = q / 2;
    let r2 = q % 2;
    lemma_fundamental_div_mod(c, s);
    lemma_mod_bound(c, s);
    lemma_fundamental_div_mod(q, 2);
    lemma_mod_bound(q, 2);
    let low = if r2 == 0 { r } else { s + r };
    assert(c == (2 * s) * q2 + low) by (nonlinear_arith)
        requires
            c == s * q + r,
            q == 2 * q2 + r2,
            r2 == 0 || r2 == 1,
            low == if r2 == 0 { r } else { s + r },
    ;
    lemma_fundamental_div_mod_converse(c, 2 * s, q2, low);
    lemma_mul_is_commutative(2 * s, q2);
}

/// Tiles of a level, up to grid cell `n`, for two cameras in one cell of the
/// level are the same.
proof fn lemma_level_tiles_upto_same_cell(a: Point2, b: Point2, level: int, n: int)
    requires
        snap(a.x as int, level_scale(level)) == snap(b.x as int, level_scale(level)),
        snap(a.y as int, level_scale(level)) == snap(b.y as int, level_scale(level)),
    ensures
        level_tiles_upto(a, level, n) == level_tiles_upto(b, level, n),
    decreases n,
{
    if n > 0 {
        lemma_level_tiles_upto_same_cell(a, b, level, n - 1);
    }
}

/// While the camera stays within one cell of a level's grid, every instance
/// that the level places stays as it is: its tiles, its Filler, the Cross at
/// the finest level, and its Trim and Seam.
pub proof fn lemma_level_stable_within_cell(a: Point2, b: Point2, level: int)
    requires
        0 <= level < N_LEVELS,
        a.x as int / level_scale(level) == b.x as int / level_scale(level),
        a.y as int / level_scale(level) == b.y as int / level_scale(level),
    ensures
        level_tiles(a, level) == level_tiles(b, level),
        ring_record(a, level) == ring_record(b, level),
        level == 0 ==> cross_record(a) == cross_record(b),
        level < N_LEVELS - 1 ==> trim_record(a, level) == trim_record(b, level),
        level < N_LEVELS - 1 ==> seam_record(a, level) == seam_record(b, level),
{
    let s = level_scale(level);
    lemma_level_scale(level);
    lemma_coarser_cell(a.x as int, s);
    lemma_coarser_cell(b.x as int, s);
    lemma_coarser_cell(a.y as int, s);
    lemma_coarser_cell(b.y as int, s);
    lemma_level_tiles_upto_same_cell(a, b, level, 16);
}

impl Rotation {
    /// The rotation that index `r` selects: 0°, 270°, 90°, 180° for 0, 1, 2, 3.
    pub fn from_index(r: usize) -> (rot: Rotation)
        requires
            r < 4,
        ensures
            rot == rotation_of(r as int),
    {
        if r == 0 {
            Rotation::Identity
        } else if r == 1 {
            Rotation::Deg270
        } else if r == 2 {
            Rotation::Deg90
        } else {
            Rotation::Deg180
        }
    }
}

} // verus!
