//! The five fixed 2D mesh stamps of the clipmap: Tile, Filler (ring), Trim,
//! Cross and Seam, each generated for a given tile resolution.
use crate::clipmap::{N_CROSS, N_FILLERS, N_SEAMS, N_TILES, N_TRIMS};
use vstd::arithmetic::div_mod::{
    lemma_div_pos_is_pos, lemma_fundamental_div_mod, lemma_fundamental_div_mod_converse, lemma_mod_bound,
};
use vstd::prelude::*;

verus! {

/// Tile resolution used by the terrain: quads along one edge of a tile.
pub const TILE_RES: u32 = 64;

/// Largest tile resolution for which every vertex and index count fits in a `u32`.
pub const MAX_TILE_RES: u32 = 16384;

/// A 2D vertex position in half units: the point is `(hx / 2, hy / 2)`.
///
/// Half units keep the Trim stamp, which is centred on a half-integer
/// offset, exact without floating point.
#[derive(Clone, Copy, Debug, PartialEq, Eq, Structural)]
pub struct HalfPoint {
    pub hx: i64,
    pub hy: i64,
}

/// The point `(x, y)` in whole units.
pub open spec fn whole(x: int, y: int) -> HalfPoint {
    HalfPoint { hx: (2 * x) as i64, hy: (2 * y) as i64 }
}

impl HalfPoint {
    /// The point `(x, y)` given in whole units.
    pub fn from_whole(x: i64, y: i64) -> (r: HalfPoint)
        requires
            i64::MIN <= 2 * x <= i64::MAX,
            i64::MIN <= 2 * y <= i64::MAX,
        ensures
            r == whole(x as int, y as int),
    {
        HalfPoint { hx: 2 * x, hy: 2 * y }
    }
}

/// Vertices per tile edge.
pub open spec fn patch_res(res: int) -> int {
    res + 1
}

/// Vertex count of the Tile stamp.
pub open spec fn v_tile(res: int) -> int {
    patch_res(res) * patch_res(res)
}

/// Index count of the Tile stamp.
pub open spec fn i_tile(res: int) -> int {
    6 * (res * res)
}

/// An immutable 2D mesh stamp: vertex positions, triangle indices into them,
/// and the most instances of it that one frame places.
pub struct Mesh2d {
    pub label: &'static str,
    pub vertices: Vec<HalfPoint>,
    pub indices: Vec<u32>,
    pub vertex_count: usize,
    pub index_count: usize,
    pub instance_count: usize,
}

impl Mesh2d {
    /// The counts agree with the lists, and every index names a vertex.
    pub open spec fn wf(&self) -> bool {
        &&& self.vertices@.len() == self.vertex_count
        &&& self.indices@.len() == self.index_count
        &&& forall|k: int| 0 <= k < self.indices@.len() ==> (#[trigger] self.indices@[k]) < self.vertex_count
    }

    /// The Tile stamp at tile resolution `res`, exactly.
    pub open spec fn is_tile_stamp(&self, res: int) -> bool {
        &&& self.wf()
        &&& self.label@ == "Tile"@
        &&& self.vertex_count == v_tile(res)
        &&& self.index_count == i_tile(res)
        &&& self.instance_count == N_TILES
        &&& forall|v: int| 0 <= v < self.vertex_count ==> #[trigger] self.vertices@[v] == tile_vertex(res, v)
        &&& forall|k: int| 0 <= k < self.index_count ==> #[trigger] self.indices@[k] as int == tile_index(res, k)
    }

    /// The Filler stamp at tile resolution `res`, exactly.
    pub open spec fn is_filler_stamp(&self, res: int) -> bool {
        &&& self.wf()
        &&& self.label@ == "Filler"@
        &&& self.vertex_count == v_fill(res)
        &&& self.index_count == i_fill(res)
        &&& self.instance_count == N_FILLERS
        &&& forall|v: int| 0 <= v < self.vertex_count ==> #[trigger] self.vertices@[v] == filler_vertex(res, v)
        &&& forall|k: int| 0 <= k < self.index_count ==> #[trigger] self.indices@[k] as int == filler_index(res, k)
    }

    /// The Trim stamp at tile resolution `res`, exactly.
    pub open spec fn is_trim_stamp(&self, res: int) -> bool {
        &&& self.wf()
        &&& self.label@ == "Trim"@
        &&& self.vertex_count == v_trim(res)
        &&& self.index_count == i_trim(res)
        &&& self.instance_count == N_TRIMS
        &&& forall|v: int| 0 <= v < self.vertex_count ==> #[trigger] self.vertices@[v] == trim_vertex(res, v)
        &&& forall|k: int| 0 <= k < self.index_count ==> #[trigger] self.indices@[k] as int == trim_index(res, k)
    }

    /// The Cross stamp at tile resolution `res`, exactly.
    pub open spec fn is_cross_stamp(&self, res: int) -> bool {
        &&& self.wf()
        &&& self.label@ == "Cross"@
        &&& self.vertex_count == v_cross(res)
        &&& self.index_count == i_cross(res)
        &&& self.instance_count == N_CROSS
        &&& forall|v: int| 0 <= v < self.vertex_count ==> #[trigger] self.vertices@[v] == cross_vertex(res, v)
        &&& forall|k: int| 0 <= k < self.index_count ==> #[trigger] self.indices@[k] as int == cross_index(res, k)
    }

    /// The Seam stamp at tile resolution `res`, exactly.
    pub open spec fn is_seam_stamp(&self, res: int) -> bool {
        &&& self.wf()
        &&& self.label@ == "Seam"@
        &&& self.vertex_count == v_seam(res)
        &&& self.index_count == i_seam(res)
        &&& self.instance_count == N_SEAMS
        &&& forall|v: int| 0 <= v < self.vertex_count ==> #[trigger] self.vertices@[v] == seam_vertex(res, v)
        &&& forall|k: int| 0 <= k < self.index_count ==> #[trigger] self.indices@[k] as int == seam_index(res, k)
    }
}

/// Vertex `v` of the Tile stamp: a unit grid of `patch_res × patch_res` points.
pub open spec fn tile_vertex(res: int, v: int) -> HalfPoint {
    whole(v % patch_res(res), v / patch_res(res))
}

/// Corner `j` (0..6) of the two triangles of tile quad `(x, y)`:
/// `(base, up_right, up)` and `(base, right, up_right)`.
pub open spec fn tile_quad_index(res: int, x: int, y: int, j: int) -> int {
    let base = y * patch_res(res) + x;
    let right = base + 1;
    let up = base + patch_res(res);
    let up_right = up + 1;
    if j == 0 {
        base
    } else if j == 1 {
        up_right
    } else if j == 2 {
        up
    } else if j == 3 {
        base
    } else if j == 4 {
        right
    } else {
        up_right
    }
}

/// Index `k` of the Tile stamp; quads run row by row.
pub open spec fn tile_index(res: int, k: int) -> int {
    let q = k / 6;
    tile_quad_index(res, q % res, q / res, k % 6)
}

/// Position `6 * q + j` of the index list holds corner `j` of quad `q`.
proof fn lemma_tile_index_at(res: int, q: int, j: int)
    requires
        0 <= q,
        0 <= j < 6,
    ensures
        tile_index(res, 6 * q + j) == tile_quad_index(res, q % res, q / res, j),
{
    lemma_fundamental_div_mod_converse(6 * q + j, 6, q, j);
}

/// Cell `q` of a grid `cols` wide and `rows` high lies at column `q % cols`
/// and row `q / cols`.
proof fn lemma_grid_coords(cols: int, rows: int, q: int)
    requires
        0 <= cols,
        0 <= q < rows * cols,
    ensures
        0 <= q % cols < cols,
        0 <= q / cols < rows,
        q == cols * (q / cols) + q % cols,
{
    assert(0 < cols) by (nonlinear_arith)
        requires
            0 <= cols,
            0 <= q < rows * cols,
    ;
    lemma_fundamental_div_mod(q, cols);
    lemma_mod_bound(q, cols);
    lemma_div_pos_is_pos(q, cols);
    let y = q / cols;
    assert(y < rows) by (nonlinear_arith)
        requires
            q == cols * y + q % cols,
            0 <= q % cols,
            q < rows * cols,
            0 < cols,
    ;
}

/// Every corner of a tile quad names a vertex of the tile grid.
proof fn lemma_tile_quad_bounds(res: int, q: int, j: int)
    requires
        0 <= res,
        0 <= q < res * res,
        0 <= j < 6,
    ensures
        0 <= tile_quad_index(res, q % res, q / res, j) < v_tile(res),
{
    let p = patch_res(res);
    let x = q % res;
    let y = q / res;
    lemma_grid_coords(res, res, q);
    assert(0 <= y * p) by (nonlinear_arith)
        requires
            0 <= y,
            0 <= p,
    ;
    assert(y * p + p <= res * p) by (nonlinear_arith)
        requires
            y + 1 <= res,
            0 <= p,
    ;
    assert(res * p + res < p * p) by (nonlinear_arith)
        requires
            p == res + 1,
            0 <= res,
    ;
}

/// Generates the Tile stamp: a `(res + 1) × (res + 1)` grid of vertices at unit
/// spacing, and two triangles per unit quad.
pub fn generate_tile_mesh(res: u32) -> (m: Mesh2d)
    requires
        res <= MAX_TILE_RES,
    ensures
        m.is_tile_stamp(res as int),
{
    let p: u32 = res + 1;
    assert(p * p <= 16385 * 16385) by (nonlinear_arith)
        requires
            0 <= p <= 16385,
    ;
    let n_vertices: u32 = p * p;
    let mut vertices: Vec<HalfPoint> = Vec::new();
    for v in 0..n_vertices
        invariant
            p == res + 1,
            n_vertices == v_tile(res as int),
            vertices@.len() == v,
            forall|w: int| 0 <= w < v ==> vertices@[w] == tile_vertex(res as int, w),
    {
        let x: u32 = v % p;
        let y: u32 = v / p;
        vertices.push(HalfPoint::from_whole(x as i64, y as i64));
    }

    assert(res * res <= 16384 * 16384) by (nonlinear_arith)
        requires
            res <= 16384,
    ;
    let n_quads: u32 = res * res;
    let mut indices: Vec<u32> = Vec::new();
    for q in 0..n_quads
        invariant
            p == res + 1,
            res <= MAX_TILE_RES,
            n_quads == res * res,
            n_vertices == v_tile(res as int),
            indices@.len() == 6 * q,
            forall|k: int| 0 <= k < indices@.len() ==> indices@[k] as int == tile_index(res as int, k),
            forall|k: int| 0 <= k < indices@.len() ==> (#[trigger] indices@[k]) < n_vertices,
    {
        let x: u32 = q % res;
        let y: u32 = q / res;
        proof {
            lemma_tile_quad_bounds(res as int, q as int, 5);
            lemma_tile_quad_bounds(res as int, q as int, 2);
            lemma_tile_quad_bounds(res as int, q as int, 0);
            lemma_tile_index_at(res as int, q as int, 0);
            lemma_tile_index_at(res as int, q as int, 1);
            lemma_tile_index_at(res as int, q as int, 2);
            lemma_tile_index_at(res as int, q as int, 3);
            lemma_tile_index_at(res as int, q as int, 4);
            lemma_tile_index_at(res as int, q as int, 5);
        }
        let base: u32 = y * p + x;
        let right: u32 = base + 1;
        let up: u32 = base + p;
        let up_right: u32 = up + 1;
        indices.push(base);
        indices.push(up_right);
        indices.push(up);
        indices.push(base);
        indices.push(right);
        indices.push(up_right);
    }
    proof {
        reveal_strlit("Tile");
    }
    Mesh2d {
        label: "Tile",
        vertices,
        indices,
        vertex_count: n_vertices as usize,
        index_count: (6 * n_quads) as usize,
        instance_count: N_TILES,
    }
}

/// Vertex count of the Filler stamp.
pub open spec fn v_fill(res: int) -> int {
    8 * patch_res(res)
}

/// Index count of the Filler stamp.
pub open spec fn i_fill(res: int) -> int {
    24 * res
}

/// Vertex `v` of the Filler stamp. Vertices come in pairs across an arm one
/// unit wide; the four arms run outward from the tile's edges along +x, +y,
/// -x and -y, `patch_res` pairs each.
pub open spec fn filler_vertex(res: int, v: int) -> HalfPoint {
    let t = v / 2;
    let side = v % 2;
    let arm = t / patch_res(res);
    let i = t % patch_res(res);
    if arm == 0 {
        whole(res + i + 1, side)
    } else if arm == 1 {
        whole(1 - side, res + i + 1)
    } else if arm == 2 {
        whole(-(res + i), 1 - side)
    } else {
        whole(side, -(res + i))
    }
}

/// Corner `j` of the two triangles of Filler quad `a`. Horizontal arms (even)
/// wind `[br, bl, tr], [bl, tl, tr]`; vertical arms (odd), whose local up
/// axis is turned, wind `[br, bl, tl], [br, tl, tr]`.
pub open spec fn filler_quad_index(res: int, a: int, j: int) -> int {
    let arm = a / res;
    let local = a % res;
    let bl = arm * patch_res(res) * 2 + local * 2;
    let br = bl + 1;
    let tl = bl + 2;
    let tr = tl + 1;
    if arm % 2 == 0 {
        if j == 0 { br } else if j == 1 { bl } else if j == 2 { tr }
        else if j == 3 { bl } else if j == 4 { tl } else { tr }
    } else {
        if j == 0 { br } else if j == 1 { bl } else if j == 2 { tl }
        else if j == 3 { br } else if j == 4 { tl } else { tr }
    }
}

/// Index `k` of the Filler stamp; quads run arm by arm, outward.
pub open spec fn filler_index(res: int, k: int) -> int {
    filler_quad_index(res, k / 6, k % 6)
}

/// Generates the Filler stamp: four strips one unit wide that run outward
/// from the four edges of a tile, `res + 1` units each.
pub fn generate_filler_mesh(res: u32) -> (m: Mesh2d)
    requires
        res <= MAX_TILE_RES,
    ensures
        m.is_filler_stamp(res as int),
{
    let p: u32 = res + 1;
    let r: i64 = res as i64;
    let mut vertices: Vec<HalfPoint> = Vec::new();
    for t in 0..4 * p
        invariant
            p == res + 1,
            r == res,
            res <= MAX_TILE_RES,
            vertices@.len() == 2 * t,
            forall|w: int| 0 <= w < vertices@.len() ==> vertices@[w] == filler_vertex(res as int, w),
    {
        let arm: u32 = t / p;
        let i: i64 = (t % p) as i64;
        let (first, second) = if arm == 0 {
            let x = r + i + 1;
            (HalfPoint::from_whole(x, 0), HalfPoint::from_whole(x, 1))
        } else if arm == 1 {
            let y = r + i + 1;
            (HalfPoint::from_whole(1, y), HalfPoint::from_whole(0, y))
        } else if arm == 2 {
            let x = -(r + i);
            (HalfPoint::from_whole(x, 1), HalfPoint::from_whole(x, 0))
        } else {
            let y = -(r + i);
            (HalfPoint::from_whole(0, y), HalfPoint::from_whole(1, y))
        };
        vertices.push(first);
        vertices.push(second);
    }

    let n_vertices: u32 = 8 * p;
    let n_quads: u32 = 4 * res;
    let mut indices: Vec<u32> = Vec::new();
    for a in 0..n_quads
        invariant
            p == res + 1,
            res <= MAX_TILE_RES,
            n_quads == 4 * res,
            n_vertices == v_fill(res as int),
            indices@.len() == 6 * a,
            forall|k: int| 0 <= k < indices@.len() ==> indices@[k] as int == filler_index(res as int, k),
            forall|k: int| 0 <= k < indices@.len() ==> (#[trigger] indices@[k]) < n_vertices,
    {
        proof {
            lemma_grid_coords(res as int, 4, a as int);
        }
        let arm: u32 = a / res;
        let local: u32 = a % res;
        assert(arm * p * 2 + local * 2 + 3 < 8 * p) by (nonlinear_arith)
            requires
                arm < 4,
                local < res,
                p == res + 1,
        ;
        let arm_start: u32 = arm * p * 2;
        let bl: u32 = arm_start + local * 2;
        let br: u32 = bl + 1;
        let tl: u32 = bl + 2;
        let tr: u32 = tl + 1;
        if arm % 2 == 0 {
            indices.push(br);
            indices.push(bl);
            indices.push(tr);
            indices.push(bl);
            indices.push(tl);
            indices.push(tr);
        } else {
            indices.push(br);
            indices.push(bl);
            indices.push(tl);
            indices.push(br);
            indices.push(tl);
            indices.push(tr);
        }
    }
    proof {
        reveal_strlit("Filler");
    }
    Mesh2d {
        label: "Filler",
        vertices,
        indices,
        vertex_count: n_vertices as usize,
        index_count: (6 * n_quads) as usize,
        instance_count: N_FILLERS,
    }
}

/// Vertices along one edge of the clipmap ring: `4 * res + 2`.
pub open spec fn clip_vert_res(res: int) -> int {
    4 * res + 2
}

/// Vertex count of the Trim stamp.
pub open spec fn v_trim(res: int) -> int {
    (clip_vert_res(res) * 2 + 1) * 2
}

/// Index count of the Trim stamp.
pub open spec fn i_trim(res: int) -> int {
    (clip_vert_res(res) * 2 - 1) * 6
}

/// The point `(hx / 2, hy / 2)`.
pub open spec fn half(hx: int, hy: int) -> HalfPoint {
    HalfPoint { hx: hx as i64, hy: hy as i64 }
}

/// Vertex `v` of the Trim stamp: an L of two strips one unit wide, a vertical
/// one of `c + 1` vertex pairs from the top down, then a horizontal one of `c`
/// pairs to the right, all moved by half the L's extent `c + 1` so that the
/// L is centred on the origin (`c` is `clip_vert_res`).
pub open spec fn trim_vertex(res: int, v: int) -> HalfPoint {
    let c = clip_vert_res(res);
    let h = c + 1;
    let t = v / 2;
    let side = v % 2;
    if t <= c {
        half(2 * side - h, 2 * (c - t) - h)
    } else {
        half(2 * (t - c) - h, 2 * side - h)
    }
}

/// Corner `j` of the two triangles of Trim quad `q`: quads `0..c` step down
/// the vertical strip, the rest along the horizontal one.
pub open spec fn trim_quad_index(res: int, q: int, j: int) -> int {
    let base = if q < clip_vert_res(res) { 2 * q } else { 2 * q + 2 };
    if j == 0 { base + 1 } else if j == 1 { base } else if j == 2 { base + 2 }
    else if j == 3 { base + 3 } else if j == 4 { base + 1 } else { base + 2 }
}

/// Index `k` of the Trim stamp.
pub open spec fn trim_index(res: int, k: int) -> int {
    trim_quad_index(res, k / 6, k % 6)
}

/// Generates the Trim stamp: the L-shaped piece that fills the gap between a
/// level's tiles and the next coarser level along one corner.
pub fn generate_trim_mesh(res: u32) -> (m: Mesh2d)
    requires
        res <= MAX_TILE_RES,
    ensures
        m.is_trim_stamp(res as int),
{
    let c: u32 = 4 * res + 2;
    let h: i64 = c as i64 + 1;
    let mut vertices: Vec<HalfPoint> = Vec::new();
    // vertical strip, from the top down
    for i in 0..c + 1
        invariant
            c == clip_vert_res(res as int),
            h == c + 1,
            res <= MAX_TILE_RES,
            vertices@.len() == 2 * i,
            forall|w: int| 0 <= w < vertices@.len() ==> vertices@[w] == trim_vertex(res as int, w),
    {
        let hy: i64 = 2 * (c as i64 - i as i64) - h;
        vertices.push(HalfPoint { hx: -h, hy });
        vertices.push(HalfPoint { hx: 2 - h, hy });
    }
    // horizontal strip, to the right
    for i in 0..c
        invariant
            c == clip_vert_res(res as int),
            h == c + 1,
            res <= MAX_TILE_RES,
            vertices@.len() == 2 * (c + 1) + 2 * i,
            forall|w: int| 0 <= w < vertices@.len() ==> vertices@[w] == trim_vertex(res as int, w),
    {
        let hx: i64 = 2 * (i as i64 + 1) - h;
        vertices.push(HalfPoint { hx, hy: -h });
        vertices.push(HalfPoint { hx, hy: 2 - h });
    }

    let n_vertices: u32 = (2 * c + 1) * 2;
    let mut indices: Vec<u32> = Vec::new();
    for i in 0..c
        invariant
            c == clip_vert_res(res as int),
            res <= MAX_TILE_RES,
            n_vertices == v_trim(res as int),
            indices@.len() == 6 * i,
            forall|k: int| 0 <= k < indices@.len() ==> indices@[k] as int == trim_index(res as int, k),
            forall|k: int| 0 <= k < indices@.len() ==> (#[trigger] indices@[k]) < n_vertices,
    {
        let base: u32 = i * 2;
        indices.push(base + 1);
        indices.push(base);
        indices.push(base + 2);
        indices.push(base + 3);
        indices.push(base + 1);
        indices.push(base + 2);
    }
    let start_h: u32 = 2 * (c + 1);
    for i in 0..c - 1
        invariant
            c == clip_vert_res(res as int),
            res <= MAX_TILE_RES,
            start_h == 2 * (c + 1),
            n_vertices == v_trim(res as int),
            indices@.len() == 6 * (c + i),
            forall|k: int| 0 <= k < indices@.len() ==> indices@[k] as int == trim_index(res as int, k),
            forall|k: int| 0 <= k < indices@.len() ==> (#[trigger] indices@[k]) < n_vertices,
    {
        let base: u32 = start_h + i * 2;
        indices.push(base + 1);
        indices.push(base);
        indices.push(base + 2);
        indices.push(base + 3);
        indices.push(base + 1);
        indices.push(base + 2);
    }
    proof {
        reveal_strlit("Trim");
    }
    Mesh2d {
        label: "Trim",
        vertices,
        indices,
        vertex_count: n_vertices as usize,
        index_count: ((2 * c - 1) * 6) as usize,
        instance_count: N_TRIMS,
    }
}

/// Vertex count of the Cross stamp.
pub open spec fn v_cross(res: int) -> int {
    8 * patch_res(res)
}

/// Index count of the Cross stamp.
pub open spec fn i_cross(res: int) -> int {
    24 * res + 6
}

/// Vertex `v` of the Cross stamp: a horizontal strip one unit wide of
/// `2 * patch_res` vertex pairs from `x = -res`, then a vertical one from
/// `y = -res`.
pub open spec fn cross_vertex(res: int, v: int) -> HalfPoint {
    let t = v / 2;
    let side = v % 2;
    if t < 2 * patch_res(res) {
        whole(t - res, side)
    } else {
        whole(side, t - 2 * patch_res(res) - res)
    }
}

/// Corner `j` of the two triangles of Cross quad `q`. The first `2 * res + 1`
/// quads cover the horizontal strip; the rest cover the vertical strip, where
/// the quad at its centre, already covered by the horizontal strip, is left out.
pub open spec fn cross_quad_index(res: int, q: int, j: int) -> int {
    let n_h = 2 * res + 1;
    if q < n_h {
        let bl = 2 * q;
        let br = bl + 1;
        let tl = bl + 2;
        let tr = br + 2;
        if j == 0 { br } else if j == 1 { bl } else if j == 2 { tr }
        else if j == 3 { bl } else if j == 4 { tl } else { tr }
    } else {
        let qv = q - n_h;
        let i = if qv < res { qv } else { qv + 1 };
        let vb = 4 * patch_res(res);
        let bl = vb + 2 * i;
        let br = bl + 1;
        let tl = bl + 2;
        let tr = br + 2;
        if j == 0 { br } else if j == 1 { tr } else if j == 2 { bl }
        else if j == 3 { bl } else if j == 4 { tr } else { tl }
    }
}

/// Index `k` of the Cross stamp.
pub open spec fn cross_index(res: int, k: int) -> int {
    cross_quad_index(res, k / 6, k % 6)
}

/// Generates the Cross stamp: two perpendicular strips through the origin that
/// cover the ground under the camera at the finest level.
pub fn generate_cross_mesh(res: u32) -> (m: Mesh2d)
    requires
        res <= MAX_TILE_RES,
    ensures
        m.is_cross_stamp(res as int),
{
    let p: u32 = res + 1;
    let r: i64 = res as i64;
    let mut vertices: Vec<HalfPoint> = Vec::new();
    // horizontal strip
    for i in 0..p * 2
        invariant
            p == res + 1,
            r == res,
            res <= MAX_TILE_RES,
            vertices@.len() == 2 * i,
            forall|w: int| 0 <= w < vertices@.len() ==> vertices@[w] == cross_vertex(res as int, w),
    {
        let x: i64 = i as i64 - r;
        vertices.push(HalfPoint::from_whole(x, 0));
        vertices.push(HalfPoint::from_whole(x, 1));
    }
    let vert_base: u32 = 4 * p;
    // vertical strip
    for i in 0..p * 2
        invariant
            p == res + 1,
            r == res,
            res <= MAX_TILE_RES,
            vert_base == 4 * p,
            vertices@.len() == vert_base + 2 * i,
            forall|w: int| 0 <= w < vertices@.len() ==> vertices@[w] == cross_vertex(res as int, w),
    {
        let y: i64 = i as i64 - r;
        vertices.push(HalfPoint::from_whole(0, y));
        vertices.push(HalfPoint::from_whole(1, y));
    }

    let n_vertices: u32 = 8 * p;
    let n_strip: u32 = 2 * res + 1;
    let mut indices: Vec<u32> = Vec::new();
    // horizontal strip
    for i in 0..n_strip
        invariant
            p == res + 1,
            res <= MAX_TILE_RES,
            n_strip == 2 * res + 1,
            n_vertices == v_cross(res as int),
            indices@.len() == 6 * i,
            forall|k: int| 0 <= k < indices@.len() ==> indices@[k] as int == cross_index(res as int, k),
            forall|k: int| 0 <= k < indices@.len() ==> (#[trigger] indices@[k]) < n_vertices,
    {
        let bl: u32 = i * 2;
        let br: u32 = bl + 1;
        let tl: u32 = bl + 2;
        let tr: u32 = br + 2;
        indices.push(br);
        indices.push(bl);
        indices.push(tr);
        indices.push(bl);
        indices.push(tl);
        indices.push(tr);
    }
    // vertical strip, without its centre quad
    for i in 0..n_strip
        invariant
            p == res + 1,
            res <= MAX_TILE_RES,
            n_strip == 2 * res + 1,
            vert_base == 4 * p,
            n_vertices == v_cross(res as int),
            indices@.len() == 6 * (n_strip + if i <= res { i as int } else { i - 1 }),
            forall|k: int| 0 <= k < indices@.len() ==> indices@[k] as int == cross_index(res as int, k),
            forall|k: int| 0 <= k < indices@.len() ==> (#[trigger] indices@[k]) < n_vertices,
    {
        if i != res {
            let bl: u32 = i * 2;
            let br: u32 = bl + 1;
            let tl: u32 = bl + 2;
            let tr: u32 = br + 2;
            indices.push(vert_base + br);
            indices.push(vert_base + tr);
            indices.push(vert_base + bl);
            indices.push(vert_base + bl);
            indices.push(vert_base + tr);
            indices.push(vert_base + tl);
        }
    }
    proof {
        reveal_strlit("Cross");
    }
    Mesh2d {
        label: "Cross",
        vertices,
        indices,
        vertex_count: n_vertices as usize,
        index_count: (24 * res + 6) as usize,
        instance_count: N_CROSS,
    }
}

/// Vertex count of the Seam stamp.
pub open spec fn v_seam(res: int) -> int {
    4 * clip_vert_res(res)
}

/// Index count of the Seam stamp.
pub open spec fn i_seam(res: int) -> int {
    6 * clip_vert_res(res)
}

/// Vertex `v` of the Seam stamp: the perimeter of a square of side `c`, `c`
/// vertices per side, read bottom, right, top, left (`c` is `clip_vert_res`).
pub open spec fn seam_vertex(res: int, v: int) -> HalfPoint {
    let c = clip_vert_res(res);
    let side = v / c;
    let i = v % c;
    if side == 0 {
        whole(i, 0)
    } else if side == 1 {
        whole(c, i)
    } else if side == 2 {
        whole(c - i, c)
    } else {
        whole(0, c - i)
    }
}

/// Index `k` of the Seam stamp: triangle `t` is `(2t + 1, 2t, 2t + 2)`, the
/// last one wrapping round to vertex 0.
pub open spec fn seam_index(res: int, k: int) -> int {
    let j = 2 * (k / 3);
    let corner = k % 3;
    if corner == 0 {
        j + 1
    } else if corner == 1 {
        j
    } else {
        (j + 2) % v_seam(res)
    }
}

/// Generates the Seam stamp: a closed ring of thin triangles that seals the
/// boundary between two adjacent levels.
pub fn generate_seam_mesh(res: u32) -> (m: Mesh2d)
    requires
        res <= MAX_TILE_RES,
    ensures
        m.is_seam_stamp(res as int),
{
    let c: u32 = 4 * res + 2;
    let ci: i64 = c as i64;
    let n_vertices: u32 = 4 * c;
    let mut vertices: Vec<HalfPoint> = Vec::new();
    for v in 0..n_vertices
        invariant
            c == clip_vert_res(res as int),
            ci == c,
            n_vertices == 4 * c,
            res <= MAX_TILE_RES,
            vertices@.len() == v,
            forall|w: int| 0 <= w < vertices@.len() ==> vertices@[w] == seam_vertex(res as int, w),
    {
        proof {
            lemma_grid_coords(c as int, 4, v as int);
        }
        let side: u32 = v / c;
        let i: i64 = (v % c) as i64;
        let point = if side == 0 {
            HalfPoint::from_whole(i, 0)
        } else if side == 1 {
            HalfPoint::from_whole(ci, i)
        } else if side == 2 {
            HalfPoint::from_whole(ci - i, ci)
        } else {
            HalfPoint::from_whole(0, ci - i)
        };
        vertices.push(point);
    }

    let mut indices: Vec<u32> = Vec::new();
    for pair in 0..n_vertices / 2
        invariant
            c == clip_vert_res(res as int),
            n_vertices == v_seam(res as int),
            res <= MAX_TILE_RES,
            indices@.len() == 3 * pair,
            forall|k: int| 0 <= k < indices@.len() ==> indices@[k] as int == seam_index(res as int, k),
            forall|k: int| 0 <= k < indices@.len() ==> (#[trigger] indices@[k]) < n_vertices,
    {
        let j: u32 = pair * 2;
        indices.push(j + 1);
        indices.push(j);
        indices.push((j + 2) % n_vertices);
    }
    proof {
        reveal_strlit("Seam");
    }
    Mesh2d {
        label: "Seam",
        vertices,
        indices,
        vertex_count: n_vertices as usize,
        index_count: (6 * c) as usize,
        instance_count: N_SEAMS,
    }
}

} // verus!
