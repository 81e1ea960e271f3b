//! The terrain: the five stamps, generated once, with the instances that the
//! current frame places of each.
use crate::clipmap::{
    camera_in_range, plan_instances, planned_crosses, planned_fillers, planned_seams, planned_tiles,
    planned_trims, InstanceRecord, Point2,
};
use crate::stamp::{
    generate_cross_mesh, generate_filler_mesh, generate_seam_mesh, generate_tile_mesh,
    generate_trim_mesh, Mesh2d, TILE_RES,
};
use vstd::prelude::*;

verus! {

/// Failure to set up the terrain.
#[derive(Clone, Copy, Debug, PartialEq, Eq, Structural)]
pub enum TerrainError {
    TempError,
}

impl TerrainError {
    /// A one-line description of the error.
    pub fn message(&self) -> (r: &'static str)
        ensures
            r@ == "Terrain [IO] error:"@,
    {
        proof {
            reveal_strlit("Terrain [IO] error:");
        }
        "Terrain [IO] error:"
    }
}

/// The five stamps of the terrain.
#[derive(Clone, Copy, Debug, PartialEq, Eq, Structural)]
pub enum StampKind {
    Tile,
    Cross,
    Filler,
    Trim,
    Seam,
}

/// One indexed, instanced draw of a stamp: its whole index list, and the
/// instances placed this frame (never the unused rest of the capacity).
#[derive(Clone, Copy, Debug, PartialEq, Eq, Structural)]
pub struct DrawCall {
    pub stamp: StampKind,
    pub index_count: usize,
    pub instance_count: usize,
}

/// The draw of `stamp` for component `c`.
pub open spec fn draw_of(stamp: StampKind, c: TerrainComponent) -> DrawCall {
    DrawCall { stamp, index_count: c.mesh.index_count, instance_count: c.instances@.len() as usize }
}

/// One stamp together with the instances of it that the current frame places.
pub struct TerrainComponent {
    pub instances: Vec<InstanceRecord>,
    pub mesh: Mesh2d,
}

impl TerrainComponent {
    /// A component for `mesh` with no instances placed yet.
    pub fn from_mesh(mesh: Mesh2d) -> (c: TerrainComponent)
        ensures
            c.instances@.len() == 0,
            c.mesh == mesh,
    {
        TerrainComponent { instances: Vec::new(), mesh }
    }

    /// The draw of this component as `stamp`.
    pub fn draw_call(&self, stamp: StampKind) -> (d: DrawCall)
        ensures
            d == draw_of(stamp, *self),
    {
        DrawCall { stamp, index_count: self.mesh.index_count, instance_count: self.instances.len() }
    }
}

/// The clipmap terrain: its heightmap's location and one component per stamp.
pub struct Terrain {
    pub heightmap: String,
    pub tile: TerrainComponent,
    pub cross: TerrainComponent,
    pub fill: TerrainComponent,
    pub trim: TerrainComponent,
    pub seam: TerrainComponent,
}

impl Terrain {
    /// The five stamps at `TILE_RES`, as the stamp generators make them.
    pub open spec fn has_stamps(&self) -> bool {
        &&& self.tile.mesh.is_tile_stamp(TILE_RES as int)
        &&& self.cross.mesh.is_cross_stamp(TILE_RES as int)
        &&& self.fill.mesh.is_filler_stamp(TILE_RES as int)
        &&& self.trim.mesh.is_trim_stamp(TILE_RES as int)
        &&& self.seam.mesh.is_seam_stamp(TILE_RES as int)
    }

    /// Generates the five stamps; no instance is placed until the first update.
    pub fn new(heightmap: String) -> (r: Result<Terrain, TerrainError>)
        ensures
            r is Ok,
            r matches Ok(t) ==> {
                &&& t.heightmap@ == heightmap@
                &&& t.has_stamps()
                &&& t.tile.instances@.len() == 0
                &&& t.cross.instances@.len() == 0
                &&& t.fill.instances@.len() == 0
                &&& t.trim.instances@.len() == 0
                &&& t.seam.instances@.len() == 0
            },
    {
        let tile = TerrainComponent::from_mesh(generate_tile_mesh(TILE_RES));
        let cross = TerrainComponent::from_mesh(generate_cross_mesh(TILE_RES));
        let fill = TerrainComponent::from_mesh(generate_filler_mesh(TILE_RES));
        let trim = TerrainComponent::from_mesh(generate_trim_mesh(TILE_RES));
        let seam = TerrainComponent::from_mesh(generate_seam_mesh(TILE_RES));
        Ok(Terrain { heightmap, tile, cross, fill, trim, seam })
    }

    /// The frame's draws, one per stamp, in the order Tile, Cross, Filler,
    /// Trim, Seam.
    pub fn draw_calls(&self) -> (calls: Vec<DrawCall>)
        ensures
            calls@ == seq![
                draw_of(StampKind::Tile, self.tile),
                draw_of(StampKind::Cross, self.cross),
                draw_of(StampKind::Filler, self.fill),
                draw_of(StampKind::Trim, self.trim),
                draw_of(StampKind::Seam, self.seam),
            ],
    {
        let mut calls: Vec<DrawCall> = Vec::new();
        calls.push(self.tile.draw_call(StampKind::Tile));
        calls.push(self.cross.draw_call(StampKind::Cross));
        calls.push(self.fill.draw_call(StampKind::Filler));
        calls.push(self.trim.draw_call(StampKind::Trim));
        calls.push(self.seam.draw_call(StampKind::Seam));
        assert(calls@ =~= seq![
            draw_of(StampKind::Tile, self.tile),
            draw_of(StampKind::Cross, self.cross),
            draw_of(StampKind::Filler, self.fill),
            draw_of(StampKind::Trim, self.trim),
            draw_of(StampKind::Seam, self.seam),
        ]);
        calls
    }

    /// Replaces the instances of every stamp with those placed for a camera at
    /// `camera`; the stamps themselves stay as they are.
    pub fn update(&mut self, camera: Point2)
        requires
            camera_in_range(camera),
        ensures
            final(self).heightmap == old(self).heightmap,
            final(self).tile.mesh == old(self).tile.mesh,
            final(self).cross.mesh == old(self).cross.mesh,
            final(self).fill.mesh == old(self).fill.mesh,
            final(self).trim.mesh == old(self).trim.mesh,
            final(self).seam.mesh == old(self).seam.mesh,
            final(self).tile.instances@ == planned_tiles(camera),
            final(self).cross.instances@ == planned_crosses(camera),
            final(self).fill.instances@ == planned_fillers(camera),
            final(self).trim.instances@ == planned_trims(camera),
            final(self).seam.instances@ == planned_seams(camera),
    {
        let store = plan_instances(camera);
        self.tile.instances = store.tiles;
        self.cross.instances = store.crosses;
        self.fill.instances = store.fillers;
        self.trim.instances = store.trims;
        self.seam.instances = store.seams;
    }
}

} // verus!
