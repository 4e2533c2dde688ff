//! Shape primitives: the embedding-plane choice, per-shape parameters, and
//! the construction of one tile's local renderable geometry.
//!
//! A tile mesh is kept in exact polar lattice form: every vertex lies at an
//! integer angle in degrees on a circle whose radius is an integer number of
//! half tile sizes. Evaluating the cosine and sine of those angles, and
//! scaling by the floating-point tile size, is the embedding host's step;
//! everything structural — which vertices exist, their angles and radii, the
//! triangulation indices, one normal per vertex — is proved here.

use crate::grids::coordinates::TriangleNeighbours;
use vstd::prelude::*;

verus! {

/// Which two of the three spatial axes carry the 2-D grid; the remaining
/// axis holds a fixed layer offset. Every geometry function branches on
/// this value; no shape hardcodes an axis.
#[derive(Clone, Copy, Debug, Hash, PartialEq, Eq, Structural)]
pub enum GridAlign {
    XY,
    XZ,
}

/// Hexagon tile orientation: apex of a corner pointing up, or a flat edge
/// pointing up. Selects a 30 degree rotation of the corner fan and of the
/// axial-to-plane formula.
#[derive(Clone, Copy, Debug, Hash, PartialEq, Eq, Structural)]
pub enum HexOrientation {
    PointyUp,
    FlatUp,
}

/// Parameters of a triangle grid. The continuous edge size and layer
/// offset are scale factors owned by the embedding host: all verified
/// geometry is exact in units of half the size (and `sqrt(3)/2` times the
/// size along the columns), so they never appear here.
#[derive(Clone, Copy, Debug, PartialEq, Eq, Structural)]
pub struct Triangles {
    pub alignment: GridAlign,
    pub neighbors: TriangleNeighbours,
}

/// Parameters of a square grid; see `Triangles` for why the continuous
/// edge size and layer offset stay with the embedding host.
#[derive(Clone, Copy, Debug, PartialEq, Eq, Structural)]
pub struct Squares {
    pub alignment: GridAlign,
}

/// Parameters of a hexagon grid; see `Triangles` for why the continuous
/// edge size and layer offset stay with the embedding host.
#[derive(Clone, Copy, Debug, PartialEq, Eq, Structural)]
pub struct Hexes {
    pub alignment: GridAlign,
    pub orientation: HexOrientation,
}

/// One vertex of a tile mesh, in polar lattice form: the vertex sits at
/// `angle_deg` degrees (counter-clockwise in the grid plane), at a radius
/// of `radius_halves` times half the tile size. Tile corners lie at two
/// halves (the full size), the hexagon's centre vertex at zero, and the
/// triangle tile's auxiliary edge-midpoint vertex at one half.
#[derive(Clone, Copy, Debug, Hash, PartialEq, Eq, Structural)]
pub struct MeshVertex {
    pub angle_deg: u32,
    pub radius_halves: u32,
}

/// One tile's local geometry: a position list in polar lattice form, a
/// parallel normal list (one normal per position, each the outward axis of
/// the chosen plane — the tiles are planar), and a triangulation index
/// list referencing positions.
#[derive(Debug)]
pub struct TileMesh {
    pub positions: Vec<MeshVertex>,
    pub normals: Vec<GridAlign>,
    pub indices: Vec<u32>,
}

/// Mesh well-formedness: the normal list is parallel to the position list,
/// the index count is a multiple of three, and every index references a
/// position.
pub open spec fn tile_mesh_well_formed(m: TileMesh) -> bool {
    &&& m.normals@.len() == m.positions@.len()
    &&& m.indices@.len() % 3 == 0
    &&& forall|i: int| 0 <= i < m.indices@.len() ==> (m.indices@[i] as int) < m.positions@.len()
}

/// All normals of the mesh name the outward axis of `alignment`'s plane.
pub open spec fn tile_mesh_normals_along(m: TileMesh, alignment: GridAlign) -> bool {
    forall|i: int| 0 <= i < m.normals@.len() ==> m.normals@[i] == alignment
}


/// The full contract of the triangle tile mesh for a given plane.
pub open spec fn triangle_tile_mesh(m: TileMesh, alignment: GridAlign) -> bool {
    &&& tile_mesh_well_formed(m)
    &&& tile_mesh_normals_along(m, alignment)
    &&& m.positions@.len() == 4
    &&& m.positions@[0] == (MeshVertex { angle_deg: 90, radius_halves: 2 })
    &&& m.positions@[1] == (MeshVertex { angle_deg: 210, radius_halves: 2 })
    &&& m.positions@[2] == (MeshVertex { angle_deg: 330, radius_halves: 2 })
    &&& m.positions@[3] == (MeshVertex { angle_deg: 270, radius_halves: 1 })
    &&& m.indices@ == seq![0u32, 1u32, 3u32, 0u32, 3u32, 2u32]
}

impl Triangles {
    /// Builds the shared triangle tile: three corners on the size circle,
    /// 120 degrees apart with a 90 degree base offset, plus an auxiliary
    /// fourth vertex at the midpoint of corners 1 and 2 (kept so the index
    /// buffer stays quad-style: two index triangles that together cover
    /// the one geometric triangle). The midpoint of two corners 120
    /// degrees apart on the size circle lies on the bisecting angle at
    /// exactly half the size.
    pub fn to_mesh(&self) -> (m: TileMesh)
        ensures
            triangle_tile_mesh(m, self.alignment),
    {
        let positions: Vec<MeshVertex> = vec![
            MeshVertex { angle_deg: 90, radius_halves: 2 },
            MeshVertex { angle_deg: 210, radius_halves: 2 },
            MeshVertex { angle_deg: 330, radius_halves: 2 },
            MeshVertex { angle_deg: 270, radius_halves: 1 },
        ];
        let normals: Vec<GridAlign> = vec![
            self.alignment,
            self.alignment,
            self.alignment,
            self.alignment,
        ];
        let indices: Vec<u32> = vec![0, 1, 3, 0, 3, 2];
        proof {
            assert(indices@ =~= seq![0u32, 1u32, 3u32, 0u32, 3u32, 2u32]);
        }
        TileMesh { positions, normals, indices }
    }
}


/// The full contract of the square tile mesh for a given plane.
pub open spec fn square_tile_mesh(m: TileMesh, alignment: GridAlign) -> bool {
    &&& tile_mesh_well_formed(m)
    &&& tile_mesh_normals_along(m, alignment)
    &&& m.positions@.len() == 4
    &&& m.positions@[0] == (MeshVertex { angle_deg: 45, radius_halves: 2 })
    &&& m.positions@[1] == (MeshVertex { angle_deg: 135, radius_halves: 2 })
    &&& m.positions@[2] == (MeshVertex { angle_deg: 225, radius_halves: 2 })
    &&& m.positions@[3] == (MeshVertex { angle_deg: 315, radius_halves: 2 })
    &&& m.indices@ == seq![0u32, 1u32, 2u32, 0u32, 2u32, 3u32]
}

impl Squares {
    /// Builds the shared square tile: four corners on the size circle, 90
    /// degrees apart with a 45 degree base offset, triangulated as two
    /// index triangles.
    pub fn to_mesh(&self) -> (m: TileMesh)
        ensures
            square_tile_mesh(m, self.alignment),
    {
        let positions: Vec<MeshVertex> = vec![
            MeshVertex { angle_deg: 45, radius_halves: 2 },
            MeshVertex { angle_deg: 135, radius_halves: 2 },
            MeshVertex { angle_deg: 225, radius_halves: 2 },
            MeshVertex { angle_deg: 315, radius_halves: 2 },
        ];
        let normals: Vec<GridAlign> = vec![
            self.alignment,
            self.alignment,
            self.alignment,
            self.alignment,
        ];
        let indices: Vec<u32> = vec![0, 1, 2, 0, 2, 3];
        proof {
            assert(indices@ =~= seq![0u32, 1u32, 2u32, 0u32, 2u32, 3u32]);
        }
        TileMesh { positions, normals, indices }
    }
}

/// The corner-fan offset of a hexagon tile, in degrees: 30 for pointy-up,
/// 0 for flat-up.
pub open spec fn hex_corner_offset(orientation: HexOrientation) -> int {
    match orientation {
        HexOrientation::PointyUp => 30,
        HexOrientation::FlatUp => 0,
    }
}


/// The full contract of the hexagon tile mesh for a given plane and
/// orientation.
pub open spec fn hex_tile_mesh(m: TileMesh, alignment: GridAlign, orientation: HexOrientation) -> bool {
    &&& tile_mesh_well_formed(m)
    &&& tile_mesh_normals_along(m, alignment)
    &&& m.positions@.len() == 7
    &&& m.positions@[0] == (MeshVertex { angle_deg: 0, radius_halves: 0 })
    &&& forall|j: int|
        1 <= j < 7 ==> m.positions@[j].angle_deg == (j - 1) * 60 + hex_corner_offset(orientation)
            && m.positions@[j].radius_halves == 2
    &&& m.indices@ == seq![
        0u32, 1u32, 2u32, 0u32, 2u32, 3u32, 0u32, 3u32, 4u32, 0u32, 4u32, 5u32, 0u32, 5u32, 6u32,
        0u32, 6u32, 1u32,
    ]
}

impl Hexes {
    /// Builds the shared hexagon tile: a centre vertex plus six corners on
    /// the size circle 60 degrees apart (offset 30 degrees for pointy-up),
    /// triangulated as a fan from the centre through consecutive corner
    /// pairs, the last corner wrapping back to the first.
    pub fn to_mesh(&self) -> (m: TileMesh)
        ensures
            hex_tile_mesh(m, self.alignment, self.orientation),
    {
        let offset: u32 = match self.orientation {
            HexOrientation::PointyUp => 30,
            HexOrientation::FlatUp => 0,
        };
        let positions: Vec<MeshVertex> = vec![
            MeshVertex { angle_deg: 0, radius_halves: 0 },
            MeshVertex { angle_deg: offset, radius_halves: 2 },
            MeshVertex { angle_deg: 60 + offset, radius_halves: 2 },
            MeshVertex { angle_deg: 120 + offset, radius_halves: 2 },
            MeshVertex { angle_deg: 180 + offset, radius_halves: 2 },
            MeshVertex { angle_deg: 240 + offset, radius_halves: 2 },
            MeshVertex { angle_deg: 300 + offset, radius_halves: 2 },
        ];
        let normals: Vec<GridAlign> = vec![
            self.alignment,
            self.alignment,
            self.alignment,
            self.alignment,
            self.alignment,
            self.alignment,
            self.alignment,
        ];
        let indices: Vec<u32> = vec![
            0, 1, 2, 0, 2, 3, 0, 3, 4, 0, 4, 5, 0, 5, 6, 0, 6, 1,
        ];
        proof {
            assert(indices@ =~= seq![
                0u32, 1u32, 2u32, 0u32, 2u32, 3u32, 0u32, 3u32, 4u32, 0u32, 4u32, 5u32, 0u32,
                5u32, 6u32, 0u32, 6u32, 1u32,
            ]);
        }
        TileMesh { positions, normals, indices }
    }
}

} // verus!
