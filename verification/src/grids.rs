//! Grid-level API: a configuration wrapper tying one shape's parameters to
//! its shared tile mesh and to the enumeration of a rectangular grid of
//! coordinates.
//!
//! Enumeration is row-major with the column as the outer loop: cell
//! `(i, j)` of a `width x height` sweep lands at position `i * height + j`.
//! Squares and hexagons yield one coordinate per cell; triangles yield two,
//! one per flip value, the unflipped one first. A zero width or height
//! legitimately yields an empty sequence, not an error. The shared tile
//! mesh is built once and returned beside the coordinates, to be instanced
//! at every coordinate by the embedding host.

pub mod coordinates;
pub mod primitives;
pub mod projection;

use crate::grids::coordinates::HexCoord;
use crate::grids::coordinates::SquareCoord;
use crate::grids::coordinates::TriangleCoord;
use crate::grids::primitives::hex_tile_mesh;
use crate::grids::primitives::square_tile_mesh;
use crate::grids::primitives::triangle_tile_mesh;
use crate::grids::primitives::Hexes;
use crate::grids::primitives::Squares;
use crate::grids::primitives::TileMesh;
use crate::grids::primitives::Triangles;
use vstd::arithmetic::div_mod::lemma_fundamental_div_mod_converse;
use vstd::prelude::*;

verus! {

/// Configuration of one grid: the shape parameters, owned by the caller —
/// there is no implicit global registry.
pub struct GridConfig<T>(pub T);

/// The coordinate at position `k` of a row-major square enumeration with
/// the given column height: column `k / height`, row `k % height`.
pub open spec fn square_grid_coord(height: int, k: int) -> SquareCoord {
    SquareCoord { q: (k / height) as i32, r: (k % height) as i32 }
}

/// The coordinate at position `k` of a row-major hexagon enumeration;
/// axial coordinates sweep the same rectangle of `(q, r)` pairs.
pub open spec fn hex_grid_coord(height: int, k: int) -> HexCoord {
    HexCoord { q: (k / height) as i32, r: (k % height) as i32 }
}

/// The coordinate at position `k` of a row-major triangle enumeration:
/// two coordinates per cell, one per flip value, the unflipped one first.
pub open spec fn triangle_grid_coord(height: int, k: int) -> TriangleCoord {
    let cell = k / 2;
    TriangleCoord {
        q: (cell / height) as i32,
        r: (cell % height) as i32,
        flip: k % 2 == 1,
    }
}

impl GridConfig<Triangles> {
    /// The shared tile mesh of this configuration.
    pub fn to_mesh(&self) -> (m: TileMesh)
        ensures
            triangle_tile_mesh(m, self.0.alignment),
    {
        self.0.to_mesh()
    }

    /// The shared tile mesh and the full ordered coordinate sequence of a
    /// `width x height` grid: two coordinates per cell, one per flip
    /// value.
    pub fn to_grid(&self, width: u32, height: u32) -> (out: (TileMesh, Vec<TriangleCoord>))
        requires
            width <= 0x7fff_ffff,
            height <= 0x7fff_ffff,
        ensures
            triangle_tile_mesh(out.0, self.0.alignment),
            out.1@.len() == 2 * width * height,
            forall|k: int|
                0 <= k < out.1@.len() ==> out.1@[k] == triangle_grid_coord(height as int, k),
    {
        let mesh = self.to_mesh();
        let mut coordinates: Vec<TriangleCoord> = Vec::new();
        let mut i: u32 = 0;
        while i < width
            invariant
                i <= width,
                width <= 0x7fff_ffff,
                height <= 0x7fff_ffff,
                coordinates@.len() == 2 * ((i as int) * (height as int)),
                forall|k: int|
                    0 <= k < coordinates@.len() ==> coordinates@[k] == triangle_grid_coord(
                        height as int,
                        k,
                    ),
            decreases width - i,
        {
            let mut j: u32 = 0;
            while j < height
                invariant
                    j <= height,
                    i < width,
                    width <= 0x7fff_ffff,
                    height <= 0x7fff_ffff,
                    coordinates@.len() == 2 * ((i as int) * (height as int) + (j as int)),
                    forall|k: int|
                        0 <= k < coordinates@.len() ==> coordinates@[k] == triangle_grid_coord(
                            height as int,
                            k,
                        ),
                decreases height - j,
            {
                coordinates.push(TriangleCoord { q: i as i32, r: j as i32, flip: false });
                coordinates.push(TriangleCoord { q: i as i32, r: j as i32, flip: true });
                proof {
                    let hi = height as int;
                    let cell = (i as int) * hi + (j as int);
                    lemma_fundamental_div_mod_converse(2 * cell, 2, cell, 0);
                    lemma_fundamental_div_mod_converse(2 * cell + 1, 2, cell, 1);
                    lemma_fundamental_div_mod_converse(cell, hi, i as int, j as int);
                }
                j = j + 1;
            }
            proof {
                assert((i as int + 1) * (height as int) == (i as int) * (height as int) + (
                height as int)) by (nonlinear_arith);
            }
            i = i + 1;
        }
        proof {
            assert(2 * (width as int) * (height as int) == 2 * ((width as int) * (height as int)))
                by (nonlinear_arith);
        }
        (mesh, coordinates)
    }
}

impl GridConfig<Squares> {
    /// The shared tile mesh of this configuration.
    pub fn to_mesh(&self) -> (m: TileMesh)
        ensures
            square_tile_mesh(m, self.0.alignment),
    {
        self.0.to_mesh()
    }

    /// The shared tile mesh and the full ordered coordinate sequence of a
    /// `width x height` grid: one coordinate per cell, row-major with the
    /// column as the outer loop.
    pub fn to_grid(&self, width: u32, height: u32) -> (out: (TileMesh, Vec<SquareCoord>))
        requires
            width <= 0x7fff_ffff,
            height <= 0x7fff_ffff,
        ensures
            square_tile_mesh(out.0, self.0.alignment),
            out.1@.len() == width * height,
            forall|k: int|
                0 <= k < out.1@.len() ==> out.1@[k] == square_grid_coord(height as int, k),
    {
        let mesh = self.to_mesh();
        let mut coordinates: Vec<SquareCoord> = Vec::new();
        let mut i: u32 = 0;
        while i < width
            invariant
                i <= width,
                width <= 0x7fff_ffff,
                height <= 0x7fff_ffff,
                coordinates@.len() == (i as int) * (height as int),
                forall|k: int|
                    0 <= k < coordinates@.len() ==> coordinates@[k] == square_grid_coord(
                        height as int,
                        k,
                    ),
            decreases width - i,
        {
            let mut j: u32 = 0;
            while j < height
                invariant
                    j <= height,
                    i < width,
                    width <= 0x7fff_ffff,
                    height <= 0x7fff_ffff,
                    coordinates@.len() == (i as int) * (height as int) + (j as int),
                    forall|k: int|
                        0 <= k < coordinates@.len() ==> coordinates@[k] == square_grid_coord(
                            height as int,
                            k,
                        ),
                decreases height - j,
            {
                coordinates.push(SquareCoord { q: i as i32, r: j as i32 });
                proof {
                    let hi = height as int;
                    let cell = (i as int) * hi + (j as int);
                    lemma_fundamental_div_mod_converse(cell, hi, i as int, j as int);
                }
                j = j + 1;
            }
            proof {
                assert((i as int + 1) * (height as int) == (i as int) * (height as int) + (
                height as int)) by (nonlinear_arith);
            }
            i = i + 1;
        }
        (mesh, coordinates)
    }
}

impl GridConfig<Hexes> {
    /// The shared tile mesh of this configuration.
    pub fn to_mesh(&self) -> (m: TileMesh)
        ensures
            hex_tile_mesh(m, self.0.alignment, self.0.orientation),
    {
        self.0.to_mesh()
    }

    /// The shared tile mesh and the full ordered coordinate sequence of a
    /// `width x height` grid: one axial coordinate per cell, row-major
    /// with the column as the outer loop.
    pub fn to_grid(&self, width: u32, height: u32) -> (out: (TileMesh, Vec<HexCoord>))
        requires
            width <= 0x7fff_ffff,
            height <= 0x7fff_ffff,
        ensures
            hex_tile_mesh(out.0, self.0.alignment, self.0.orientation),
            out.1@.len() == width * height,
            forall|k: int|
                0 <= k < out.1@.len() ==> out.1@[k] == hex_grid_coord(height as int, k),
    {
        let mesh = self.to_mesh();
        let mut coordinates: Vec<HexCoord> = Vec::new();
        let mut i: u32 = 0;
        while i < width
            invariant
                i <= width,
                width <= 0x7fff_ffff,
                height <= 0x7fff_ffff,
                coordinates@.len() == (i as int) * (height as int),
                forall|k: int|
                    0 <= k < coordinates@.len() ==> coordinates@[k] == hex_grid_coord(
                        height as int,
                        k,
                    ),
            decreases width - i,
        {
            let mut j: u32 = 0;
            while j < height
                invariant
                    j <= height,
                    i < width,
                    width <= 0x7fff_ffff,
                    height <= 0x7fff_ffff,
                    coordinates@.len() == (i as int) * (height as int) + (j as int),
                    forall|k: int|
                        0 <= k < coordinates@.len() ==> coordinates@[k] == hex_grid_coord(
                            height as int,
                            k,
                        ),
                decreases height - j,
            {
                coordinates.push(HexCoord { q: i as i32, r: j as i32 });
                proof {
                    let hi = height as int;
                    let cell = (i as int) * hi + (j as int);
                    lemma_fundamental_div_mod_converse(cell, hi, i as int, j as int);
                }
                j = j + 1;
            }
            proof {
                assert((i as int + 1) * (height as int) == (i as int) * (height as int) + (
                height as int)) by (nonlinear_arith);
            }
            i = i + 1;
        }
        (mesh, coordinates)
    }
}

} // verus!
