//! Forward and inverse projection between logical grid coordinates and
//! continuous positions in the chosen embedding plane.
//!
//! Positions are kept in exact lattice units. Along a grid axis a tile
//! centre sits at an integer multiple of half the tile size, or of
//! `sqrt(3)/2` times the tile size; the factors are irrational, so they are
//! carried symbolically and the integer multiples are computed and proved
//! here. The embedding host multiplies each multiple by the corresponding
//! floating-point unit length, adds the layer offset on the third axis, and
//! is done: no rounding or branching is left on the unverified side.
//!
//! For the triangle grid with edge-circle size `s`: the tile width is
//! `ab = sqrt(3) * s`, the row height is `h = 3/2 * s`, and the row
//! adjustment is `2s - h = s/2`. A coordinate `(q, r, flip)` therefore sits
//! at `(q + flip)` units of `ab/2 = sqrt(3)/2 * s` along the columns and at
//! `3r ± (flip xor odd(r))` units of `s/2` along the rows — all integers.

use crate::grids::coordinates::iabs;
use crate::grids::coordinates::TriangleCoord;
use crate::grids::coordinates::SquareCoord;
use crate::grids::coordinates::HexCoord;
use crate::grids::primitives::GridAlign;
use crate::grids::primitives::HexOrientation;
use crate::grids::primitives::Triangles;
use crate::grids::primitives::Squares;
use crate::grids::primitives::Hexes;
use vstd::arithmetic::div_mod::lemma_div_is_ordered;
use vstd::arithmetic::div_mod::lemma_div_multiples_vanish;
use vstd::arithmetic::div_mod::lemma_fundamental_div_mod;
use vstd::arithmetic::div_mod::lemma_fundamental_div_mod_converse;
use vstd::arithmetic::div_mod::lemma_mod_bound;
use vstd::prelude::*;

verus! {

/// Whether row `r` is odd; rows of triangles alternate orientation, and
/// the row adjustment direction alternates with this parity.
pub open spec fn is_odd_row(r: int) -> bool {
    r % 2 != 0
}

/// `flip` as the 0/1 integer it contributes to the column position.
pub open spec fn flip_val(c: TriangleCoord) -> int {
    if c.flip {
        1int
    } else {
        0int
    }
}

/// The 0/1 row-adjustment term `flip xor odd(r)`: consecutive rows
/// interlock by less than a full row height, and the offset direction
/// alternates both with row parity and with which triangle of the cell is
/// placed.
pub open spec fn triangle_row_bit(c: TriangleCoord) -> int {
    row_bit_of(c.flip, c.r as int)
}

/// Column position of a triangle coordinate, in units of `sqrt(3)/2`
/// times the tile size (half the tile width).
pub open spec fn triangle_u(c: TriangleCoord) -> int {
    c.q + flip_val(c)
}

/// Row position of a triangle coordinate, in units of half the tile size.
/// The adjustment term is added in the `XY` plane and subtracted in the
/// `XZ` plane, matching the handedness of the two embeddings.
pub open spec fn triangle_v(c: TriangleCoord, alignment: GridAlign) -> int {
    match alignment {
        GridAlign::XY => 3 * c.r + triangle_row_bit(c),
        GridAlign::XZ => 3 * c.r - triangle_row_bit(c),
    }
}

/// A triangle tile's position in lattice units: `x_root3_halves` units of
/// `sqrt(3)/2 * size` along the first planar axis, and `lat_halves` units
/// of `size / 2` along the second planar axis (`y` for `XY`, `z` for
/// `XZ`); the third axis carries the host's layer offset.
#[derive(Clone, Copy, Debug, PartialEq, Eq, Structural)]
pub struct TriangleUnitPos {
    pub x_root3_halves: i64,
    pub lat_halves: i64,
}

/// A triangle tile's full placement: its position in lattice units plus a
/// rotation about the plane's outward axis, in half turns (multiples of
/// pi radians).
#[derive(Clone, Copy, Debug, PartialEq, Eq, Structural)]
pub struct TrianglePlacement {
    pub pos: TriangleUnitPos,
    pub half_turns: i64,
}

impl TriangleCoord {
    /// Projects this coordinate into the grid plane, in lattice units.
    pub fn to_vec3(&self, primitive: &Triangles) -> (p: TriangleUnitPos)
        ensures
            p.x_root3_halves == triangle_u(*self),
            p.lat_halves == triangle_v(*self, primitive.alignment),
    {
        let flip_term: i64 = if self.flip {
            1
        } else {
            0
        };
        let odd_row: bool = self.r % 2 != 0;
        let bit: i64 = if self.flip != odd_row {
            1
        } else {
            0
        };
        let x: i64 = self.q as i64 + flip_term;
        let lat: i64 = match primitive.alignment {
            GridAlign::XY => 3 * (self.r as i64) + bit,
            GridAlign::XZ => 3 * (self.r as i64) - bit,
        };
        TriangleUnitPos { x_root3_halves: x, lat_halves: lat }
    }

    /// Projects this coordinate into the grid plane and adds the tile's
    /// rotation: `flip + r` half turns about the plane's outward axis, so
    /// alternating triangles and alternating rows point in opposite
    /// directions.
    pub fn to_world_pos(&self, primitive: Triangles) -> (t: TrianglePlacement)
        ensures
            t.pos.x_root3_halves == triangle_u(*self),
            t.pos.lat_halves == triangle_v(*self, primitive.alignment),
            t.half_turns == flip_val(*self) + self.r,
    {
        let pos = self.to_vec3(&primitive);
        let flip_term: i64 = if self.flip {
            1
        } else {
            0
        };
        TrianglePlacement { pos, half_turns: flip_term + self.r as i64 }
    }
}

/// A square tile's position in lattice units: integer multiples of the
/// host's two rectangular step lengths along the planar axes.
#[derive(Clone, Copy, Debug, PartialEq, Eq, Structural)]
pub struct SquareUnitPos {
    pub x_steps: i32,
    pub lat_steps: i32,
}

impl SquareCoord {
    /// Projects this coordinate into the grid plane: the square lattice is
    /// rectangular, so the position is exactly `q` steps along the first
    /// planar axis and `r` steps along the second (`y` for `XY`, `z` for
    /// `XZ`); the continuous step lengths stay with the host.
    pub fn to_world_pos(&self, _primitive: Squares) -> (p: SquareUnitPos)
        ensures
            p.x_steps == self.q,
            p.lat_steps == self.r,
    {
        SquareUnitPos { x_steps: self.q, lat_steps: self.r }
    }
}

/// A hexagon tile's position in lattice units: along each planar axis the
/// position is `halves` units of `size / 2` plus `root3_halves` units of
/// `sqrt(3)/2 * size`; for either orientation one of the two terms is zero
/// on each axis.
#[derive(Clone, Copy, Debug, PartialEq, Eq, Structural)]
pub struct HexUnitPos {
    pub x_halves: i64,
    pub x_root3_halves: i64,
    pub lat_halves: i64,
    pub lat_root3_halves: i64,
}

impl HexCoord {
    /// Projects this axial coordinate into the grid plane with the
    /// standard formula: for pointy-up, `x = sqrt(3) * s * (q + r/2)` and
    /// `lat = 3/2 * s * r`; for flat-up the axis roles swap. In lattice
    /// units both are exact integers: `2q + r` units of `sqrt(3)/2 * s`
    /// and `3r` units of `s/2` (pointy-up), and symmetrically for
    /// flat-up.
    pub fn to_world_pos(&self, primitive: &Hexes) -> (p: HexUnitPos)
        ensures
            primitive.orientation == HexOrientation::PointyUp ==> p.x_root3_halves == 2 * self.q
                + self.r && p.x_halves == 0 && p.lat_halves == 3 * self.r && p.lat_root3_halves
                == 0,
            primitive.orientation == HexOrientation::FlatUp ==> p.x_halves == 3 * self.q
                && p.x_root3_halves == 0 && p.lat_root3_halves == 2 * self.r + self.q
                && p.lat_halves == 0,
    {
        match primitive.orientation {
            HexOrientation::PointyUp => HexUnitPos {
                x_halves: 0,
                x_root3_halves: 2 * (self.q as i64) + self.r as i64,
                lat_halves: 3 * (self.r as i64),
                lat_root3_halves: 0,
            },
            HexOrientation::FlatUp => HexUnitPos {
                x_halves: 3 * (self.q as i64),
                x_root3_halves: 0,
                lat_halves: 0,
                lat_root3_halves: 2 * (self.r as i64) + self.q as i64,
            },
        }
    }
}

/// Rounds the rational `n / d` (with `d > 0`) to the nearest integer,
/// halves away from zero — the rounding the inverse projection applies to
/// the column estimate.
pub open spec fn round_half_from_zero(n: int, d: int) -> int {
    if n >= 0 {
        (2 * n + d) / (2 * d)
    } else {
        -((2 * (-n) + d) / (2 * d))
    }
}

/// Floor division of `a` by a positive `b` (the mathematical `/` on `int`
/// is Euclidean, which coincides with flooring for a positive divisor).
fn floor_div(a: i128, b: i128) -> (q: i128)
    requires
        1 <= b,
        i128::MIN < a,
    ensures
        q == a as int / b as int,
        -iabs(a as int) <= q <= iabs(a as int),
{
    proof {
        let ai = a as int;
        let bi = b as int;
        let qi = ai / bi;
        let m = ai % bi;
        lemma_fundamental_div_mod(ai, bi);
        lemma_mod_bound(ai, bi);
        if ai >= 0 {
            vstd::arithmetic::div_mod::lemma_div_pos_is_pos(ai, bi);
            vstd::arithmetic::div_mod::lemma_div_nonincreasing(ai, bi);
        } else {
            // qi <= 0, and qi >= ai: from ai == bi * qi + m with 0 <= m < bi.
            lemma_div_is_ordered(ai, 0, bi);
            assert(0int / bi == 0) by {
                lemma_div_multiples_vanish(0, bi);
            }
            if qi <= -1 {
                assert(qi * (1 - bi) >= bi - 1) by (nonlinear_arith)
                    requires
                        qi <= -1,
                        bi >= 1,
                ;
                assert(ai == bi * qi + m);
                assert(qi - ai == qi * (1 - bi) - m) by (nonlinear_arith)
                    requires
                        ai == bi * qi + m,
                ;
                assert(qi - ai >= bi - 1 - m);
            }
        }
    }
    a.checked_div_euclid(b).unwrap()
}

/// Rounds `n / d` to the nearest integer, halves away from zero, for
/// `1 <= d` and `|n| <= 2^30 * d`; the result is bounded by `2^30 + 1`.
fn round_div(n: i128, d: i128) -> (q: i128)
    requires
        1 <= d <= 0x7fff_ffff_ffff_ffff,
        iabs(n as int) <= 0x4000_0000 * d,
    ensures
        q == round_half_from_zero(n as int, d as int),
        -0x4000_0001 <= q <= 0x4000_0001,
{
    let two_d: i128 = 2 * d;
    if n >= 0 {
        let num: i128 = 2 * n + d;
        let q = floor_div(num, two_d);
        proof {
            let ni = n as int;
            let di = d as int;
            assert(2 * ni + di <= 0x4000_0001 * (2 * di)) by (nonlinear_arith)
                requires
                    ni <= 0x4000_0000 * di,
                    di >= 1,
            ;
            lemma_div_is_ordered(2 * ni + di, 0x4000_0001 * (2 * di), 2 * di);
            assert(((2 * di) * 0x4000_0001) / (2 * di) == 0x4000_0001) by {
                lemma_div_multiples_vanish(0x4000_0001, 2 * di);
            }
            assert(0x4000_0001 * (2 * di) == (2 * di) * 0x4000_0001) by (nonlinear_arith);
            vstd::arithmetic::div_mod::lemma_div_pos_is_pos(2 * ni + di, 2 * di);
        }
        q
    } else {
        let num: i128 = 2 * (-n) + d;
        let q = floor_div(num, two_d);
        proof {
            let ni = n as int;
            let di = d as int;
            assert(2 * (-ni) + di <= 0x4000_0001 * (2 * di)) by (nonlinear_arith)
                requires
                    -ni <= 0x4000_0000 * di,
                    di >= 1,
            ;
            lemma_div_is_ordered(2 * (-ni) + di, 0x4000_0001 * (2 * di), 2 * di);
            assert(((2 * di) * 0x4000_0001) / (2 * di) == 0x4000_0001) by {
                lemma_div_multiples_vanish(0x4000_0001, 2 * di);
            }
            assert(0x4000_0001 * (2 * di) == (2 * di) * 0x4000_0001) by (nonlinear_arith);
            vstd::arithmetic::div_mod::lemma_div_pos_is_pos(2 * (-ni) + di, 2 * di);
        }
        -q
    }
}

/// The 0/1 row-adjustment term for a flip value and a row, shared by the
/// forward and inverse projections.
pub open spec fn row_bit_of(flip: bool, r: int) -> int {
    if flip != is_odd_row(r) {
        1int
    } else {
        0int
    }
}

/// How far the rational `n / d` lies from the lattice row `v`, measured
/// in the numerator scale: `|n - v * d|`.
pub open spec fn lattice_offset(n: int, d: int, v: int) -> int {
    iabs(n - v * d)
}

/// Of three candidate rows (given in ascending order), the one nearest to
/// `n / d`; ties go to the earlier candidate.
pub open spec fn nearest_of_three(n: int, d: int, a: int, b: int, c: int) -> int {
    if lattice_offset(n, d, a) <= lattice_offset(n, d, b) && lattice_offset(n, d, a)
        <= lattice_offset(n, d, c) {
        a
    } else if lattice_offset(n, d, b) <= lattice_offset(n, d, c) {
        b
    } else {
        c
    }
}

/// The index of the six-unit vertical strip containing `n / d`.
pub open spec fn strip_of(n: int, d: int) -> int {
    n / (6 * d)
}

/// The tile-centre row nearest to `n / d` among rows of unflipped tiles.
/// In the `XY` convention an unflipped tile's row position is
/// `3r + row_bit`, which modulo six is 0 (even rows) or 4 (odd rows); the
/// candidates covering the strip are at offsets 0, 4 and 6 from its base.
pub open spec fn nearest_base_v(n: int, d: int) -> int {
    let m = strip_of(n, d);
    nearest_of_three(n, d, 6 * m, 6 * m + 4, 6 * m + 6)
}

/// The tile-centre row nearest to `n / d` among rows of flipped tiles,
/// which modulo six sit at 1 (even rows) or 3 (odd rows); the candidates
/// covering the strip are at offsets 1, 3 and 7 from its base.
pub open spec fn nearest_flip_v(n: int, d: int) -> int {
    let m = strip_of(n, d);
    nearest_of_three(n, d, 6 * m + 1, 6 * m + 3, 6 * m + 7)
}

/// The inverse projection in the `XY` convention, over mathematical
/// integers: from the rational lattice position `(u_n / d, v_n / d)`,
/// estimate the column by rounding, resolve `flip` by a nearest-tile-centre
/// disambiguation (the candidate centres share the query's column offset,
/// so comparing full squared distances reduces to comparing row offsets,
/// which is done exactly), and invert the row formula for the resolved
/// flip and row parity.
pub open spec fn triangle_unproject_math_xy(u_n: int, v_n: int, d: int) -> (int, int, bool) {
    let u = round_half_from_zero(u_n, d);
    let vb = nearest_base_v(v_n, d);
    let vf = nearest_flip_v(v_n, d);
    let flip = lattice_offset(v_n, d, vf) < lattice_offset(v_n, d, vb);
    let v = if flip {
        vf
    } else {
        vb
    };
    let bit: int = if v % 6 == 1 || v % 6 == 4 {
        1int
    } else {
        0int
    };
    let r = (v - bit) / 3;
    let q = u - (if flip {
        1int
    } else {
        0int
    });
    (q, r, flip)
}

/// The inverse projection for either plane, over mathematical integers.
/// The `XZ` embedding subtracts the row adjustment where `XY` adds it, so
/// it is the `XY` decode of the mirrored row, with the row mirrored back.
pub open spec fn triangle_unproject_math(x_n: int, lat_n: int, d: int, alignment: GridAlign) -> (
    int,
    int,
    bool,
) {
    match alignment {
        GridAlign::XY => triangle_unproject_math_xy(x_n, lat_n, d),
        GridAlign::XZ => {
            let t = triangle_unproject_math_xy(x_n, -lat_n, d);
            (t.0, -t.1, t.2)
        },
    }
}

/// The inverse projection as a coordinate value.
pub open spec fn triangle_unproject(x_n: int, lat_n: int, d: int, alignment: GridAlign)
    -> TriangleCoord {
    let t = triangle_unproject_math(x_n, lat_n, d, alignment);
    TriangleCoord { q: t.0 as i32, r: t.1 as i32, flip: t.2 }
}

/// Exact row-offset computation `|n - v * d|` for the inverse projection.
fn lat_offset(n: i128, d: i128, v: i128) -> (o: i128)
    requires
        1 <= d <= 0x8000_0000_0000_0000,
        iabs(v as int) <= 0x2_0000_0000,
        iabs(n as int) <= 0x4000_0000_0000_0000_0000_0000,
    ensures
        o == lattice_offset(n as int, d as int, v as int),
{
    proof {
        assert(iabs((v as int) * (d as int)) <= 0x1_0000_0000_0000_0000_0000_0000)
            by (nonlinear_arith)
            requires
                iabs(v as int) <= 0x2_0000_0000,
                1 <= d as int <= 0x8000_0000_0000_0000,
        ;
    }
    let t: i128 = n - v * d;
    if t < 0 {
        -t
    } else {
        t
    }
}

/// The inverse projection's integer core, in the `XY` convention. Returns
/// the column, row and flip of `triangle_unproject_math_xy`, with bounds
/// that let the caller narrow them to `i32`.
fn unproject_column_row(u_n: i128, v_n: i128, d: i128) -> (t: (i128, i128, bool))
    requires
        1 <= d <= 0x7fff_ffff_ffff_ffff,
        iabs(u_n as int) <= 0x4000_0000 * d,
        iabs(v_n as int) <= 0x4000_0000 * d,
    ensures
        (t.0 as int, t.1 as int, t.2) == triangle_unproject_math_xy(
            u_n as int,
            v_n as int,
            d as int,
        ),
        -0x4000_0002 <= t.0 <= 0x4000_0002,
        -0x6000_0008 <= t.1 <= 0x6000_0008,
{
    let u = round_div(u_n, d);
    let six_d: i128 = 6 * d;
    let m = floor_div(v_n, six_d);
    proof {
        let vi = v_n as int;
        let di = d as int;
        assert(vi <= 0x1000_0000 * (6 * di) && -(0x1000_0000 * (6 * di)) <= vi)
            by (nonlinear_arith)
            requires
                iabs(vi) <= 0x4000_0000 * di,
                di >= 1,
        ;
        lemma_div_is_ordered(vi, 0x1000_0000 * (6 * di), 6 * di);
        assert(((6 * di) * 0x1000_0000) / (6 * di) == 0x1000_0000) by {
            lemma_div_multiples_vanish(0x1000_0000, 6 * di);
        }
        assert(0x1000_0000 * (6 * di) == (6 * di) * 0x1000_0000) by (nonlinear_arith);
        lemma_div_is_ordered(-(0x1000_0000 * (6 * di)), vi, 6 * di);
        assert(((6 * di) * (-0x1000_0000)) / (6 * di) == -0x1000_0000) by {
            lemma_div_multiples_vanish(-0x1000_0000, 6 * di);
        }
        assert(-(0x1000_0000 * (6 * di)) == (6 * di) * (-0x1000_0000)) by (nonlinear_arith);
        assert(-0x1000_0000 <= m <= 0x1000_0000);
    }
    let base: i128 = 6 * m;
    let b2: i128 = base + 4;
    let b3: i128 = base + 6;
    let f1: i128 = base + 1;
    let f2: i128 = base + 3;
    let f3: i128 = base + 7;
    let ob1 = lat_offset(v_n, d, base);
    let ob2 = lat_offset(v_n, d, b2);
    let ob3 = lat_offset(v_n, d, b3);
    let of1 = lat_offset(v_n, d, f1);
    let of2 = lat_offset(v_n, d, f2);
    let of3 = lat_offset(v_n, d, f3);
    let vb: i128 = if ob1 <= ob2 && ob1 <= ob3 {
        base
    } else if ob2 <= ob3 {
        b2
    } else {
        b3
    };
    let vf: i128 = if of1 <= of2 && of1 <= of3 {
        f1
    } else if of2 <= of3 {
        f2
    } else {
        f3
    };
    let ovb = lat_offset(v_n, d, vb);
    let ovf = lat_offset(v_n, d, vf);
    let flip = ovf < ovb;
    let v: i128 = if flip {
        vf
    } else {
        vb
    };
    let bit: i128 = if v == f1 || v == b2 || v == f3 {
        1
    } else {
        0
    };
    proof {
        let mi = m as int;
        lemma_fundamental_div_mod_converse(6 * mi, 6, mi, 0);
        lemma_fundamental_div_mod_converse(6 * mi + 4, 6, mi, 4);
        lemma_fundamental_div_mod_converse(6 * mi + 6, 6, mi + 1, 0);
        lemma_fundamental_div_mod_converse(6 * mi + 1, 6, mi, 1);
        lemma_fundamental_div_mod_converse(6 * mi + 3, 6, mi, 3);
        lemma_fundamental_div_mod_converse(6 * mi + 7, 6, mi + 1, 1);
    }
    let r = floor_div(v - bit, 3);
    let q = u - (if flip {
        1
    } else {
        0
    });
    (q, r, flip)
}

impl TriangleCoord {
    /// Inverse projection: the coordinate containing a continuous query
    /// position. The position is handed over as an exact rational in
    /// lattice units — `x_num / den` units of `sqrt(3)/2` times the tile
    /// size along the first planar axis, `lat_num / den` units of half the
    /// tile size along the second — which the host forms from its
    /// floating-point position by one scaled rounding. The magnitude bound
    /// of `2^30` whole units is forced by the `i32` coordinate fields.
    pub fn new_from_world_pos(x_num: i64, lat_num: i64, den: i64, primitive: &Triangles) -> (c:
        TriangleCoord)
        requires
            1 <= den,
            iabs(x_num as int) <= 0x4000_0000 * den,
            iabs(lat_num as int) <= 0x4000_0000 * den,
        ensures
            c == triangle_unproject(x_num as int, lat_num as int, den as int, primitive.alignment),
    {
        let un: i128 = x_num as i128;
        let dd: i128 = den as i128;
        let vn: i128 = match primitive.alignment {
            GridAlign::XY => lat_num as i128,
            GridAlign::XZ => -(lat_num as i128),
        };
        let t = unproject_column_row(un, vn, dd);
        let r_lat: i128 = match primitive.alignment {
            GridAlign::XY => t.1,
            GridAlign::XZ => -t.1,
        };
        TriangleCoord { q: t.0 as i32, r: r_lat as i32, flip: t.2 }
    }
}

/// Rounding an exact multiple of the denominator recovers the multiplier.
proof fn lemma_round_exact(k: int, d: int)
    requires
        1 <= d,
    ensures
        round_half_from_zero(k * d, d) == k,
{
    if k >= 0 {
        assert(k * d >= 0) by (nonlinear_arith)
            requires
                k >= 0,
                d >= 1,
        ;
        assert(2 * (k * d) + d == k * (2 * d) + d) by (nonlinear_arith);
        lemma_fundamental_div_mod_converse(2 * (k * d) + d, 2 * d, k, d);
    } else {
        assert(k * d < 0) by (nonlinear_arith)
            requires
                k < 0,
                d >= 1,
        ;
        assert(2 * (-(k * d)) + d == (-k) * (2 * d) + d) by (nonlinear_arith);
        lemma_fundamental_div_mod_converse(2 * (-(k * d)) + d, 2 * d, -k, d);
    }
}

/// Scaling the query and the lattice by the denominator scales the row
/// offset: `|v0*d - v*d| == |v0 - v| * d`.
proof fn lemma_offset_scaled(v0: int, d: int, v: int)
    requires
        1 <= d,
    ensures
        lattice_offset(v0 * d, d, v) == iabs(v0 - v) * d,
{
    assert(v0 * d - v * d == (v0 - v) * d) by (nonlinear_arith);
    if v0 - v >= 0 {
        assert((v0 - v) * d >= 0) by (nonlinear_arith)
            requires
                v0 - v >= 0,
                d >= 1,
        ;
    } else {
        assert((v0 - v) * d < 0) by (nonlinear_arith)
            requires
                v0 - v < 0,
                d >= 1,
        ;
        assert(-((v0 - v) * d) == (-(v0 - v)) * d) by (nonlinear_arith);
    }
}

/// The strip of an exact lattice row `6h + rho` is `h`.
proof fn lemma_strip_scaled(h: int, rho: int, d: int)
    requires
        1 <= d,
        0 <= rho < 6,
    ensures
        strip_of((6 * h + rho) * d, d) == h,
{
    assert((6 * h + rho) * d == h * (6 * d) + rho * d) by (nonlinear_arith);
    assert(0 <= rho * d < 6 * d) by (nonlinear_arith)
        requires
            0 <= rho < 6,
            d >= 1,
    ;
    lemma_fundamental_div_mod_converse((6 * h + rho) * d, 6 * d, h, rho * d);
}

/// `(6h + rho) % 6 == rho` for an in-range residue.
proof fn lemma_mod_six(h: int, rho: int)
    requires
        0 <= rho < 6,
    ensures
        (6 * h + rho) % 6 == rho,
{
    lemma_fundamental_div_mod_converse(6 * h + rho, 6, h, rho);
}

/// Exact division of a multiple of three.
proof fn lemma_div_three(k: int)
    ensures
        (3 * k) / 3 == k,
{
    lemma_fundamental_div_mod_converse(3 * k, 3, k, 0);
}

/// A row offset with a known whole-unit difference is that many
/// denominators.
proof fn lemma_offset_value(v0: int, d: int, v: int, k: int)
    requires
        1 <= d,
        iabs(v0 - v) == k,
    ensures
        lattice_offset(v0 * d, d, v) == k * d,
{
    lemma_offset_scaled(v0, d, v);
    assert(iabs(v0 - v) * d == k * d) by (nonlinear_arith)
        requires
            iabs(v0 - v) == k,
    ;
}

/// The integer core of the round trip, in the `XY` convention: decoding
/// the exact lattice position of any `(q, r, flip)` recovers it.
proof fn lemma_unproject_math_xy_exact(qi: int, ri: int, f: bool, d: int)
    requires
        1 <= d,
    ensures
        triangle_unproject_math_xy(
            (qi + (if f {
                1int
            } else {
                0int
            })) * d,
            (3 * ri + row_bit_of(f, ri)) * d,
            d,
        ) == (qi, ri, f),
{
    let fv: int = if f {
        1int
    } else {
        0int
    };
    let u0 = qi + fv;
    let bit = row_bit_of(f, ri);
    let v0 = 3 * ri + bit;
    lemma_round_exact(u0, d);
    let h = ri / 2;
    let p = ri % 2;
    lemma_fundamental_div_mod(ri, 2);
    lemma_mod_bound(ri, 2);
    let rho = if p == 0 {
        bit
    } else {
        3 + bit
    };
    assert(v0 == 6 * h + rho);
    assert(0 <= rho < 6);
    lemma_strip_scaled(h, rho, d);
    assert(strip_of(v0 * d, d) == h);
    let vb = nearest_base_v(v0 * d, d);
    let vf = nearest_flip_v(v0 * d, d);
    lemma_mod_six(h, rho);
    if rho == 0 {
        lemma_offset_value(v0, d, 6 * h, 0);
        lemma_offset_value(v0, d, 6 * h + 4, 4);
        lemma_offset_value(v0, d, 6 * h + 6, 6);
        lemma_offset_value(v0, d, 6 * h + 1, 1);
        lemma_offset_value(v0, d, 6 * h + 3, 3);
        lemma_offset_value(v0, d, 6 * h + 7, 7);
        assert(vb == 6 * h);
        assert(vf == 6 * h + 1);
        assert(!f);
        lemma_div_three(ri);
    } else if rho == 1 {
        lemma_offset_value(v0, d, 6 * h, 1);
        lemma_offset_value(v0, d, 6 * h + 4, 3);
        lemma_offset_value(v0, d, 6 * h + 6, 5);
        lemma_offset_value(v0, d, 6 * h + 1, 0);
        lemma_offset_value(v0, d, 6 * h + 3, 2);
        lemma_offset_value(v0, d, 6 * h + 7, 6);
        assert(vb == 6 * h);
        assert(vf == 6 * h + 1);
        assert(f);
        lemma_div_three(ri);
    } else if rho == 3 {
        lemma_offset_value(v0, d, 6 * h, 3);
        lemma_offset_value(v0, d, 6 * h + 4, 1);
        lemma_offset_value(v0, d, 6 * h + 6, 3);
        lemma_offset_value(v0, d, 6 * h + 1, 2);
        lemma_offset_value(v0, d, 6 * h + 3, 0);
        lemma_offset_value(v0, d, 6 * h + 7, 4);
        assert(vb == 6 * h + 4);
        assert(vf == 6 * h + 3);
        assert(f);
        lemma_div_three(ri);
    } else {
        assert(rho == 4);
        lemma_offset_value(v0, d, 6 * h, 4);
        lemma_offset_value(v0, d, 6 * h + 4, 0);
        lemma_offset_value(v0, d, 6 * h + 6, 2);
        lemma_offset_value(v0, d, 6 * h + 1, 3);
        lemma_offset_value(v0, d, 6 * h + 3, 1);
        lemma_offset_value(v0, d, 6 * h + 7, 3);
        assert(vb == 6 * h + 4);
        assert(vf == 6 * h + 3);
        assert(!f);
        lemma_div_three(ri);
    }
}

/// Round-trip law for the triangle grid: for any coordinate, for either
/// embedding plane and any positive denominator scale, inverse-projecting
/// the exact forward-projected lattice position returns the coordinate
/// unchanged.
pub proof fn lemma_triangle_round_trip(c: TriangleCoord, alignment: GridAlign, den: int)
    requires
        1 <= den,
    ensures
        triangle_unproject(
            triangle_u(c) * den,
            triangle_v(c, alignment) * den,
            den,
            alignment,
        ) == c,
{
    match alignment {
        GridAlign::XY => {
            lemma_unproject_math_xy_exact(c.q as int, c.r as int, c.flip, den);
        },
        GridAlign::XZ => {
            let ri = c.r as int;
            let h = ri / 2;
            let p = ri % 2;
            lemma_fundamental_div_mod(ri, 2);
            lemma_mod_bound(ri, 2);
            lemma_fundamental_div_mod_converse(-ri, 2, -h - p, p);
            assert(is_odd_row(-ri) == is_odd_row(ri));
            assert(row_bit_of(c.flip, -ri) == triangle_row_bit(c));
            assert(-(triangle_v(c, GridAlign::XZ)) == 3 * (-ri) + row_bit_of(c.flip, -ri));
            lemma_unproject_math_xy_exact(c.q as int, -ri, c.flip, den);
            assert(-(triangle_v(c, GridAlign::XZ) * den) == (3 * (-ri) + row_bit_of(c.flip, -ri))
                * den) by (nonlinear_arith)
                requires
                    -(triangle_v(c, GridAlign::XZ)) == 3 * (-ri) + row_bit_of(c.flip, -ri),
            ;
        },
    }
}

/// Stepping a row up or down flips its parity.
proof fn lemma_parity_step(r: int)
    ensures
        is_odd_row(r + 1) != is_odd_row(r),
        is_odd_row(r - 1) != is_odd_row(r),
{
    let h = r / 2;
    let p = r % 2;
    lemma_fundamental_div_mod(r, 2);
    lemma_mod_bound(r, 2);
    if p == 0 {
        lemma_fundamental_div_mod_converse(r + 1, 2, h, 1);
        lemma_fundamental_div_mod_converse(r - 1, 2, h - 1, 1);
    } else {
        lemma_fundamental_div_mod_converse(r + 1, 2, h + 1, 0);
        lemma_fundamental_div_mod_converse(r - 1, 2, h, 0);
    }
}

/// The neighbour policy matches the lattice geometry: the two horizontal
/// neighbours' centres sit one column unit and one row unit away, and the
/// vertical neighbour's centre sits exactly two row units away in the same
/// column — the three centre offsets of the edge-sharing triangles.
pub proof fn lemma_triangle_neighbours_share_edges(c: TriangleCoord)
    requires
        i32::MIN + 2 <= c.q <= i32::MAX - 2,
        i32::MIN < c.r < i32::MAX,
    ensures
        ({
            let n = crate::grids::coordinates::triangle_neighbour_list(c)[0];
            iabs(triangle_u(n) - triangle_u(c)) == 1 && iabs(
                triangle_v(n, GridAlign::XY) - triangle_v(c, GridAlign::XY),
            ) == 1
        }),
        ({
            let n = crate::grids::coordinates::triangle_neighbour_list(c)[1];
            iabs(triangle_u(n) - triangle_u(c)) == 1 && iabs(
                triangle_v(n, GridAlign::XY) - triangle_v(c, GridAlign::XY),
            ) == 1
        }),
        ({
            let n = crate::grids::coordinates::triangle_neighbour_list(c)[2];
            triangle_u(n) == triangle_u(c) && iabs(
                triangle_v(n, GridAlign::XY) - triangle_v(c, GridAlign::XY),
            ) == 2
        }),
{
    lemma_parity_step(c.r as int);
    let h = c.r as int / 2;
    let p = c.r as int % 2;
    lemma_fundamental_div_mod(c.r as int, 2);
    lemma_mod_bound(c.r as int, 2);
}

} // verus!
