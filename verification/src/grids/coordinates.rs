//! Logical grid coordinates for the three tile shapes, with their exact
//! integer algebra: grid-native distance, neighbour enumeration, addition,
//! subtraction and scalar multiplication.
//!
//! Every distance is grid-native (not Euclidean): it is zero exactly on equal
//! coordinates, symmetric, and satisfies the triangle inequality; the proofs
//! of those laws stand next to the definitions.

use vstd::arithmetic::div_mod::lemma_fundamental_div_mod_converse;
use vstd::prelude::*;

verus! {

/// Absolute value of a mathematical integer.
pub open spec fn iabs(x: int) -> int {
    if x < 0 {
        -x
    } else {
        x
    }
}

/// A coordinate on the square grid: column `q`, row `r`. The origin is
/// `(0, 0)`; equality is exact, field by field.
#[derive(Clone, Copy, Debug, Hash, Default, PartialEq, Eq, Structural)]
pub struct SquareCoord {
    pub q: i32,
    pub r: i32,
}

/// Manhattan distance between two square coordinates.
pub open spec fn square_distance(a: SquareCoord, b: SquareCoord) -> int {
    iabs(b.q - a.q) + iabs(b.r - a.r)
}

impl SquareCoord {
    /// The coordinate at the origin.
    pub fn zero() -> (z: SquareCoord)
        ensures
            z == (SquareCoord { q: 0, r: 0 }),
    {
        SquareCoord { q: 0, r: 0 }
    }

    /// Manhattan distance between `self` and `other`, in whole tiles.
    pub fn distance(&self, other: &SquareCoord) -> (d: u32)
        requires
            square_distance(*self, *other) <= u32::MAX,
        ensures
            d == square_distance(*self, *other),
    {
        let dq: i64 = other.q as i64 - self.q as i64;
        let dr: i64 = other.r as i64 - self.r as i64;
        let aq: i64 = if dq < 0 { -dq } else { dq };
        let ar: i64 = if dr < 0 { -dr } else { dr };
        (aq + ar) as u32
    }

    /// Distance from `self` to the origin.
    pub fn magnitude(&self) -> (d: u32)
        requires
            square_distance(*self, SquareCoord { q: 0, r: 0 }) <= u32::MAX,
        ensures
            d == square_distance(*self, SquareCoord { q: 0, r: 0 }),
    {
        let z = SquareCoord::zero();
        self.distance(&z)
    }

    /// The four edge-sharing neighbours, in the fixed cyclic order
    /// right, down, left, up: `(+1,0), (0,-1), (-1,0), (0,+1)`.
    pub fn neighbours(&self) -> (n: Vec<SquareCoord>)
        requires
            i32::MIN < self.q < i32::MAX,
            i32::MIN < self.r < i32::MAX,
        ensures
            n@.len() == 4,
            n@[0].q == self.q + 1 && n@[0].r == self.r,
            n@[1].q == self.q && n@[1].r == self.r - 1,
            n@[2].q == self.q - 1 && n@[2].r == self.r,
            n@[3].q == self.q && n@[3].r == self.r + 1,
    {
        let mut n: Vec<SquareCoord> = Vec::new();
        n.push(SquareCoord { q: self.q + 1, r: self.r });
        n.push(SquareCoord { q: self.q, r: self.r - 1 });
        n.push(SquareCoord { q: self.q - 1, r: self.r });
        n.push(SquareCoord { q: self.q, r: self.r + 1 });
        n
    }

    /// Scales both fields by `scalar` (which may be negative or zero).
    pub fn scalar_multiply(&self, scalar: i32) -> (m: SquareCoord)
        requires
            i32::MIN <= self.q * scalar <= i32::MAX,
            i32::MIN <= self.r * scalar <= i32::MAX,
        ensures
            m.q == self.q * scalar,
            m.r == self.r * scalar,
    {
        SquareCoord { q: self.q * scalar, r: self.r * scalar }
    }

    /// Component-wise addition.
    pub fn add(&self, rhs: &SquareCoord) -> (s: SquareCoord)
        requires
            i32::MIN <= self.q + rhs.q <= i32::MAX,
            i32::MIN <= self.r + rhs.r <= i32::MAX,
        ensures
            s.q == self.q + rhs.q,
            s.r == self.r + rhs.r,
    {
        SquareCoord { q: self.q + rhs.q, r: self.r + rhs.r }
    }

    /// Component-wise subtraction; the inverse of `add` for a fixed
    /// right operand.
    pub fn subtract(&self, rhs: &SquareCoord) -> (d: SquareCoord)
        requires
            i32::MIN <= self.q - rhs.q <= i32::MAX,
            i32::MIN <= self.r - rhs.r <= i32::MAX,
        ensures
            d.q == self.q - rhs.q,
            d.r == self.r - rhs.r,
    {
        SquareCoord { q: self.q - rhs.q, r: self.r - rhs.r }
    }
}

/// Square distance is symmetric.
pub proof fn lemma_square_distance_symmetric(a: SquareCoord, b: SquareCoord)
    ensures
        square_distance(a, b) == square_distance(b, a),
{
}

/// Square distance vanishes exactly on equal coordinates.
pub proof fn lemma_square_distance_identity(a: SquareCoord, b: SquareCoord)
    ensures
        square_distance(a, a) == 0,
        (square_distance(a, b) == 0) <==> a == b,
{
}

/// Square distance satisfies the triangle inequality.
pub proof fn lemma_square_distance_triangle(a: SquareCoord, b: SquareCoord, c: SquareCoord)
    ensures
        square_distance(a, c) <= square_distance(a, b) + square_distance(b, c),
{
}

/// Adding `b` and then subtracting `b` returns to `a`: any value `s`
/// meeting `add`'s contract followed by any value `d` meeting `subtract`'s
/// contract equals `a` exactly.
pub proof fn lemma_square_add_subtract(
    a: SquareCoord,
    b: SquareCoord,
    s: SquareCoord,
    d: SquareCoord,
)
    requires
        s.q == a.q + b.q,
        s.r == a.r + b.r,
        d.q == s.q - b.q,
        d.r == s.r - b.r,
    ensures
        d == a,
{
}

/// Multiplying by two agrees with self-addition: any value `m` meeting
/// `scalar_multiply`'s contract for the scalar 2 equals any value `s`
/// meeting `add`'s contract for `a` with itself.
pub proof fn lemma_square_scalar_two_is_double(a: SquareCoord, m: SquareCoord, s: SquareCoord)
    requires
        m.q == a.q * 2,
        m.r == a.r * 2,
        s.q == a.q + a.q,
        s.r == a.r + a.r,
    ensures
        m == s,
{
}

/// The larger of three mathematical integers.
pub open spec fn imax3(x: int, y: int, z: int) -> int {
    if x >= y && x >= z {
        x
    } else if y >= z {
        y
    } else {
        z
    }
}

/// A coordinate on the hexagon grid in axial form: `q` and `r` are stored,
/// the third cube coordinate `s = -q - r` is derived, never stored. The
/// origin is `(0, 0)`; equality is exact, field by field.
#[derive(Clone, Copy, Debug, Hash, Default, PartialEq, Eq, Structural)]
pub struct HexCoord {
    pub q: i32,
    pub r: i32,
}

/// Hexagon grid distance: half the cube-coordinate Manhattan distance
/// `(|dq| + |dr| + |ds|) / 2`, where `ds = -(dq + dr)`. The sum is always
/// even, so the division is exact.
pub open spec fn hex_distance(a: HexCoord, b: HexCoord) -> int {
    (iabs(b.q - a.q) + iabs(b.r - a.r) + iabs((b.q - a.q) + (b.r - a.r))) / 2
}

/// The six neighbours of a hexagon coordinate, in the canonical cyclic
/// order `(1,0), (1,-1), (0,-1), (-1,0), (-1,1), (0,1)`.
pub open spec fn hex_neighbours(c: HexCoord) -> Seq<HexCoord> {
    seq![
        HexCoord { q: (c.q + 1) as i32, r: c.r },
        HexCoord { q: (c.q + 1) as i32, r: (c.r - 1) as i32 },
        HexCoord { q: c.q, r: (c.r - 1) as i32 },
        HexCoord { q: (c.q - 1) as i32, r: c.r },
        HexCoord { q: (c.q - 1) as i32, r: (c.r + 1) as i32 },
        HexCoord { q: c.q, r: (c.r + 1) as i32 },
    ]
}

impl HexCoord {
    /// The coordinate at the origin.
    pub fn zero() -> (z: HexCoord)
        ensures
            z == (HexCoord { q: 0, r: 0 }),
    {
        HexCoord { q: 0, r: 0 }
    }

    /// Hexagon grid distance between `self` and `other`, in whole tiles.
    pub fn distance(&self, other: &HexCoord) -> (d: u32)
        requires
            hex_distance(*self, *other) <= u32::MAX,
        ensures
            d == hex_distance(*self, *other),
    {
        let dq: i64 = other.q as i64 - self.q as i64;
        let dr: i64 = other.r as i64 - self.r as i64;
        let aq: i64 = if dq < 0 {
            -dq
        } else {
            dq
        };
        let ar: i64 = if dr < 0 {
            -dr
        } else {
            dr
        };
        let ds: i64 = dq + dr;
        let as_: i64 = if ds < 0 {
            -ds
        } else {
            ds
        };
        let sum: u64 = (aq + ar + as_) as u64;
        (sum / 2) as u32
    }

    /// Distance from `self` to the origin.
    pub fn magnitude(&self) -> (d: u32)
        requires
            hex_distance(*self, HexCoord { q: 0, r: 0 }) <= u32::MAX,
        ensures
            d == hex_distance(*self, HexCoord { q: 0, r: 0 }),
    {
        let z = HexCoord::zero();
        self.distance(&z)
    }

    /// The six neighbours, in the canonical cyclic order
    /// `(1,0), (1,-1), (0,-1), (-1,0), (-1,1), (0,1)`. The order is part of
    /// the contract: consumers rely on rotational adjacency.
    pub fn neighbours(&self) -> (n: Vec<HexCoord>)
        requires
            i32::MIN < self.q < i32::MAX,
            i32::MIN < self.r < i32::MAX,
        ensures
            n@ == hex_neighbours(*self),
            n@.len() == 6,
    {
        let mut n: Vec<HexCoord> = Vec::new();
        n.push(HexCoord { q: self.q + 1, r: self.r });
        n.push(HexCoord { q: self.q + 1, r: self.r - 1 });
        n.push(HexCoord { q: self.q, r: self.r - 1 });
        n.push(HexCoord { q: self.q - 1, r: self.r });
        n.push(HexCoord { q: self.q - 1, r: self.r + 1 });
        n.push(HexCoord { q: self.q, r: self.r + 1 });
        proof {
            assert(n@ =~= hex_neighbours(*self));
        }
        n
    }

    /// Scales both fields by `scalar` (which may be negative or zero).
    pub fn scalar_multiply(&self, scalar: i32) -> (m: HexCoord)
        requires
            i32::MIN <= self.q * scalar <= i32::MAX,
            i32::MIN <= self.r * scalar <= i32::MAX,
        ensures
            m.q == self.q * scalar,
            m.r == self.r * scalar,
    {
        HexCoord { q: self.q * scalar, r: self.r * scalar }
    }

    /// Component-wise addition.
    pub fn add(&self, rhs: &HexCoord) -> (s: HexCoord)
        requires
            i32::MIN <= self.q + rhs.q <= i32::MAX,
            i32::MIN <= self.r + rhs.r <= i32::MAX,
        ensures
            s.q == self.q + rhs.q,
            s.r == self.r + rhs.r,
    {
        HexCoord { q: self.q + rhs.q, r: self.r + rhs.r }
    }

    /// Component-wise subtraction; the inverse of `add` for a fixed
    /// right operand.
    pub fn subtract(&self, rhs: &HexCoord) -> (d: HexCoord)
        requires
            i32::MIN <= self.q - rhs.q <= i32::MAX,
            i32::MIN <= self.r - rhs.r <= i32::MAX,
        ensures
            d.q == self.q - rhs.q,
            d.r == self.r - rhs.r,
    {
        HexCoord { q: self.q - rhs.q, r: self.r - rhs.r }
    }
}

/// The cube-coordinate sum `|dq| + |dr| + |dq + dr|` is twice its largest
/// term, so the hexagon distance equals `max(|dq|, |dr|, |dq + dr|)` and
/// the halving in its definition is exact.
pub proof fn lemma_hex_distance_as_max(a: HexCoord, b: HexCoord)
    ensures
        hex_distance(a, b) == imax3(
            iabs(b.q - a.q),
            iabs(b.r - a.r),
            iabs((b.q - a.q) + (b.r - a.r)),
        ),
{
    let x = iabs(b.q - a.q);
    let y = iabs(b.r - a.r);
    let z = iabs((b.q - a.q) + (b.r - a.r));
    let m = imax3(x, y, z);
    assert(x + y + z == 2 * m);
    lemma_fundamental_div_mod_converse(x + y + z, 2, m, 0);
}

/// Hexagon distance is symmetric.
pub proof fn lemma_hex_distance_symmetric(a: HexCoord, b: HexCoord)
    ensures
        hex_distance(a, b) == hex_distance(b, a),
{
    lemma_hex_distance_as_max(a, b);
    lemma_hex_distance_as_max(b, a);
}

/// Hexagon distance vanishes exactly on equal coordinates.
pub proof fn lemma_hex_distance_identity(a: HexCoord, b: HexCoord)
    ensures
        hex_distance(a, a) == 0,
        (hex_distance(a, b) == 0) <==> a == b,
{
    lemma_hex_distance_as_max(a, b);
    lemma_hex_distance_as_max(a, a);
}

/// Hexagon distance satisfies the triangle inequality.
pub proof fn lemma_hex_distance_triangle(a: HexCoord, b: HexCoord, c: HexCoord)
    ensures
        hex_distance(a, c) <= hex_distance(a, b) + hex_distance(b, c),
{
    lemma_hex_distance_as_max(a, b);
    lemma_hex_distance_as_max(b, c);
    lemma_hex_distance_as_max(a, c);
}

/// Every hexagon neighbour lies at distance exactly one: any coordinate
/// offset from `c` by one of the six canonical offsets has `hex_distance`
/// one from `c`. Together with the length clause of `neighbours`, this is
/// the neighbour-closure law.
pub proof fn lemma_hex_neighbours_at_distance_one(c: HexCoord, n: HexCoord)
    requires
        ({
            let dq = n.q - c.q;
            let dr = n.r - c.r;
            (dq == 1 && dr == 0) || (dq == 1 && dr == -1) || (dq == 0 && dr == -1) || (dq == -1
                && dr == 0) || (dq == -1 && dr == 1) || (dq == 0 && dr == 1)
        }),
    ensures
        hex_distance(c, n) == 1,
{
    lemma_hex_distance_as_max(c, n);
}

/// Neighbour enumeration is deterministic: equal coordinates yield the
/// same neighbour sequence, element for element and in the same order.
pub proof fn lemma_hex_neighbours_deterministic(a: HexCoord, b: HexCoord)
    requires
        a == b,
    ensures
        hex_neighbours(a) == hex_neighbours(b),
{
}

/// Adding `b` and then subtracting `b` returns to `a` (hexagon version):
/// stated over the contracts of `add` and `subtract`.
pub proof fn lemma_hex_add_subtract(a: HexCoord, b: HexCoord, s: HexCoord, d: HexCoord)
    requires
        s.q == a.q + b.q,
        s.r == a.r + b.r,
        d.q == s.q - b.q,
        d.r == s.r - b.r,
    ensures
        d == a,
{
}

/// Multiplying by two agrees with self-addition (hexagon version): stated
/// over the contracts of `scalar_multiply` and `add`.
pub proof fn lemma_hex_scalar_two_is_double(a: HexCoord, m: HexCoord, s: HexCoord)
    requires
        m.q == a.q * 2,
        m.r == a.r * 2,
        s.q == a.q + a.q,
        s.r == a.r + a.r,
    ensures
        m == s,
{
}

/// Neighbour-counting modes for the triangle grid. `Strict` counts only
/// triangles sharing a full edge; `Expanded` additionally counts triangles
/// sharing the rhombus cell. On this lattice the cell partner itself shares
/// a full edge, so both modes enumerate the same three coordinates; the
/// mode is kept in the shape parameters for callers that distinguish them.
#[derive(Clone, Copy, Debug, Hash, Default, PartialEq, Eq, Structural)]
pub enum TriangleNeighbours {
    Strict,
    #[default]
    Expanded,
}

/// A coordinate on the triangle grid: column `q`, row `r`, and `flip`
/// distinguishing the two triangles that tile one rhombus cell. The origin
/// is `(0, 0, false)`; equality is exact, field by field.
#[derive(Clone, Copy, Debug, Hash, Default, PartialEq, Eq, Structural)]
pub struct TriangleCoord {
    pub q: i32,
    pub r: i32,
    pub flip: bool,
}

/// Triangle grid distance: `2 * (|dq| + |dr|)` plus a 0/1 penalty when the
/// flips differ. The factor two reflects that the two triangles of a cell
/// sit at fractional separation: a whole cell step counts two.
pub open spec fn triangle_distance(a: TriangleCoord, b: TriangleCoord) -> int {
    2 * (iabs(b.q - a.q) + iabs(b.r - a.r)) + if a.flip != b.flip {
        1int
    } else {
        0int
    }
}

/// Whether the tile at `c` is drawn apex-up: the forward projection rotates
/// each tile by `pi * (flip + r)`, an even number of half turns exactly when
/// `flip + r` is even.
pub open spec fn triangle_points_up(c: TriangleCoord) -> bool {
    (c.r + (if c.flip {
        1int
    } else {
        0int
    })) % 2 == 0
}

/// The three triangles whose outline shares a full edge with `c`, in the
/// fixed order: cell partner, the other horizontal edge-sharer, then the
/// vertical one (the row below for an apex-up tile, the row above for an
/// apex-down tile).
pub open spec fn triangle_neighbour_list(c: TriangleCoord) -> Seq<TriangleCoord> {
    seq![
        TriangleCoord { q: c.q, r: c.r, flip: !c.flip },
        TriangleCoord {
            q: if c.flip {
                (c.q + 2) as i32
            } else {
                (c.q - 2) as i32
            },
            r: c.r,
            flip: !c.flip,
        },
        TriangleCoord {
            q: c.q,
            r: if triangle_points_up(c) {
                (c.r - 1) as i32
            } else {
                (c.r + 1) as i32
            },
            flip: c.flip,
        },
    ]
}

impl TriangleCoord {
    /// The coordinate at the origin.
    pub fn zero() -> (z: TriangleCoord)
        ensures
            z == (TriangleCoord { q: 0, r: 0, flip: false }),
    {
        TriangleCoord { q: 0, r: 0, flip: false }
    }

    /// Builds a coordinate from its three fields.
    pub fn new(q: i32, r: i32, flip: bool) -> (c: TriangleCoord)
        ensures
            c == (TriangleCoord { q, r, flip }),
    {
        TriangleCoord { q, r, flip }
    }

    /// Triangle grid distance between `self` and `other`, in half-cell
    /// steps.
    pub fn distance(&self, other: &TriangleCoord) -> (d: u32)
        requires
            triangle_distance(*self, *other) <= u32::MAX,
        ensures
            d == triangle_distance(*self, *other),
    {
        let dq: i64 = other.q as i64 - self.q as i64;
        let dr: i64 = other.r as i64 - self.r as i64;
        let aq: i64 = if dq < 0 {
            -dq
        } else {
            dq
        };
        let ar: i64 = if dr < 0 {
            -dr
        } else {
            dr
        };
        let penalty: i64 = if self.flip != other.flip {
            1
        } else {
            0
        };
        (2 * (aq + ar) + penalty) as u32
    }

    /// Distance from `self` to the origin.
    pub fn magnitude(&self) -> (d: u32)
        requires
            triangle_distance(*self, TriangleCoord { q: 0, r: 0, flip: false }) <= u32::MAX,
        ensures
            d == triangle_distance(*self, TriangleCoord { q: 0, r: 0, flip: false }),
    {
        let z = TriangleCoord::zero();
        self.distance(&z)
    }

    /// The three triangles sharing a full edge with this one, in the fixed
    /// order of `triangle_neighbour_list`. Both neighbour-counting modes
    /// enumerate this same list, since the cell partner already shares a
    /// full edge.
    pub fn neighbours(&self) -> (n: Vec<TriangleCoord>)
        requires
            i32::MIN + 2 <= self.q <= i32::MAX - 2,
            i32::MIN < self.r < i32::MAX,
        ensures
            n@ == triangle_neighbour_list(*self),
            n@.len() == 3,
    {
        let mut n: Vec<TriangleCoord> = Vec::new();
        n.push(TriangleCoord { q: self.q, r: self.r, flip: !self.flip });
        let horizontal_q: i32 = if self.flip {
            self.q + 2
        } else {
            self.q - 2
        };
        n.push(TriangleCoord { q: horizontal_q, r: self.r, flip: !self.flip });
        let up: bool = if self.flip {
            self.r % 2 != 0
        } else {
            self.r % 2 == 0
        };
        let vertical_r: i32 = if up {
            self.r - 1
        } else {
            self.r + 1
        };
        n.push(TriangleCoord { q: self.q, r: vertical_r, flip: self.flip });
        proof {
            assert(n@ =~= triangle_neighbour_list(*self));
        }
        n
    }

    /// Scales the two integer fields by `scalar` (which may be negative or
    /// zero); `flip` is not an integer field and is kept unchanged.
    pub fn scalar_multiply(&self, scalar: i32) -> (m: TriangleCoord)
        requires
            i32::MIN <= self.q * scalar <= i32::MAX,
            i32::MIN <= self.r * scalar <= i32::MAX,
        ensures
            m.q == self.q * scalar,
            m.r == self.r * scalar,
            m.flip == self.flip,
    {
        TriangleCoord { q: self.q * scalar, r: self.r * scalar, flip: self.flip }
    }

    /// Component-wise addition; on the boolean `flip` field, component-wise
    /// means exclusive or, the group operation that makes `subtract` its
    /// inverse.
    pub fn add(&self, rhs: &TriangleCoord) -> (s: TriangleCoord)
        requires
            i32::MIN <= self.q + rhs.q <= i32::MAX,
            i32::MIN <= self.r + rhs.r <= i32::MAX,
        ensures
            s.q == self.q + rhs.q,
            s.r == self.r + rhs.r,
            s.flip == (self.flip != rhs.flip),
    {
        TriangleCoord {
            q: self.q + rhs.q,
            r: self.r + rhs.r,
            flip: self.flip != rhs.flip,
        }
    }

    /// Component-wise subtraction; the inverse of `add` for a fixed right
    /// operand (exclusive or is its own inverse on `flip`).
    pub fn subtract(&self, rhs: &TriangleCoord) -> (d: TriangleCoord)
        requires
            i32::MIN <= self.q - rhs.q <= i32::MAX,
            i32::MIN <= self.r - rhs.r <= i32::MAX,
        ensures
            d.q == self.q - rhs.q,
            d.r == self.r - rhs.r,
            d.flip == (self.flip != rhs.flip),
    {
        TriangleCoord {
            q: self.q - rhs.q,
            r: self.r - rhs.r,
            flip: self.flip != rhs.flip,
        }
    }
}

/// Triangle distance is symmetric.
pub proof fn lemma_triangle_distance_symmetric(a: TriangleCoord, b: TriangleCoord)
    ensures
        triangle_distance(a, b) == triangle_distance(b, a),
{
}

/// Triangle distance vanishes exactly on equal coordinates.
pub proof fn lemma_triangle_distance_identity(a: TriangleCoord, b: TriangleCoord)
    ensures
        triangle_distance(a, a) == 0,
        (triangle_distance(a, b) == 0) <==> a == b,
{
}

/// Triangle distance satisfies the triangle inequality.
pub proof fn lemma_triangle_distance_triangle(a: TriangleCoord, b: TriangleCoord, c: TriangleCoord)
    ensures
        triangle_distance(a, c) <= triangle_distance(a, b) + triangle_distance(b, c),
{
}

/// Adding `b` and then subtracting `b` returns to `a` (triangle version):
/// stated over the contracts of `add` and `subtract`.
pub proof fn lemma_triangle_add_subtract(
    a: TriangleCoord,
    b: TriangleCoord,
    s: TriangleCoord,
    d: TriangleCoord,
)
    requires
        s.q == a.q + b.q,
        s.r == a.r + b.r,
        s.flip == (a.flip != b.flip),
        d.q == s.q - b.q,
        d.r == s.r - b.r,
        d.flip == (s.flip != b.flip),
    ensures
        d == a,
{
}

} // verus!
