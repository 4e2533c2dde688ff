use tile_grids::grids::coordinates::HexCoord;
use tile_grids::grids::coordinates::SquareCoord;
use tile_grids::grids::coordinates::TriangleCoord;

#[test]
fn square_distance_example() {
    let a = SquareCoord { q: 0, r: 0 };
    let b = SquareCoord { q: 3, r: -2 };
    assert_eq!(a.distance(&b), 5);
}

#[test]
fn square_distance_symmetry_samples() {
    let samples = [(0, 0, 3, -2), (5, 7, -1, 4), (-3, -3, -3, -3), (10, -10, -10, 10)];
    for &(aq, ar, bq, br) in samples.iter() {
        let a = SquareCoord { q: aq, r: ar };
        let b = SquareCoord { q: bq, r: br };
        assert_eq!(a.distance(&b), b.distance(&a));
    }
}

#[test]
fn square_distance_identity_samples() {
    let a = SquareCoord { q: 17, r: -4 };
    assert_eq!(a.distance(&a), 0);
    let b = SquareCoord { q: 17, r: -3 };
    assert!(a.distance(&b) != 0);
    assert_eq!(a == b, a.distance(&b) == 0);
}

#[test]
fn square_triangle_inequality_samples() {
    let triples = [
        (0, 0, 1, 2, 3, 4),
        (-5, 2, 7, -1, 0, 0),
        (3, 3, -3, -3, 10, -10),
    ];
    for &(aq, ar, bq, br, cq, cr) in triples.iter() {
        let a = SquareCoord { q: aq, r: ar };
        let b = SquareCoord { q: bq, r: br };
        let c = SquareCoord { q: cq, r: cr };
        assert!(a.distance(&c) <= a.distance(&b) + b.distance(&c));
    }
}

#[test]
fn square_add_subtract_round_trip() {
    let a = SquareCoord { q: 4, r: -9 };
    let b = SquareCoord { q: -2, r: 13 };
    let s = a.add(&b);
    assert_eq!(s, SquareCoord { q: 2, r: 4 });
    assert_eq!(s.subtract(&b), a);
}

#[test]
fn square_scalar_multiply_linearity() {
    let a = SquareCoord { q: -3, r: 8 };
    assert_eq!(a.scalar_multiply(2), a.add(&a));
    assert_eq!(a.scalar_multiply(0), SquareCoord { q: 0, r: 0 });
    assert_eq!(a.scalar_multiply(-1), SquareCoord { q: 3, r: -8 });
}

#[test]
fn square_neighbours_four() {
    let n = SquareCoord { q: 2, r: -1 }.neighbours();
    assert_eq!(
        n,
        vec![
            SquareCoord { q: 3, r: -1 },
            SquareCoord { q: 2, r: -2 },
            SquareCoord { q: 1, r: -1 },
            SquareCoord { q: 2, r: 0 },
        ]
    );
    let c = SquareCoord { q: 2, r: -1 };
    for nb in n.iter() {
        assert_eq!(c.distance(nb), 1);
    }
}

#[test]
fn square_magnitude_is_distance_to_origin() {
    let a = SquareCoord { q: -7, r: 2 };
    assert_eq!(a.magnitude(), 9);
    assert_eq!(a.magnitude(), a.distance(&SquareCoord::zero()));
}

#[test]
fn hex_neighbours_exact_order() {
    let n = HexCoord { q: 0, r: 0 }.neighbours();
    assert_eq!(
        n,
        vec![
            HexCoord { q: 1, r: 0 },
            HexCoord { q: 1, r: -1 },
            HexCoord { q: 0, r: -1 },
            HexCoord { q: -1, r: 0 },
            HexCoord { q: -1, r: 1 },
            HexCoord { q: 0, r: 1 },
        ]
    );
}

#[test]
fn hex_neighbour_closure() {
    let c = HexCoord { q: 4, r: -7 };
    let n = c.neighbours();
    assert_eq!(n.len(), 6);
    for nb in n.iter() {
        assert_eq!(c.distance(nb), 1);
    }
}

#[test]
fn hex_neighbours_deterministic() {
    let a = HexCoord { q: -3, r: 5 };
    let b = HexCoord { q: -3, r: 5 };
    assert_eq!(a.neighbours(), b.neighbours());
}

#[test]
fn hex_distance_examples() {
    let origin = HexCoord { q: 0, r: 0 };
    assert_eq!(origin.distance(&HexCoord { q: 1, r: -1 }), 1);
    assert_eq!(origin.distance(&HexCoord { q: 2, r: -1 }), 2);
    assert_eq!(origin.distance(&HexCoord { q: 2, r: 2 }), 4);
    assert_eq!(HexCoord { q: -1, r: -1 }.distance(&HexCoord { q: 1, r: 1 }), 4);
}

#[test]
fn hex_distance_symmetry_and_identity() {
    let a = HexCoord { q: 2, r: -5 };
    let b = HexCoord { q: -4, r: 3 };
    assert_eq!(a.distance(&b), b.distance(&a));
    assert_eq!(a.distance(&a), 0);
    assert!(a.distance(&b) != 0);
}

#[test]
fn hex_triangle_inequality_samples() {
    let triples = [
        (0, 0, 1, -1, 3, -2),
        (-5, 2, 7, -1, 0, 0),
        (2, 2, -2, -2, 5, -7),
    ];
    for &(aq, ar, bq, br, cq, cr) in triples.iter() {
        let a = HexCoord { q: aq, r: ar };
        let b = HexCoord { q: bq, r: br };
        let c = HexCoord { q: cq, r: cr };
        assert!(a.distance(&c) <= a.distance(&b) + b.distance(&c));
    }
}

#[test]
fn hex_add_subtract_round_trip() {
    let a = HexCoord { q: 6, r: -2 };
    let b = HexCoord { q: -9, r: 5 };
    assert_eq!(a.add(&b).subtract(&b), a);
}

#[test]
fn hex_scalar_multiply_linearity() {
    let a = HexCoord { q: 5, r: -6 };
    assert_eq!(a.scalar_multiply(2), a.add(&a));
}

#[test]
fn hex_magnitude_is_distance_to_origin() {
    let a = HexCoord { q: 3, r: -1 };
    assert_eq!(a.magnitude(), 3);
    assert_eq!(a.magnitude(), a.distance(&HexCoord::zero()));
}

#[test]
fn triangle_distance_examples() {
    let a = TriangleCoord { q: 0, r: 0, flip: false };
    assert_eq!(a.distance(&TriangleCoord { q: 0, r: 0, flip: true }), 1);
    assert_eq!(a.distance(&TriangleCoord { q: 1, r: 1, flip: true }), 5);
    assert_eq!(a.distance(&TriangleCoord { q: -2, r: 0, flip: false }), 4);
    assert_eq!(a.distance(&a), 0);
}

#[test]
fn triangle_distance_symmetry_samples() {
    let a = TriangleCoord { q: 2, r: -3, flip: true };
    let b = TriangleCoord { q: -1, r: 4, flip: false };
    assert_eq!(a.distance(&b), b.distance(&a));
}

#[test]
fn triangle_add_subtract_round_trip() {
    let a = TriangleCoord { q: 1, r: -2, flip: true };
    let b = TriangleCoord { q: 3, r: 4, flip: true };
    let s = a.add(&b);
    assert_eq!(s, TriangleCoord { q: 4, r: 2, flip: false });
    assert_eq!(s.subtract(&b), a);
}

#[test]
fn triangle_scalar_multiply_keeps_flip() {
    let a = TriangleCoord { q: 2, r: -1, flip: true };
    assert_eq!(a.scalar_multiply(3), TriangleCoord { q: 6, r: -3, flip: true });
}

#[test]
fn triangle_neighbours_share_an_edge() {
    // apex-up tile of an even row: partner, other horizontal, row below
    let n = TriangleCoord { q: 0, r: 0, flip: false }.neighbours();
    assert_eq!(
        n,
        vec![
            TriangleCoord { q: 0, r: 0, flip: true },
            TriangleCoord { q: -2, r: 0, flip: true },
            TriangleCoord { q: 0, r: -1, flip: false },
        ]
    );
    // apex-down tile of an even row: vertical neighbour is the row above
    let m = TriangleCoord { q: 0, r: 0, flip: true }.neighbours();
    assert_eq!(
        m,
        vec![
            TriangleCoord { q: 0, r: 0, flip: false },
            TriangleCoord { q: 2, r: 0, flip: false },
            TriangleCoord { q: 0, r: 1, flip: true },
        ]
    );
    // the partner relation is mutual
    assert_eq!(n[0], TriangleCoord { q: 0, r: 0, flip: true });
    assert_eq!(m[0], TriangleCoord { q: 0, r: 0, flip: false });
}

#[test]
fn triangle_new_and_zero() {
    assert_eq!(
        TriangleCoord::new(4, -5, true),
        TriangleCoord { q: 4, r: -5, flip: true }
    );
    assert_eq!(TriangleCoord::zero(), TriangleCoord { q: 0, r: 0, flip: false });
    assert_eq!(TriangleCoord { q: 1, r: 1, flip: false }.magnitude(), 4);
}
