use tile_grids::grids::coordinates::HexCoord;
use tile_grids::grids::coordinates::SquareCoord;
use tile_grids::grids::coordinates::TriangleCoord;
use tile_grids::grids::coordinates::TriangleNeighbours;
use tile_grids::grids::primitives::GridAlign;
use tile_grids::grids::primitives::HexOrientation;
use tile_grids::grids::primitives::Hexes;
use tile_grids::grids::primitives::Squares;
use tile_grids::grids::primitives::Triangles;

fn tri_params(alignment: GridAlign) -> Triangles {
    Triangles { alignment, neighbors: TriangleNeighbours::Expanded }
}

#[test]
fn triangle_forward_examples_xy() {
    let p = tri_params(GridAlign::XY);
    let origin = TriangleCoord { q: 0, r: 0, flip: false }.to_vec3(&p);
    assert_eq!((origin.x_root3_halves, origin.lat_halves), (0, 0));
    let partner = TriangleCoord { q: 0, r: 0, flip: true }.to_vec3(&p);
    assert_eq!((partner.x_root3_halves, partner.lat_halves), (1, 1));
    // odd row, unflipped: the adjustment applies
    let odd = TriangleCoord { q: 1, r: 1, flip: false }.to_vec3(&p);
    assert_eq!((odd.x_root3_halves, odd.lat_halves), (1, 4));
    // odd row, flipped: the adjustment does not
    let odd_f = TriangleCoord { q: 1, r: 1, flip: true }.to_vec3(&p);
    assert_eq!((odd_f.x_root3_halves, odd_f.lat_halves), (2, 3));
    let neg = TriangleCoord { q: 0, r: -1, flip: false }.to_vec3(&p);
    assert_eq!((neg.x_root3_halves, neg.lat_halves), (0, -2));
}

#[test]
fn triangle_forward_examples_xz() {
    let p = tri_params(GridAlign::XZ);
    let partner = TriangleCoord { q: 0, r: 0, flip: true }.to_vec3(&p);
    assert_eq!((partner.x_root3_halves, partner.lat_halves), (1, -1));
    let odd = TriangleCoord { q: 1, r: 1, flip: false }.to_vec3(&p);
    assert_eq!((odd.x_root3_halves, odd.lat_halves), (1, 2));
}

#[test]
fn triangle_placement_rotation() {
    let p = tri_params(GridAlign::XY);
    let t = TriangleCoord { q: 0, r: 0, flip: true }.to_world_pos(p);
    assert_eq!(t.half_turns, 1);
    assert_eq!((t.pos.x_root3_halves, t.pos.lat_halves), (1, 1));
    let u = TriangleCoord { q: 2, r: 3, flip: false }.to_world_pos(p);
    assert_eq!(u.half_turns, 3);
    let v = TriangleCoord { q: 2, r: -3, flip: true }.to_world_pos(p);
    assert_eq!(v.half_turns, -2);
}

#[test]
fn square_forward_is_step_multiples() {
    let p = Squares { alignment: GridAlign::XZ };
    let pos = SquareCoord { q: 7, r: -4 }.to_world_pos(p);
    assert_eq!((pos.x_steps, pos.lat_steps), (7, -4));
}

#[test]
fn hex_forward_pointy_and_flat() {
    let pointy = Hexes { alignment: GridAlign::XY, orientation: HexOrientation::PointyUp };
    let p = HexCoord { q: 2, r: -1 }.to_world_pos(&pointy);
    assert_eq!((p.x_root3_halves, p.x_halves), (3, 0));
    assert_eq!((p.lat_halves, p.lat_root3_halves), (-3, 0));

    let flat = Hexes { alignment: GridAlign::XY, orientation: HexOrientation::FlatUp };
    let f = HexCoord { q: 2, r: -1 }.to_world_pos(&flat);
    assert_eq!((f.x_halves, f.x_root3_halves), (6, 0));
    assert_eq!((f.lat_root3_halves, f.lat_halves), (0, 0));
}

#[test]
fn triangle_inverse_round_trip_lattice() {
    for &alignment in [GridAlign::XY, GridAlign::XZ].iter() {
        let p = tri_params(alignment);
        for &den in [1i64, 7, 1000].iter() {
            for q in -4..5 {
                for r in -4..5 {
                    for &flip in [false, true].iter() {
                        let c = TriangleCoord { q, r, flip };
                        let pos = c.to_vec3(&p);
                        let back = TriangleCoord::new_from_world_pos(
                            pos.x_root3_halves * den,
                            pos.lat_halves * den,
                            den,
                            &p,
                        );
                        assert_eq!(back, c);
                    }
                }
            }
        }
    }
}

#[test]
fn triangle_inverse_off_lattice_snaps() {
    let p = tri_params(GridAlign::XY);
    // a query slightly above and right of the origin tile's centre
    let c = TriangleCoord::new_from_world_pos(1, -3, 1000, &p);
    assert_eq!(c, TriangleCoord { q: 0, r: 0, flip: false });
    // a query nearest the flipped centre of the origin cell
    let f = TriangleCoord::new_from_world_pos(1001, 998, 1000, &p);
    assert_eq!(f, TriangleCoord { q: 0, r: 0, flip: true });
}

#[test]
fn triangle_inverse_round_trip_through_floats() {
    // emulate an embedding host: continuous positions from the exact
    // lattice times floating-point unit lengths, handed back as a scaled
    // rational
    let size: f64 = 0.25;
    let col_unit = 3.0f64.sqrt() / 2.0 * size;
    let row_unit = size / 2.0;
    let den: i64 = 1 << 20;
    for &alignment in [GridAlign::XY, GridAlign::XZ].iter() {
        let p = tri_params(alignment);
        for q in -3..4 {
            for r in -3..4 {
                for &flip in [false, true].iter() {
                    let c = TriangleCoord { q, r, flip };
                    let pos = c.to_vec3(&p);
                    let x = pos.x_root3_halves as f64 * col_unit;
                    let lat = pos.lat_halves as f64 * row_unit;
                    let x_num = (x / col_unit * den as f64).round() as i64;
                    let lat_num = (lat / row_unit * den as f64).round() as i64;
                    let back = TriangleCoord::new_from_world_pos(x_num, lat_num, den, &p);
                    assert_eq!(back, c);
                }
            }
        }
    }
}
