use tile_grids::grids::coordinates::HexCoord;
use tile_grids::grids::coordinates::SquareCoord;
use tile_grids::grids::coordinates::TriangleCoord;
use tile_grids::grids::coordinates::TriangleNeighbours;
use tile_grids::grids::primitives::GridAlign;
use tile_grids::grids::primitives::HexOrientation;
use tile_grids::grids::primitives::Hexes;
use tile_grids::grids::primitives::MeshVertex;
use tile_grids::grids::primitives::Squares;
use tile_grids::grids::primitives::TileMesh;
use tile_grids::grids::primitives::Triangles;
use tile_grids::grids::GridConfig;

fn assert_mesh_well_formed(m: &TileMesh) {
    assert_eq!(m.normals.len(), m.positions.len());
    assert_eq!(m.indices.len() % 3, 0);
    for &ix in m.indices.iter() {
        assert!((ix as usize) < m.positions.len());
    }
}

#[test]
fn triangle_mesh_contents() {
    let p = Triangles { alignment: GridAlign::XY, neighbors: TriangleNeighbours::Strict };
    let m = p.to_mesh();
    assert_mesh_well_formed(&m);
    assert_eq!(
        m.positions,
        vec![
            MeshVertex { angle_deg: 90, radius_halves: 2 },
            MeshVertex { angle_deg: 210, radius_halves: 2 },
            MeshVertex { angle_deg: 330, radius_halves: 2 },
            MeshVertex { angle_deg: 270, radius_halves: 1 },
        ]
    );
    assert_eq!(m.indices, vec![0, 1, 3, 0, 3, 2]);
    assert!(m.normals.iter().all(|&n| n == GridAlign::XY));
}

#[test]
fn square_mesh_contents() {
    let p = Squares { alignment: GridAlign::XZ };
    let m = p.to_mesh();
    assert_mesh_well_formed(&m);
    assert_eq!(
        m.positions,
        vec![
            MeshVertex { angle_deg: 45, radius_halves: 2 },
            MeshVertex { angle_deg: 135, radius_halves: 2 },
            MeshVertex { angle_deg: 225, radius_halves: 2 },
            MeshVertex { angle_deg: 315, radius_halves: 2 },
        ]
    );
    assert_eq!(m.indices, vec![0, 1, 2, 0, 2, 3]);
    assert!(m.normals.iter().all(|&n| n == GridAlign::XZ));
}

#[test]
fn hex_mesh_contents_pointy() {
    let p = Hexes { alignment: GridAlign::XY, orientation: HexOrientation::PointyUp };
    let m = p.to_mesh();
    assert_mesh_well_formed(&m);
    assert_eq!(m.positions.len(), 7);
    assert_eq!(m.positions[0], MeshVertex { angle_deg: 0, radius_halves: 0 });
    for (i, v) in m.positions.iter().enumerate().skip(1) {
        assert_eq!(v.angle_deg, (i as u32 - 1) * 60 + 30);
        assert_eq!(v.radius_halves, 2);
    }
    assert_eq!(
        m.indices,
        vec![0, 1, 2, 0, 2, 3, 0, 3, 4, 0, 4, 5, 0, 5, 6, 0, 6, 1]
    );
}

#[test]
fn hex_mesh_contents_flat() {
    let p = Hexes { alignment: GridAlign::XZ, orientation: HexOrientation::FlatUp };
    let m = p.to_mesh();
    assert_mesh_well_formed(&m);
    for (i, v) in m.positions.iter().enumerate().skip(1) {
        assert_eq!(v.angle_deg, (i as u32 - 1) * 60);
    }
    assert!(m.normals.iter().all(|&n| n == GridAlign::XZ));
}

#[test]
fn triangle_grid_two_per_cell() {
    let config = GridConfig(Triangles {
        alignment: GridAlign::XY,
        neighbors: TriangleNeighbours::Expanded,
    });
    let (mesh, coords) = config.to_grid(3, 2);
    assert_mesh_well_formed(&mesh);
    assert_eq!(coords.len(), 12);
    assert_eq!(coords[0], TriangleCoord { q: 0, r: 0, flip: false });
    assert_eq!(coords[1], TriangleCoord { q: 0, r: 0, flip: true });
    assert_eq!(coords[2], TriangleCoord { q: 0, r: 1, flip: false });
    assert_eq!(coords[3], TriangleCoord { q: 0, r: 1, flip: true });
    assert_eq!(coords[4], TriangleCoord { q: 1, r: 0, flip: false });
    assert_eq!(coords[11], TriangleCoord { q: 2, r: 1, flip: true });
    // every cell appears once per flip value
    for q in 0..3 {
        for r in 0..2 {
            for &flip in [false, true].iter() {
                let want = TriangleCoord { q, r, flip };
                assert_eq!(coords.iter().filter(|c| **c == want).count(), 1);
            }
        }
    }
}

#[test]
fn square_grid_row_major() {
    let config = GridConfig(Squares { alignment: GridAlign::XY });
    let (mesh, coords) = config.to_grid(2, 3);
    assert_mesh_well_formed(&mesh);
    assert_eq!(
        coords,
        vec![
            SquareCoord { q: 0, r: 0 },
            SquareCoord { q: 0, r: 1 },
            SquareCoord { q: 0, r: 2 },
            SquareCoord { q: 1, r: 0 },
            SquareCoord { q: 1, r: 1 },
            SquareCoord { q: 1, r: 2 },
        ]
    );
}

#[test]
fn hex_grid_row_major() {
    let config = GridConfig(Hexes {
        alignment: GridAlign::XZ,
        orientation: HexOrientation::FlatUp,
    });
    let (mesh, coords) = config.to_grid(2, 2);
    assert_mesh_well_formed(&mesh);
    assert_eq!(
        coords,
        vec![
            HexCoord { q: 0, r: 0 },
            HexCoord { q: 0, r: 1 },
            HexCoord { q: 1, r: 0 },
            HexCoord { q: 1, r: 1 },
        ]
    );
}

#[test]
fn zero_sized_grids_are_empty() {
    let squares = GridConfig(Squares { alignment: GridAlign::XY });
    assert_eq!(squares.to_grid(0, 5).1.len(), 0);
    assert_eq!(squares.to_grid(5, 0).1.len(), 0);
    let triangles = GridConfig(Triangles {
        alignment: GridAlign::XY,
        neighbors: TriangleNeighbours::Strict,
    });
    assert_eq!(triangles.to_grid(0, 0).1.len(), 0);
}
