//! Discrete tiling geometry for square, triangle and hexagon grids.
//!
//! The crate models logical grid coordinates (with exact integer algebra:
//! distance, adjacency, addition, scalar multiplication), the projection of a
//! coordinate into a continuous plane, the inverse projection for triangles,
//! the construction of one tile's renderable geometry, and the enumeration of
//! a rectangular grid of coordinates.
//!
//! All geometry here is exact. Continuous positions are kept in lattice
//! units — integer multiples of half the tile size and of `sqrt(3)/2` times
//! the tile size — so that every projection and its inverse is provable
//! integer arithmetic. Scaling those units by a floating-point tile size is
//! the embedding host's one unverifiable step.

pub mod grids;

pub use grids::primitives::GridAlign;
