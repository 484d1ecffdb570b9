//! Terrain mesh construction: a regular grid over a rectangle, split into
//! triangles, with per-vertex attributes supplied by the caller.
//!
//! Everything here works on integers and exact fractions. The caller turns
//! each [`GridSample`] into floating-point positions and texture
//! coordinates (the height comes from layered noise), and the library
//! assembles and checks the mesh.

pub mod grid;
pub mod mesh;
pub mod terrain;
pub mod triangulate;

pub use grid::{sample_grid, GridDimensions, GridSample, TerrainError, UnitFraction};
pub use mesh::{assemble, Mesh, Topology};
pub use terrain::{build_mesh, noise_seed, plan_terrain, TerrainLayout};
pub use triangulate::triangulate;
