//! Building blocks for 2D grid-based applications: a hexagonal-grid
//! coordinate model, adjacency resolution, tile ordering, a grid identity
//! registry, a tile spawn planner, a rule-based texture engine, and small
//! decision helpers for camera movement and window-mode toggling.

pub mod camera;
pub mod grid;
pub mod textures;
pub mod tile;
pub mod window;
