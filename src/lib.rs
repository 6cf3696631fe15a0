//! A sparse, direction-aware adjacency store over a 3-D grid of cells, and a
//! board that bounds the grid and answers movement queries against it.
//!
//! Alongside it: axis-aligned directions and the four world sides they map
//! to, and the decisions taken on what the host engine answers.

pub mod board;
pub mod defold;
pub mod graph;
pub mod graph_key;
pub mod grid_point;
pub mod idir2;
pub mod world_sides;
