//! Scene-asset pipeline and frame planning for a small model viewer.
//!
//! The library flattens a hierarchical scene description into render-ready
//! meshes and nodes, computes the merged bounding volume used to auto-frame
//! the camera, and plans the two-pass frame sequence that a GPU backend
//! executes.  All geometry lives in a fixed-point integer coordinate space so
//! that every transformation and merge is exact and verified.

pub mod fx;
pub mod mat;
pub mod bbox;
pub mod document;
pub mod asset;
pub mod scene;
pub mod renderer;
pub mod preset;
pub mod web;
