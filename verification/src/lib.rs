//! Chunk meshing and face culling for a voxel world renderer.
//!
//! Given a dense grid of typed blocks, this crate decides which block faces
//! are potentially visible (neighbor occlusion, camera-relative back-face
//! culling, and a coarse per-chunk cone/distance filter) and emits the
//! textured quads needed to draw them. All geometry is kept in integer
//! coordinates: block positions in whole block units, camera directions in
//! milli-units, and atlas texture coordinates in centi-units, so that every
//! step of the pipeline can be stated and proved exactly.

pub mod world;
