//! A verified model of a small interactive scene: a camera with adjustable
//! bloom post-processing parameters and field of view, and a grid of spheres
//! whose materials are chosen deterministically from their coordinates.
//!
//! The library holds the scene's logic — material selection, scene
//! construction, and the per-frame parameter controller — as pure functions
//! over plain values. Rendering, windowing and input delivery belong to a
//! host runtime and stay outside.

pub mod bloom;
pub mod controller;
pub mod material;
pub mod scene;
