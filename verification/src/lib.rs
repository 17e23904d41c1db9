//! A minimal scene-bootstrap library: it models the one-time startup of a
//! sprite-viewer application as verified code.
//!
//! The scene is a sequence of entities (a 2D camera and a textured sprite);
//! the startup handler spawns exactly one of each, the sprite bound to a
//! fixed asset path. The host engine itself (windowing, rendering, asset
//! loading) lives outside this crate; the crate states and proves what the
//! startup step does to the scene.

pub mod scene;
pub mod startup;
