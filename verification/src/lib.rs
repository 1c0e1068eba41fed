//! A two-pass pixelation pipeline: the scene is drawn at a fixed low
//! resolution into an offscreen target, its colours are posterised by a
//! step count carried in a material extension, and a display quad that
//! samples the target is composited to the screen.
//!
//! The crate holds the pipeline's own state and rules: the offscreen target,
//! the render-layer partition, the binding of marked cameras to the target,
//! the display quad and the material parameter schema.

pub mod app;
pub mod camera;
pub mod guarantees;
pub mod layers;
pub mod material;
pub mod pixelating_plugin;
pub mod screenshots;
pub mod target;
pub mod world;

pub use crate::material::PixelatedExtension;
