//! Parallax scrolling for tile-map image layers.
//!
//! The crate models the data carried by a tile-map image layer — a marker for
//! the layer entity, a parallax configuration with two scroll-speed factors
//! and a base position — and the per-frame routine that repositions every
//! configured layer from the current camera position.  Coordinates and
//! factors are fixed-point integers (see [`fixed`]), so the arithmetic of the
//! routine is exact and fully specified.  A host game engine supplies entity
//! storage, rendering and scheduling around these types.

pub mod fixed;
pub mod image;
pub mod laws;
pub mod parallax;

pub use fixed::SCALE;
pub use image::{TiledImage, TiledImageParallax, Vec2Fixed, Vec3Fixed};
pub use parallax::{ParallaxLayer, ParallaxSystem};
