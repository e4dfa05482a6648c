//! A tick-driven cartoon-face animation engine.
//!
//! The crate models named-keypoint face poses, advances a current pose toward
//! a target pose one bounded step per tick, and rasterizes the face into a
//! fixed-size pixel frame through a clipped drawing surface.  Shape
//! rasterization and random numbers come from outside crates behind trusted
//! wrappers; everything else is verified.

pub mod anim;
pub mod framebuffer;
pub mod pose;
pub mod render;
pub mod repo;
mod rng;
