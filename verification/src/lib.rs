//! Core of a continuously animated, full-window procedural display: a
//! rotating sequence of visualizers, each rendered through a mask pass and
//! a scene pass into offscreen targets and then composited with a
//! randomized fill pattern, edge highlight and vignette.
//!
//! This crate holds the verified decision logic of that pipeline: surface
//! sizing, the shared aspect-invariant coordinate transform, pattern
//! parameter randomization, the segment-rotation state machine, the
//! offscreen-target pass protocol, and the per-frame driver that ties them
//! together. The host (GPU context, DOM events, clock, random source) sits
//! outside and exchanges plain values with these functions.

pub mod driver;
pub mod pattern;
pub mod post;
pub mod sched;
pub mod surface;
pub mod transform;
pub mod viz;
