//! Scene runtime of a first-person viewer for a voxel volume: the voxel grid
//! and its layout, the record of held keys and pointer motion, the frame-rate
//! clock, the movement that the keys ask for, and the controller that ties
//! them to the window's events. Every function carries a contract that is
//! proved of its body.
//!
//! Numbers that the renderer treats as floating point (samples of the volume,
//! pointer motion) are carried as their IEEE-754 bit patterns and never
//! computed with here; the camera's trigonometry belongs to the renderer.

pub mod clock;
pub mod controller;
pub mod input;
pub mod motion;
pub mod volume;
