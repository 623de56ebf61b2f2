//! Core of a particle-based emergent-pattern ("slime mold") simulator.
//!
//! Virtual agents move over a 2D toroidal field, deposit a diffusing and
//! decaying trail into a grid, and sense that trail to steer. The library
//! holds the verified heart of the system: the parameter store with its
//! domain clamps, the device-record encoding, the field store, the three
//! compute kernels modelled over fixed-point integers, the input-mode
//! routing, and the frame scheduler that sequences one frame.
//!
//! All quantities are fixed-point integers in millionths (see [`fixed`]);
//! the surrounding application converts to the GPU's native scalar layout
//! at the boundary.

pub mod fixed;
pub mod field;
pub mod grid;
pub mod input;
pub mod kernels;
pub mod device;
pub mod params;
pub mod scheduler;
pub mod renderer;
pub mod rng;

pub use fixed::SCALE;
