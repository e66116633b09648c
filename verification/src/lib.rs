//! A force-field driven 2D particle simulation engine.
//!
//! Particles live in a world store together with force sources; each tick
//! spawns queued particles and then runs a speed-controlled number of
//! substeps, each of which accumulates forces into velocities and then
//! integrates positions.  All coordinates are signed 64-bit integers and
//! every arithmetic step saturates at the type bounds, so the whole engine
//! is a total, deterministic function of its inputs.

pub mod engine;
pub mod props;
pub mod scalar;
pub mod world;
