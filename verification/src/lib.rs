//! Verified control logic of the Sonido audio effects.

pub mod decimate;
pub mod rng;
pub mod ring;
pub mod modes;
pub mod grains;
pub mod params;
pub mod order;
pub mod pitch;
