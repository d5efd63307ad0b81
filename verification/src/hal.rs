//! The hardware abstraction layer: what a peripheral can do, and a simulated
//! board that does it.

pub mod board;
pub mod dummy_hal;
pub mod interface;
