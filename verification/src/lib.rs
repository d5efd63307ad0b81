//! Hardware abstraction and task runtime for a simulated flight computer:
//! capability contracts for peripherals, a simulated board that implements
//! them, the drivers built on them, and the layered faults they report.

pub mod config;
pub mod drivers;
pub mod endian;
pub mod error;
pub mod hal;
pub mod kernel;
mod random;
