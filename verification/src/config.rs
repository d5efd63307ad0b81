use vstd::prelude::*;

verus! {

/// Base tick of the simulation, in milliseconds.
pub const SIM_TICK_RATE_MS: u64 = 10;

/// Period of the navigation task, in milliseconds: 20 Hz.
pub const NAV_LOOP_RATE_MS: u64 = 50;

/// Period of the engine control task, in milliseconds: 50 Hz.
pub const CONTROL_LOOP_RATE_MS: u64 = 20;

/// Period of the telemetry task, in milliseconds: 5 Hz.
pub const TELEMETRY_LOOP_RATE_MS: u64 = 200;

/// Address of the simulated inertial sensor on the addressed bus.
pub const DUMMY_IMU_ADDR: u8 = 0x68;

/// Identifier of the one addressed bus of the simulated board.
pub const DUMMY_I2C_BUS: u8 = 0;

/// Pin that drives the simulated fuel valve.
pub const DUMMY_VALVE_PIN: u8 = 10;

/// Identifier of the transfer bus the simulated radio sits on.
pub const DUMMY_RADIO_SPI_BUS: u8 = 1;

} // verus!
