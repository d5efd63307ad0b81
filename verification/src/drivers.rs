//! Device drivers. Each is written against the capability contracts alone
//! and owns the handles it is built from.

pub mod imu;
pub mod radio;
pub mod valve;
