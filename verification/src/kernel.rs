//! The task runtime: exclusive access to shared state, channels between
//! tasks, and the rules by which a periodic task is paced and joined.

pub mod sync;
pub mod task;
