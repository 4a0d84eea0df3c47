//! Event loops.

pub mod task;
pub mod threadpool;
