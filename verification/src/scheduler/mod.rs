//! The stream-based task scheduler.

pub mod consumer;
pub mod laws;
pub mod process_tracker;
