//! Deciding what is copied where, and carrying the copies out step by step.

pub mod clusters;
pub mod copy;
pub mod downstream;
pub mod manager;
pub mod runs;
pub mod secrets;
