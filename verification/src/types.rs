//! The resource shapes that the operator reads and writes.

pub mod cluster;
pub mod meta;
pub mod secret;
pub mod string_map;
pub mod string_set;
