//! What is asked of a cluster's API, and how its answers are taken.

pub mod client;
pub mod crd;
pub mod namespaces;
