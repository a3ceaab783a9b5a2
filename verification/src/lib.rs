//! Keeps opted-in secrets copied into a fleet of downstream clusters.
//!
//! The library holds the operator's decisions: which secrets are eligible, which
//! clusters are ready, what is copied where, and how each step of a copy answers
//! to what the cluster's API said. Calls to the clusters themselves are made by
//! the program around the library, which hands their outcomes in as plain values.

pub mod config;
pub mod constants;
pub mod error;
pub mod kubernetes;
pub mod reconcilers;
pub mod sync;
pub mod test_utils;
pub mod text;
pub mod types;
