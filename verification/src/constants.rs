//! The names and numbers that the operator is built around.

use vstd::prelude::*;

pub mod annotations;
pub mod crd;

verus! {

/// The field-manager identity under which every downstream write is made.
pub const OPERATOR_NAME: &'static str = "outrider";

} // verus!
