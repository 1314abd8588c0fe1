//! The Traggo handler: a declared vendor whose submission is not
//! implemented yet.

use vstd::prelude::*;

verus! {

/// Configuration for the Traggo handler; it has no fields yet.
#[derive(Debug, Default)]
pub struct TraggoConfig {}

/// The Traggo handler; submitting an interval through it is not
/// implemented.
#[derive(Debug, Default)]
pub struct Traggo {}

} // verus!
