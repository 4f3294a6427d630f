//! Provides the methods for initializing
//! and instrumenting Calico tests on the target.

use vstd::prelude::*;

/// Provides test-specific instrumentation.
pub mod test;

/// Emits `tracing` crate spans and events from testpoints.
pub mod tracing;

mod sealed;

verus! {

/// Called from a test to initialize the framework.
pub fn init() {
}

/// The default setup function, called where no user-defined setup function
/// has been provided.
pub fn default_setup() {
}

} // verus!
