//! The instrumentation subscriber that forwards tracing events to the host.

use vstd::prelude::*;

verus! {

/// Collects tracing spans and events on the target.
pub struct TracingSubscriber {}

impl TracingSubscriber {
    /// Creates a subscriber.
    pub fn new() -> Self {
        TracingSubscriber {  }
    }
}

} // verus!
