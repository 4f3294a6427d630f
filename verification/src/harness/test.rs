//! Provides instrumentation specific to tests.

use vstd::prelude::*;

use super::sealed::Sealed;

verus! {

/// Marks the start of a test.
pub fn test_start() {
}

/// Marks the end of a test.
pub fn test_end() {
}

/// Indicates whether a test succeeded or failed.
///
/// This is comparable to the `Termination` trait in libstd.
///
/// It is implemented for `()`, which always indicates success,
/// and `Result`, where `Ok` indicates success.
pub trait TestOutcome: Sealed {
    /// Whether the outcome counts as a success.
    spec fn succeeded(&self) -> bool;

    /// Reports whether the outcome counts as a success.
    fn is_success(&self) -> (r: bool)
        ensures
            r == self.succeeded(),
    ;
}

impl TestOutcome for () {
    open spec fn succeeded(&self) -> bool {
        true
    }

    fn is_success(&self) -> (r: bool) {
        true
    }
}

impl<T, E> TestOutcome for Result<T, E> {
    open spec fn succeeded(&self) -> bool {
        self is Ok
    }

    fn is_success(&self) -> (r: bool) {
        self.is_ok()
    }
}

/// `()` always indicates success, and a `Result` indicates success exactly
/// where it is `Ok`.
pub proof fn lemma_outcome_success<T, E>(r: Result<T, E>)
    ensures
        ().succeeded(),
        r.succeeded() <==> r is Ok,
{
}

/// Checks the outcome of a test: `true` where the test exited with `()` or
/// `Ok(..)`, `false` where it exited with `Err(..)`. The verdict is handed
/// back to the caller; this function does not halt the target.
pub fn check_outcome<T: TestOutcome>(outcome: T) -> (success: bool)
    ensures
        success == outcome.succeeded(),
{
    outcome.is_success()
}

} // verus!
