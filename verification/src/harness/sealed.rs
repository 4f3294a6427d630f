//! Restricts which types can describe a test's outcome.

use vstd::prelude::*;

verus! {

/// Implemented only for the types that a test may return.
pub trait Sealed {}

impl Sealed for () {}

impl<T, E> Sealed for Result<T, E> {}

} // verus!
