//! Data structures used to encode/decode metadata about test cases.

use vstd::prelude::*;

verus! {

/// Represents a test case.
///
/// This is typically decoded from an ELF file by the test
/// runner, and exposed either over the CLI or a machine API.
#[derive(Debug, Clone, PartialEq)]
pub struct Test {
    /// The string ID of the test used to identify it.
    pub name: String,
    /// The outcome the test is expected to have.
    pub expected_outcome: TestOutcome,
    /// Indicates if the test should be ignored.
    pub ignored: bool,
    /// Optional timeout of the test run in seconds.
    pub timeout: Option<u32>,
    /// Optional address of the test entrypoint in the ELF.
    ///
    /// Populated if the test has been extracted from an ELF
    /// containing address information of the entrypoint.
    pub address: Option<u32>,
}

/// The expected outcome of a test.
#[derive(Debug, Clone, Copy, PartialEq, Eq, Structural)]
pub struct TestOutcome {}

} // verus!
