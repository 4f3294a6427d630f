//! The debugging probes that flash and run test binaries.

use vstd::prelude::*;

verus! {

/// Implements a probe interface using the probe-rs
/// library to support a wide range of debug probes.
#[derive(Debug, Clone, Copy, PartialEq, Eq, Structural)]
pub struct ProbeRs {}

/// Top-level definition of all possible probe
/// types for flashing and debugging.
#[derive(Debug, Clone, Copy, PartialEq, Eq, Structural)]
pub enum Probe {
    /// Uses the probe-rs library to interface
    /// with a variety of probes.
    ProbeRs(ProbeRs),
}

impl Probe {
    /// A probe handled through probe-rs.
    pub fn new_probe_rs() -> (p: Self)
        ensures
            p is ProbeRs,
    {
        Probe::ProbeRs(ProbeRs {  })
    }
}

} // verus!
