//! Verified core of the Calico hardware-in-the-loop test framework:
//! GDB remote serial protocol packet encoding, test metadata records,
//! ELF test-table decoding and the target-side harness hooks.

pub mod text;
pub mod query;
pub mod rsp;
pub mod gdb;
pub mod harness;
pub mod probe;
pub mod rpc;
pub mod elf;
pub mod attributes;
