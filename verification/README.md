# calico

Calico is a hardware-in-the-loop test framework for embedded Rust. This crate
holds its logic as a Verus-verified library:

- `rsp`, `query`, `text`: packets of the GDB remote serial protocol and their
  textual encoding, with the number and byte encodings they are built from.
- `gdb`: the commands the runner sends to GDB's machine interface and what it
  makes of each line GDB answers with.
- `elf`: decoding the test table that Calico embeds in the `.calico` section
  of a test binary (through the `object` crate), and assembling the tests.
- `attributes`: the decisions behind the `#[calico::test]` and
  `#[calico::setup]` attribute macros (test naming, descriptions from doc
  comments, start/end markers, setup argument and signature checks), and the
  per-function rules of the test-suite macro `#[calico::tests]`
  (`validate_suite_function`: one of `#[init]` or `#[test]` per function,
  the attributes and signatures each role allows). The suite macro itself,
  which would assemble a module from these pieces, is not provided: the
  module that ties its validation and code generation together is absent.
- `harness`, `probe`, `rpc`: target-side hooks, probe kinds and test records.

`app/` holds the command-line runner around it: argument parsing, file and
process I/O, probe flashing through probe-rs, JSON decoding and the macro
expansion over `syn` token trees.
