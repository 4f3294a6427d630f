use calico::rsp::{
    ARMBreakpointKind, Address, Argument, BinaryData, BreakpointKind, BreakpointMode, Command,
    Packet, Signal, ThreadID, ThreadOperation,
};

#[test]
fn test_command_enable_extended_mode() {
    assert_eq!(Command::EnableExtendedMode.to_string(), "!")
}

#[test]
fn test_command_query() {
    assert_eq!(Command::Query.to_string(), "?")
}

#[test]
fn test_command_arguments() {
    assert_eq!(
        Command::Arguments {
            args: vec![Argument(vec![0, 1, 2, 3])]
        }
        .to_string(),
        "A4,0,00010203"
    )
}

#[test]
fn test_command_baud() {
    assert_eq!(Command::Baud(152000).to_string(), "b152000")
}

#[test]
fn test_command_breakpoint() {
    assert_eq!(
        Command::Breakpoint {
            addr: Address::Address32(64),
            mode: BreakpointMode::Clear
        }
        .to_string(),
        "B40,C"
    )
}

#[test]
fn test_command_backwards_continue() {
    assert_eq!(Command::BackwardContinue.to_string(), "bc")
}

#[test]
fn test_command_backwards_single_step() {
    assert_eq!(Command::BackwardSingleStep.to_string(), "bs")
}

#[test]
fn test_command_continue() {
    assert_eq!(Command::Continue { addr: None }.to_string(), "c0");
    assert_eq!(
        Command::Continue {
            addr: Some(Address::Address32(64))
        }
        .to_string(),
        "c40"
    )
}

#[test]
fn test_command_continue_with_signal() {
    assert_eq!(
        Command::ContinueWithSignal {
            sig: Signal::Stopped,
            addr: None
        }
        .to_string(),
        "C00"
    );
    assert_eq!(
        Command::ContinueWithSignal {
            sig: Signal::Stopped,
            addr: Some(Address::Address32(64))
        }
        .to_string(),
        "C00;40"
    )
}

#[test]
fn test_command_toggle_debug() {
    assert_eq!(Command::ToggleDebug.to_string(), "d")
}

#[test]
fn test_command_detach() {
    assert_eq!(Command::Detach { pid: None }.to_string(), "D");
    assert_eq!(Command::Detach { pid: Some(4) }.to_string(), "D04")
}

#[test]
fn test_command_read_general_registers() {
    assert_eq!(Command::ReadGeneralRegisters.to_string(), "g");
}

#[test]
fn test_command_write_general_register() {
    assert_eq!(
        Command::WriteGeneralRegisters(BinaryData(vec![0, 1, 2, 3])).to_string(),
        "G00010203"
    );
}

#[test]
fn test_command_set_thread() {
    assert_eq!(
        Command::SetThread {
            op: ThreadOperation::StepAndContinue,
            thread_id: ThreadID(4)
        }
        .to_string(),
        "Hc4"
    );
}

#[test]
fn test_single_cycle_step() {
    assert_eq!(
        Command::SingleCycleStep {
            addr: None,
            cycles: None
        }
        .to_string(),
        "i"
    );
    assert_eq!(
        Command::SingleCycleStep {
            addr: Some(Address::Address32(64)),
            cycles: Some(1)
        }
        .to_string(),
        "i40,1"
    );
    assert_eq!(
        Command::SingleCycleStep {
            addr: Some(Address::Address32(64)),
            cycles: None
        }
        .to_string(),
        "i40"
    );
}

#[test]
fn test_command_signal_cycle_step() {
    assert_eq!(Command::SignalCycleStep.to_string(), "I")
}

#[test]
fn test_command_kill() {
    assert_eq!(Command::Kill.to_string(), "k")
}

#[test]
fn test_command_read_memory() {
    assert_eq!(
        Command::ReadMemory {
            addr: Address::Address32(64),
            length: 128
        }
        .to_string(),
        "m40,128"
    )
}

#[test]
fn test_command_write_memory() {
    assert_eq!(
        Command::WriteMemory {
            addr: Address::Address32(64),
            length: 128,
            data: BinaryData(vec![0, 1, 2, 3])
        }
        .to_string(),
        "M40,128:00010203"
    )
}

#[test]
fn test_command_read_register() {
    assert_eq!(Command::ReadRegister { register: 64 }.to_string(), "p40")
}

#[test]
fn test_command_write_register() {
    assert_eq!(
        Command::WriteRegister {
            register: 64,
            value: BinaryData(vec![0, 1, 2, 3])
        }
        .to_string(),
        "P40=00010203"
    )
}

#[test]
fn test_command_reset() {
    assert_eq!(Command::Reset.to_string(), "r")
}

#[test]
fn test_command_restart() {
    assert_eq!(Command::Restart(64).to_string(), "R40")
}

#[test]
fn test_command_single_step() {
    assert_eq!(Command::SingleStep { addr: None }.to_string(), "s");

    assert_eq!(
        Command::SingleStep {
            addr: Some(Address::Address32(64))
        }
        .to_string(),
        "s40"
    )
}

#[test]
fn test_command_step_with_signal() {
    assert_eq!(
        Command::StepWithSignal {
            signal: Signal::Stopped,
            addr: None
        }
        .to_string(),
        "S00"
    );

    assert_eq!(
        Command::StepWithSignal {
            signal: Signal::Stopped,
            addr: Some(Address::Address32(64))
        }
        .to_string(),
        "S00;40"
    )
}

#[test]
fn test_command_search_backwards() {
    assert_eq!(
        Command::SearchBackwards {
            addr: Address::Address32(128),
            pattern: 1,
            mask: 1
        }
        .to_string(),
        "t80:1,1"
    )
}

#[test]
fn test_command_thread_alive() {
    assert_eq!(
        Command::ThreadAlive {
            thread: ThreadID(64)
        }
        .to_string(),
        "T40"
    )
}

#[test]
fn test_command_read_addressable_memory() {
    assert_eq!(
        Command::ReadAddressableMemory {
            addr: Address::Address32(64),
            length: 128
        }
        .to_string(),
        "x40,128"
    )
}

#[test]
fn test_command_write_addressable_memory() {
    assert_eq!(
        Command::WriteAddressableMemory {
            addr: Address::Address32(64),
            length: 4,
            data: BinaryData(vec![0, 1, 2, 3])
        }
        .to_string(),
        "X40,4:00010203"
    )
}

#[test]
fn test_command_remove_breakpoint() {
    assert_eq!(
        Command::RemoveBreakpoint {
            breakpoint_type: 0,
            addr: Address::Address32(64),
            breakpoint_kind: BreakpointKind::ARM(ARMBreakpointKind::ARM32Bit)
        }
        .to_string(),
        "z0,40,4"
    )
}

#[test]
fn test_command_insert_breakpoint() {
    assert_eq!(
        Command::InsertBreakpoint {
            breakpoint_type: 0,
            addr: Address::Address32(64),
            breakpoint_kind: BreakpointKind::ARM(ARMBreakpointKind::ARM32Bit)
        }
        .to_string(),
        "Z0,40,4"
    )
}
