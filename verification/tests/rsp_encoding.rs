use calico::query::{AllowOperation, Query};
use calico::rsp::{
    ARMBreakpointKind, Address, Argument, BinaryData, BreakpointKind, BreakpointMode, Command,
    ConditionExpression, ConditionExpressionList, ContinueAction, MIPSBreakpointKind, NamedPacket,
    Packet, Signal, ThreadID, ThreadOperation,
};

fn conds() -> ConditionExpressionList {
    ConditionExpressionList(vec![
        ConditionExpression { len: 2, expr: vec![0xab, 0x01] },
        ConditionExpression { len: 1, expr: vec![0xff] },
    ])
}

#[test]
fn thread_id_special_values() {
    assert_eq!(ThreadID(-1).to_string(), "-1");
    assert_eq!(ThreadID(0).to_string(), "0");
    assert_eq!(ThreadID(255).to_string(), "FF");
    assert_eq!(ThreadID(-2).to_string(), "FFFFFFFE");
}

#[test]
fn address_upper_hex() {
    assert_eq!(Address::Address32(0xdead_beef).to_string(), "DEADBEEF");
    assert_eq!(Address::Address64(0x1_0000_0000).to_string(), "100000000");
    assert_eq!(Address::Address32(0).to_string(), "0");
}

#[test]
fn continue_actions() {
    assert_eq!(ContinueAction::Continue.format(), "c");
    assert_eq!(ContinueAction::ContinueSignal(0xa).format(), "C0a");
    assert_eq!(ContinueAction::Step.format(), "s");
    assert_eq!(ContinueAction::StepSignal(0xb5).format(), "Sb5");
    assert_eq!(ContinueAction::Stop.format(), "t");
    assert_eq!(
        ContinueAction::StepRange {
            start: Address::Address32(0x100),
            end: Address::Address32(0x1ab)
        }
        .format(),
        "r100,1AB"
    );
}

#[test]
fn named_packets() {
    assert_eq!(NamedPacket::Attach { pid: 0x2a }.to_string(), "vAttach;2a");
    assert_eq!(
        NamedPacket::Continue { action: None, thread_id: None }.to_string(),
        "vCont"
    );
    assert_eq!(
        NamedPacket::Continue { action: Some(ContinueAction::Step), thread_id: None }.to_string(),
        "vCont;s"
    );
    assert_eq!(
        NamedPacket::Continue {
            action: Some(ContinueAction::ContinueSignal(5)),
            thread_id: Some(ThreadID(-1))
        }
        .to_string(),
        "vCont;C05:-1"
    );
    assert_eq!(NamedPacket::QueryContinueActions.to_string(), "vCont?");
    assert_eq!(NamedPacket::CtrlC.to_string(), "vCtrlC");
    assert_eq!(
        NamedPacket::FlashErase { addr: Address::Address32(0x0800_0000), length: 1024 }
            .to_string(),
        "vFlashErase;8000000,1024"
    );
    assert_eq!(
        NamedPacket::FlashWrite {
            addr: Address::Address32(0x10),
            data: BinaryData(vec![0xde, 0xad])
        }
        .to_string(),
        "vFlashWrite;10,dead"
    );
    assert_eq!(NamedPacket::FlashDone.to_string(), "vFlashDone");
    assert_eq!(NamedPacket::Kill { pid: 42 }.to_string(), "vKill;2a");
    assert_eq!(NamedPacket::Kill { pid: 16 }.to_string(), "vKill;10");
    assert_eq!(NamedPacket::Attach { pid: 16 }.to_string(), "vAttach;10");
    assert_eq!(NamedPacket::MustReplyEmpty.to_string(), "vMustReplyEmpty");
    assert_eq!(NamedPacket::Stopped.to_string(), "vStopped");
}

#[test]
fn named_run_hex_encodes_utf8() {
    assert_eq!(
        NamedPacket::Run { filename: "ab".to_string(), argument: None }.to_string(),
        "vRun;6162"
    );
    assert_eq!(
        NamedPacket::Run { filename: "ab".to_string(), argument: Some("c".to_string()) }
            .to_string(),
        "vRun;6162;63"
    );
    assert_eq!(
        NamedPacket::Run { filename: "é".to_string(), argument: Some("x y".to_string()) }
            .to_string(),
        "vRun;c3a9;782079"
    );
}

#[test]
fn named_command_is_named_packet() {
    assert_eq!(Command::Named(NamedPacket::CtrlC).to_string(), "vCtrlC");
}

#[test]
fn general_query_command_is_the_query_packet() {
    assert_eq!(Command::GeneralQuery(Query::CurrentThreadID).to_string(), "qC");
    assert_eq!(Command::GeneralQuery(Query::Agent(true)).to_string(), "QAgent:1");
    assert_eq!(
        Command::GeneralQuery(Query::ComputeCRC { addr: Address::Address32(0x20), length: 4 })
            .to_string(),
        "qCRC:20,4"
    );
}

#[test]
fn query_packets() {
    assert_eq!(Query::Agent(true).to_string(), "QAgent:1");
    assert_eq!(Query::Agent(false).to_string(), "QAgent:0");
    assert_eq!(
        Query::Allow { op: AllowOperation::InsertFastTrace, val: true }.to_string(),
        "QAllow:InsertFastTrace:1"
    );
    assert_eq!(
        Query::Allow { op: AllowOperation::WriteMem, val: false }.to_string(),
        "QAllow:WriteMem:0"
    );
    assert_eq!(Query::CurrentThreadID.to_string(), "qC");
    assert_eq!(
        Query::ComputeCRC { addr: Address::Address32(0xff), length: 16 }.to_string(),
        "qCRC:FF,16"
    );
    assert_eq!(AllowOperation::Stop.to_string(), "Stop");
}

#[test]
fn condition_lists_concatenate() {
    assert_eq!(conds().0[0].to_string(), "X2,AB01");
    assert_eq!(conds().to_string(), "X2,AB01X1,FF");
    assert_eq!(ConditionExpressionList(vec![]).to_string(), "");
}

#[test]
fn software_and_hardware_breakpoints() {
    let kind = || BreakpointKind::ARM(ARMBreakpointKind::Thumb16Bit);
    assert_eq!(
        Command::RemoveSoftwareBreakpoint { addr: Address::Address32(0x40), kind: kind() }
            .to_string(),
        "z0,40,2"
    );
    assert_eq!(
        Command::InsertSoftwareBreakpoint {
            addr: Address::Address32(0x40),
            kind: kind(),
            cond_list: None,
            persist: 1,
            cmd_list: Some(conds())
        }
        .to_string(),
        "Z0,40,2;cmds:1,X2,AB01X1,FF"
    );
    assert_eq!(
        Command::InsertSoftwareBreakpoint {
            addr: Address::Address32(64),
            kind: BreakpointKind::ARM(ARMBreakpointKind::ARM32Bit),
            cond_list: None,
            persist: 1,
            cmd_list: Some(ConditionExpressionList(vec![ConditionExpression {
                len: 1,
                expr: vec![0xab]
            }]))
        }
        .to_string(),
        "Z0,40,4;cmds:1,X1,AB"
    );
    assert_eq!(
        Command::InsertHardwareBreakpoint {
            addr: Address::Address32(0x40),
            kind: kind(),
            cond_list: None,
            persist: 0,
            cmd_list: None
        }
        .to_string(),
        "Z1,40,2"
    );
    assert_eq!(
        Command::InsertSoftwareBreakpoint {
            addr: Address::Address32(0x40),
            kind: kind(),
            cond_list: Some(conds()),
            persist: 1,
            cmd_list: None
        }
        .to_string(),
        "Z0,40,2;X2,AB01X1,FF"
    );
    assert_eq!(
        Command::InsertHardwareBreakpoint {
            addr: Address::Address32(0x40),
            kind: BreakpointKind::MIPS(MIPSBreakpointKind::MicroMIPS32Bit),
            cond_list: Some(conds()),
            persist: 7,
            cmd_list: Some(ConditionExpressionList(vec![ConditionExpression {
                len: 1,
                expr: vec![0x0c]
            }]))
        }
        .to_string(),
        "Z1,40,5;X2,AB01X1,FF;cmds:7,X1,0C"
    );
    assert_eq!(
        Command::RemoveHardwareBreakpoint { addr: Address::Address32(1), kind: kind() }
            .to_string(),
        "z1,1,2"
    );
}

#[test]
fn watchpoints() {
    let k = || BreakpointKind::MIPS(MIPSBreakpointKind::MIPS16);
    let a = || Address::Address64(0xabc);
    assert_eq!(Command::RemoveWriteWatchpoint { addr: a(), kind: k() }.to_string(), "z2,ABC,2");
    assert_eq!(Command::InsertWriteWatchpoint { addr: a(), kind: k() }.to_string(), "Z2,ABC,2");
    assert_eq!(Command::RemoveReadWatchpoint { addr: a(), kind: k() }.to_string(), "z3,ABC,2");
    assert_eq!(Command::InsertReadWatchpoint { addr: a(), kind: k() }.to_string(), "Z3,ABC,2");
    assert_eq!(Command::RemoveAccessWatchpoint { addr: a(), kind: k() }.to_string(), "z4,ABC,2");
    assert_eq!(Command::InsertAccessWatchpoint { addr: a(), kind: k() }.to_string(), "Z4,ABC,2");
}

#[test]
fn arguments_are_numbered_and_concatenated() {
    assert_eq!(Command::Arguments { args: vec![] }.to_string(), "A");
    assert_eq!(
        Command::Arguments {
            args: vec![Argument(vec![0x61]), Argument(vec![0x62, 0x63])]
        }
        .to_string(),
        "A1,0,612,1,6263"
    );
}

#[test]
fn cycle_step_without_address() {
    assert_eq!(
        Command::SingleCycleStep { addr: None, cycles: Some(12) }.to_string(),
        "i,12"
    );
}

#[test]
fn register_numbers_are_upper_hex() {
    assert_eq!(Command::ReadRegister { register: 0xab }.to_string(), "pAB");
    assert_eq!(
        Command::WriteRegister { register: 10, value: BinaryData(vec![0xca, 0xfe]) }.to_string(),
        "PA=cafe"
    );
    assert_eq!(Command::Restart(0x0f).to_string(), "R0f");
    assert_eq!(Command::Detach { pid: Some(0xab) }.to_string(), "DAB");
}

#[test]
fn simple_pieces() {
    assert_eq!(BreakpointMode::SetBreak.to_string(), "S");
    assert_eq!(Signal::Stopped.to_string(), "00");
    assert_eq!(ThreadOperation::Other.to_string(), "g");
    assert_eq!(BinaryData(vec![0x0a, 0xb0]).to_string(), "0ab0");
    assert_eq!(Argument(vec![]).to_string(), "");
    assert_eq!(BreakpointKind::ARM(ARMBreakpointKind::Thumb32Bit).to_string(), "3");
    assert_eq!(ARMBreakpointKind::ARM32Bit.value(), 4);
    assert_eq!(MIPSBreakpointKind::StandardMIPS32Bit.value(), 4);
    assert_eq!(
        Command::SetThread { op: ThreadOperation::Other, thread_id: ThreadID(0) }.to_string(),
        "Hg0"
    );
    assert_eq!(
        Command::SearchBackwards { addr: Address::Address32(0x123), pattern: 0xab, mask: 0xff }
            .to_string(),
        "t123:ab,ff"
    );
}

fn name_of(text: &str) -> &str {
    match text.find(|c| c == ';' || c == '?') {
        Some(i) => &text[..i],
        None => text,
    }
}

#[test]
fn named_packets_carry_their_names() {
    let cases = vec![
        (NamedPacket::Attach { pid: 3 }, "vAttach"),
        (NamedPacket::QueryContinueActions, "vCont"),
        (NamedPacket::Continue { action: Some(ContinueAction::Step), thread_id: None }, "vCont"),
        (NamedPacket::CtrlC, "vCtrlC"),
        (NamedPacket::Kill { pid: 255 }, "vKill"),
        (NamedPacket::Run { filename: "prog".to_string(), argument: None }, "vRun"),
        (NamedPacket::Stopped, "vStopped"),
    ];
    for (packet, name) in cases {
        assert_eq!(name_of(&packet.to_string()), name);
    }
}
