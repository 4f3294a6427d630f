//! Packets of the GDB remote serial protocol and their textual encoding.
//!
//! see: https://sourceware.org/gdb/current/onlinedocs/gdb.html/Packets.html

use vstd::prelude::*;

use crate::query::Query;
use crate::text::{
    byte_hex, dec_text, hex_bytes, hex_pairs_value, hex_text, hex_value, is_hex_digit,
    lemma_hex_bytes_roundtrip, lemma_hex_text_roundtrip, push_byte_hex, push_dec, push_hex,
    push_hex_bytes, push_str,
};
use vstd::utf8::{decode_utf8, encode_utf8, encode_utf8_decode_utf8};

verus! {

/// see: https://sourceware.org/gdb/current/onlinedocs/gdb.html/Standard-Replies.html#Standard-Replies
pub enum StandardReply<'a> {
    /// An empty response.
    Empty,
    /// An error with a two-digit hexadecimal error number.
    Error(u8),
    /// An error with an error message in ASCII.
    ErrorText(&'a str),
}

/// A packet that can be sent to a remote target.
pub trait Packet {
    /// The text of the packet.
    spec fn rendering(&self) -> Seq<char>;

    /// Encodes the packet as text.
    fn to_string(&self) -> (s: String)
        ensures
            s@ == self.rendering(),
    ;
}

/// Several packets and replies include a thread-id field to identify a thread.
///
/// Normally these are positive numbers with a target-specific interpretation,
/// formatted as big-endian hex strings. A thread-id can also be a literal ‘-1’
/// to indicate all threads, or ‘0’ to pick any thread.
pub struct ThreadID(pub i32);

impl ThreadID {
    /// `-1` for all threads, `0` for any thread, otherwise upper-case hex
    /// (two's complement for other negative numbers).
    pub open spec fn rendering(&self) -> Seq<char> {
        if self.0 == -1 {
            "-1"@
        } else if self.0 == 0 {
            "0"@
        } else {
            hex_text((self.0 as u32) as nat, true)
        }
    }

    pub(crate) fn write_to(&self, s: &mut String)
        ensures
            final(s)@ == old(s)@ + self.rendering(),
    {
        if self.0 == -1 {
            push_str(s, "-1");
        } else if self.0 == 0 {
            push_str(s, "0");
        } else {
            let bits = self.0 as u32;
            push_hex(s, bits as u64, true);
        }
    }

    /// Encodes the thread-id as text.
    pub fn to_string(&self) -> (s: String)
        ensures
            s@ == self.rendering(),
    {
        let mut s = String::new();
        self.write_to(&mut s);
        s
    }
}

/// A memory address on the target.
pub enum Address {
    Address32(u32),
    Address64(u64),
}

impl Address {
    /// The numeric value of the address.
    pub open spec fn value(&self) -> nat {
        match self {
            Address::Address32(a) => *a as nat,
            Address::Address64(a) => *a as nat,
        }
    }

    /// Upper-case hexadecimal without leading zeros.
    pub open spec fn rendering(&self) -> Seq<char> {
        hex_text(self.value(), true)
    }

    pub(crate) fn write_to(&self, s: &mut String)
        ensures
            final(s)@ == old(s)@ + self.rendering(),
    {
        match self {
            Address::Address32(a) => push_hex(s, *a as u64, true),
            Address::Address64(a) => push_hex(s, *a, true),
        }
    }

    /// Encodes the address as text.
    pub fn to_string(&self) -> (s: String)
        ensures
            s@ == self.rendering(),
    {
        let mut s = String::new();
        self.write_to(&mut s);
        s
    }
}

/// The server must ignore ‘c’, ‘C’, ‘s’, ‘S’, and ‘r’ actions for threads that are already running. Conversely, the server must ignore ‘t’ actions for threads that are already stopped.
///
/// Note: In non-stop mode, a thread is considered running until GDB acknowledges an asynchronous stop notification for it with the ‘vStopped’ packet (see Remote Non-Stop).
///
/// The stub must support ‘vCont’ if it reports support for multiprocess extensions (see multiprocess extensions).
///
/// Reply: See Stop Reply Packets, for the reply specifications.
pub enum ContinueAction {
    /// Continue.
    Continue,
    /// Continue with signal sig. The signal sig should be two hex digits.
    ContinueSignal(u8),
    ///Step.
    Step,
    /// Step with signal sig. The signal sig should be two hex digits.
    StepSignal(u8),
    /// Stop.
    ///
    /// The ‘t’ action is only relevant in non-stop mode (see Remote Non-Stop)
    /// and may be ignored by the stub otherwise.
    Stop,
    /// Step once, and then keep stepping as long as the thread stops
    /// at addresses between start (inclusive) and end (exclusive).
    ///
    /// If the range is empty (start == end), then the action becomes
    /// equivalent to the ‘s’ action.
    StepRange { start: Address, end: Address },
}

impl ContinueAction {
    /// The action as it appears in a ‘vCont’ packet.
    pub open spec fn rendering(&self) -> Seq<char> {
        match self {
            ContinueAction::Continue => "c"@,
            ContinueAction::ContinueSignal(sig) => "C"@ + byte_hex(*sig, false),
            ContinueAction::Step => "s"@,
            ContinueAction::StepSignal(sig) => "S"@ + byte_hex(*sig, false),
            ContinueAction::Stop => "t"@,
            ContinueAction::StepRange { start, end } => "r"@ + start.rendering() + ","@
                + end.rendering(),
        }
    }

    pub(crate) fn write_to(&self, s: &mut String)
        ensures
            final(s)@ == old(s)@ + self.rendering(),
    {
        match self {
            ContinueAction::Continue => push_str(s, "c"),
            ContinueAction::ContinueSignal(sig) => {
                push_str(s, "C");
                push_byte_hex(s, *sig, false);
            },
            ContinueAction::Step => push_str(s, "s"),
            ContinueAction::StepSignal(sig) => {
                push_str(s, "S");
                push_byte_hex(s, *sig, false);
            },
            ContinueAction::Stop => push_str(s, "t"),
            ContinueAction::StepRange { start, end } => {
                push_str(s, "r");
                start.write_to(s);
                push_str(s, ",");
                end.write_to(s);
            },
        }
    }

    /// Encodes the action as text.
    pub fn format(&self) -> (s: String)
        ensures
            s@ == self.rendering(),
    {
        let mut s = String::new();
        self.write_to(&mut s);
        s
    }
}

/// Packets starting with ‘v’ are identified by a multi-letter name,
/// up to the first ‘;’ or ‘?’ (or the end of the packet).
pub enum NamedPacket {
    /// Attach to a new process with the specified process ID pid.
    ///
    /// The process ID is a hexadecimal integer identifying the process.
    ///
    /// This packet is only available in extended mode (see extended mode).
    Attach { pid: u8 },
    /// ‘vCont[;action[:thread-id]]…’
    Continue { action: Option<ContinueAction>, thread_id: Option<ThreadID> },
    /// Request a list of actions supported by the ‘vCont’ packet.
    QueryContinueActions,
    /// Interrupt remote target as if a control-C was pressed on the remote terminal.
    CtrlC,
    /// Direct the stub to erase length bytes of flash starting at addr.
    FlashErase { addr: Address, length: u32 },
    /// Direct the stub to write data to flash address addr. The data is passed
    /// in binary form using the same encoding as for the ‘X’ packet.
    FlashWrite { addr: Address, data: BinaryData },
    /// Indicate to the stub that flash programming operation is finished.
    FlashDone,
    /// Kill the process with the specified process ID pid.
    Kill { pid: u8 },
    /// Feature test of how the stub handles unknown ‘v’ packets.
    MustReplyEmpty,
    /// Run the program filename, passing it each argument on its command line. The file and
    /// arguments are hex-encoded strings.
    Run { filename: String, argument: Option<String> },
    /// See Notification Packets.
    Stopped,
}

impl Packet for NamedPacket {
    open spec fn rendering(&self) -> Seq<char> {
        match self {
            NamedPacket::Attach { pid } => "vAttach;"@ + hex_text(*pid as nat, false),
            NamedPacket::Continue { action, thread_id } => match action {
                Some(action) => match thread_id {
                    Some(thread_id) => "vCont;"@ + action.rendering() + ":"@
                        + thread_id.rendering(),
                    None => "vCont;"@ + action.rendering(),
                },
                None => "vCont"@,
            },
            NamedPacket::QueryContinueActions => "vCont?"@,
            NamedPacket::CtrlC => "vCtrlC"@,
            NamedPacket::FlashErase { addr, length } => "vFlashErase;"@ + addr.rendering() + ","@
                + dec_text(*length as nat),
            NamedPacket::FlashWrite { addr, data } => "vFlashWrite;"@ + addr.rendering() + ","@
                + data.rendering(),
            NamedPacket::FlashDone => "vFlashDone"@,
            NamedPacket::Kill { pid } => "vKill;"@ + hex_text(*pid as nat, false),
            NamedPacket::MustReplyEmpty => "vMustReplyEmpty"@,
            NamedPacket::Run { filename, argument } => match argument {
                Some(argument) => "vRun;"@ + hex_bytes(encode_utf8(filename@), false) + ";"@
                    + hex_bytes(encode_utf8(argument@), false),
                None => "vRun;"@ + hex_bytes(encode_utf8(filename@), false),
            },
            NamedPacket::Stopped => "vStopped"@,
        }
    }

    fn to_string(&self) -> (s: String) {
        let mut s = String::new();
        match self {
            NamedPacket::Attach { pid } => {
                push_str(&mut s, "vAttach;");
                push_hex(&mut s, *pid as u64, false);
            },
            NamedPacket::Continue { action, thread_id } => {
                match action {
                    Some(action) => {
                        push_str(&mut s, "vCont;");
                        action.write_to(&mut s);
                        match thread_id {
                            Some(thread_id) => {
                                push_str(&mut s, ":");
                                thread_id.write_to(&mut s);
                            },
                            None => {},
                        }
                    },
                    None => push_str(&mut s, "vCont"),
                }
            },
            NamedPacket::QueryContinueActions => push_str(&mut s, "vCont?"),
            NamedPacket::CtrlC => push_str(&mut s, "vCtrlC"),
            NamedPacket::FlashErase { addr, length } => {
                push_str(&mut s, "vFlashErase;");
                addr.write_to(&mut s);
                push_str(&mut s, ",");
                push_dec(&mut s, *length as u64);
            },
            NamedPacket::FlashWrite { addr, data } => {
                push_str(&mut s, "vFlashWrite;");
                addr.write_to(&mut s);
                push_str(&mut s, ",");
                data.write_to(&mut s);
            },
            NamedPacket::FlashDone => push_str(&mut s, "vFlashDone"),
            NamedPacket::Kill { pid } => {
                push_str(&mut s, "vKill;");
                push_hex(&mut s, *pid as u64, false);
            },
            NamedPacket::MustReplyEmpty => push_str(&mut s, "vMustReplyEmpty"),
            NamedPacket::Run { filename, argument } => {
                push_str(&mut s, "vRun;");
                push_hex_bytes(&mut s, filename.as_str().as_bytes(), false);
                match argument {
                    Some(argument) => {
                        push_str(&mut s, ";");
                        push_hex_bytes(&mut s, argument.as_str().as_bytes(), false);
                    },
                    None => {},
                }
            },
            NamedPacket::Stopped => push_str(&mut s, "vStopped"),
        }
        s
    }
}

/// The cond_list parameter is comprised of a series of expressions, concatenated
/// without separators. Each expression has the following form:
///
/// 'X len,expr'
///
/// len is the length of the bytecode expression.
/// expr is the actual conditional expression in bytecode form.
pub struct ConditionExpression {
    pub len: u32,
    pub expr: Vec<u8>,
}

impl ConditionExpression {
    /// ‘X len,expr’ with the bytecode as upper-case hex digit pairs.
    pub open spec fn rendering(&self) -> Seq<char> {
        "X"@ + dec_text(self.len as nat) + ","@ + hex_bytes(self.expr@, true)
    }

    pub(crate) fn write_to(&self, s: &mut String)
        ensures
            final(s)@ == old(s)@ + self.rendering(),
    {
        push_str(s, "X");
        push_dec(s, self.len as u64);
        push_str(s, ",");
        push_hex_bytes(s, self.expr.as_slice(), true);
    }

    /// Encodes the expression as text.
    pub fn to_string(&self) -> (s: String)
        ensures
            s@ == self.rendering(),
    {
        let mut s = String::new();
        self.write_to(&mut s);
        s
    }
}

/// The texts of a series of expressions, concatenated without separators.
pub open spec fn conditions_rendering(exprs: Seq<ConditionExpression>) -> Seq<char>
    decreases exprs.len(),
{
    if exprs.len() == 0 {
        Seq::empty()
    } else {
        conditions_rendering(exprs.drop_last()) + exprs.last().rendering()
    }
}

/// A series of condition expressions, concatenated without separators.
pub struct ConditionExpressionList(pub Vec<ConditionExpression>);

impl ConditionExpressionList {
    /// The expressions' texts, one after the other.
    pub open spec fn rendering(&self) -> Seq<char> {
        conditions_rendering(self.0@)
    }

    pub(crate) fn write_to(&self, s: &mut String)
        ensures
            final(s)@ == old(s)@ + self.rendering(),
    {
        let ghost start = s@;
        let mut i: usize = 0;
        while i < self.0.len()
            invariant
                i <= self.0.len(),
                s@ == start + conditions_rendering(self.0@.take(i as int)),
            decreases self.0.len() - i,
        {
            proof {
                assert(self.0@.take(i + 1).drop_last() =~= self.0@.take(i as int));
            }
            self.0[i].write_to(s);
            i += 1;
        }
        assert(self.0@.take(i as int) =~= self.0@);
    }

    /// Encodes the list as text.
    pub fn to_string(&self) -> (s: String)
        ensures
            s@ == self.rendering(),
    {
        let mut s = String::new();
        self.write_to(&mut s);
        s
    }
}

/// These breakpoint kinds are defined for the ‘Z0’ and ‘Z1’ packets.
///
/// see: https://sourceware.org/gdb/current/onlinedocs/gdb.html/ARM-Breakpoint-Kinds.html#ARM-Breakpoint-Kinds
#[derive(Clone, Copy, PartialEq, Eq, Structural, Debug)]
pub enum ARMBreakpointKind {
    /// 16-bit Thumb mode breakpoint.
    Thumb16Bit,
    /// 32-bit Thumb mode (Thumb-2) breakpoint.
    Thumb32Bit,
    /// 32-bit ARM mode breakpoint.
    ARM32Bit,
}

impl ARMBreakpointKind {
    /// The kind number: 2, 3 and 4.
    pub open spec fn spec_value(&self) -> u8 {
        match self {
            ARMBreakpointKind::Thumb16Bit => 2,
            ARMBreakpointKind::Thumb32Bit => 3,
            ARMBreakpointKind::ARM32Bit => 4,
        }
    }

    /// The kind number as sent to the target.
    #[verifier::when_used_as_spec(spec_value)]
    pub fn value(&self) -> (v: u8)
        ensures
            v == self.spec_value(),
    {
        match self {
            ARMBreakpointKind::Thumb16Bit => 2,
            ARMBreakpointKind::Thumb32Bit => 3,
            ARMBreakpointKind::ARM32Bit => 4,
        }
    }
}

/// These breakpoint kinds are defined for the ‘Z0’ and ‘Z1’ packets.
///
/// see: https://sourceware.org/gdb/current/onlinedocs/gdb.html/MIPS-Breakpoint-Kinds.html#MIPS-Breakpoint-Kinds
#[derive(Clone, Copy, PartialEq, Eq, Structural, Debug)]
pub enum MIPSBreakpointKind {
    MIPS16,
    MicroMIPS16Bit,
    StandardMIPS32Bit,
    MicroMIPS32Bit,
}

impl MIPSBreakpointKind {
    /// The kind number: 2, 3, 4 and 5.
    pub open spec fn spec_value(&self) -> u8 {
        match self {
            MIPSBreakpointKind::MIPS16 => 2,
            MIPSBreakpointKind::MicroMIPS16Bit => 3,
            MIPSBreakpointKind::StandardMIPS32Bit => 4,
            MIPSBreakpointKind::MicroMIPS32Bit => 5,
        }
    }

    /// The kind number as sent to the target.
    #[verifier::when_used_as_spec(spec_value)]
    pub fn value(&self) -> (v: u8)
        ensures
            v == self.spec_value(),
    {
        match self {
            MIPSBreakpointKind::MIPS16 => 2,
            MIPSBreakpointKind::MicroMIPS16Bit => 3,
            MIPSBreakpointKind::StandardMIPS32Bit => 4,
            MIPSBreakpointKind::MicroMIPS32Bit => 5,
        }
    }
}

/// An architecture-specific breakpoint kind.
pub enum BreakpointKind {
    ARM(ARMBreakpointKind),
    MIPS(MIPSBreakpointKind),
}

impl BreakpointKind {
    /// The kind number.
    pub open spec fn value(&self) -> u8 {
        match self {
            BreakpointKind::ARM(kind) => kind.spec_value(),
            BreakpointKind::MIPS(kind) => kind.spec_value(),
        }
    }

    /// The kind number in decimal.
    pub open spec fn rendering(&self) -> Seq<char> {
        dec_text(self.value() as nat)
    }

    pub(crate) fn write_to(&self, s: &mut String)
        ensures
            final(s)@ == old(s)@ + self.rendering(),
    {
        let v = match self {
            BreakpointKind::ARM(kind) => kind.value(),
            BreakpointKind::MIPS(kind) => kind.value(),
        };
        push_dec(s, v as u64);
    }

    /// Encodes the kind as text.
    pub fn to_string(&self) -> (s: String)
        ensures
            s@ == self.rendering(),
    {
        let mut s = String::new();
        self.write_to(&mut s);
        s
    }
}

/// Binary data in most packets is encoded as two hexadecimal digits per
/// byte of binary data. This allowed the traditional remote protocol
/// to work over connections which were only seven-bit clean.
pub struct BinaryData(pub Vec<u8>);

impl BinaryData {
    /// Two lower-case hexadecimal digits per byte.
    pub open spec fn rendering(&self) -> Seq<char> {
        hex_bytes(self.0@, false)
    }

    pub(crate) fn write_to(&self, s: &mut String)
        ensures
            final(s)@ == old(s)@ + self.rendering(),
    {
        push_hex_bytes(s, self.0.as_slice(), false);
    }

    /// Encodes the data as text.
    pub fn to_string(&self) -> (s: String)
        ensures
            s@ == self.rendering(),
    {
        let mut s = String::new();
        self.write_to(&mut s);
        s
    }
}

/// An argument of the program, as raw bytes.
pub struct Argument(pub Vec<u8>);

impl Argument {
    /// Two lower-case hexadecimal digits per byte.
    pub open spec fn rendering(&self) -> Seq<char> {
        hex_bytes(self.0@, false)
    }

    pub(crate) fn write_to(&self, s: &mut String)
        ensures
            final(s)@ == old(s)@ + self.rendering(),
    {
        push_hex_bytes(s, self.0.as_slice(), false);
    }

    /// Encodes the argument as text.
    pub fn to_string(&self) -> (s: String)
        ensures
            s@ == self.rendering(),
    {
        let mut s = String::new();
        self.write_to(&mut s);
        s
    }
}

/// Whether a ‘B’ packet sets or clears a breakpoint.
#[derive(Clone, Copy, PartialEq, Eq, Structural, Debug)]
pub enum BreakpointMode {
    SetBreak,
    Clear,
}

impl BreakpointMode {
    /// ‘S’ or ‘C’.
    pub open spec fn rendering(&self) -> Seq<char> {
        match self {
            BreakpointMode::SetBreak => "S"@,
            BreakpointMode::Clear => "C"@,
        }
    }

    /// Encodes the mode as text.
    pub fn to_string(&self) -> (s: String)
        ensures
            s@ == self.rendering(),
    {
        match self {
            BreakpointMode::SetBreak => String::from_str("S"),
            BreakpointMode::Clear => String::from_str("C"),
        }
    }
}

/// A signal number.
#[derive(Clone, Copy, PartialEq, Eq, Structural, Debug)]
pub enum Signal {
    Stopped,
}

impl Signal {
    /// The signal number.
    pub open spec fn spec_value(&self) -> u8 {
        match self {
            Signal::Stopped => 0,
        }
    }

    /// The signal number.
    #[verifier::when_used_as_spec(spec_value)]
    pub fn value(&self) -> (v: u8)
        ensures
            v == self.spec_value(),
    {
        match self {
            Signal::Stopped => 0,
        }
    }

    /// Two upper-case hexadecimal digits.
    pub open spec fn rendering(&self) -> Seq<char> {
        byte_hex(self.spec_value(), true)
    }

    pub(crate) fn write_to(&self, s: &mut String)
        ensures
            final(s)@ == old(s)@ + self.rendering(),
    {
        push_byte_hex(s, self.value(), true);
    }

    /// Encodes the signal as text.
    pub fn to_string(&self) -> (s: String)
        ensures
            s@ == self.rendering(),
    {
        let mut s = String::new();
        self.write_to(&mut s);
        s
    }
}

/// A process id.
pub type Pid = u8;

/// Depending on the operation to be performed, op should be ‘c’ for
///  step and continue operations (note that this is deprecated, supporting
///  the ‘vCont’ command is a better option), and ‘g’ for other operations.
#[derive(Clone, Copy, PartialEq, Eq, Structural, Debug)]
pub enum ThreadOperation {
    StepAndContinue,
    Other,
}

impl ThreadOperation {
    /// ‘c’ or ‘g’.
    pub open spec fn rendering(&self) -> Seq<char> {
        match self {
            ThreadOperation::StepAndContinue => "c"@,
            ThreadOperation::Other => "g"@,
        }
    }

    pub(crate) fn write_to(&self, s: &mut String)
        ensures
            final(s)@ == old(s)@ + self.rendering(),
    {
        match self {
            ThreadOperation::StepAndContinue => push_str(s, "c"),
            ThreadOperation::Other => push_str(s, "g"),
        }
    }

    /// Encodes the operation as text.
    pub fn to_string(&self) -> (s: String)
        ensures
            s@ == self.rendering(),
    {
        let mut s = String::new();
        self.write_to(&mut s);
        s
    }
}

/// The body of an ‘A’ packet: for each argument, its byte length, its
/// position and its hex-encoded bytes, separated by commas; the entries follow
/// one another without a separator.
pub open spec fn arguments_rendering(args: Seq<Argument>) -> Seq<char>
    decreases args.len(),
{
    if args.len() == 0 {
        Seq::empty()
    } else {
        let last = args.last();
        arguments_rendering(args.drop_last()) + dec_text(last.0@.len()) + ","@ + dec_text(
            (args.len() - 1) as nat,
        ) + ","@ + last.rendering()
    }
}

/// The tail shared by the ‘Z0’ and ‘Z1’ packets: ‘;cond_list’ where the
/// condition list is present, then ‘;cmds:persist,cmd_list’ where the command
/// list is present; each list is optional on its own.
pub open spec fn breakpoint_lists_rendering(
    cond_list: Option<ConditionExpressionList>,
    persist: u8,
    cmd_list: Option<ConditionExpressionList>,
) -> Seq<char> {
    (match cond_list {
        Some(cond_list) => ";"@ + cond_list.rendering(),
        None => Seq::empty(),
    }) + (match cmd_list {
        Some(cmd_list) => ";cmds:"@ + dec_text(persist as nat) + ","@ + cmd_list.rendering(),
        None => Seq::empty(),
    })
}

/// An address and a kind, as in ‘z0,addr,kind’.
pub open spec fn point_rendering(head: Seq<char>, addr: Address, kind: BreakpointKind) -> Seq<char> {
    head + addr.rendering() + ","@ + kind.rendering()
}

/// A command packet of the remote serial protocol.
#[allow(inconsistent_fields)]
pub enum Command {
    /// Enable extended mode. In extended mode, the remote server is made persistent.
    ///
    /// The ‘R’ packet is used to restart the program being debugged.
    EnableExtendedMode,
    /// This is sent when connection is first established to query the reason the target halted.
    Query,
    /// Initialized argv[] array passed into program.
    Arguments { args: Vec<Argument> },
    /// Change the serial line speed to baud.
    Baud(u32),
    /// Set (mode is ‘S’) or clear (mode is ‘C’) a breakpoint at addr.
    Breakpoint { addr: Address, mode: BreakpointMode },
    /// Execute the target system in reverse.
    BackwardContinue,
    /// Execute one instruction in reverse.
    BackwardSingleStep,
    /// Continue at addr, which is the address to resume.
    Continue { addr: Option<Address> },
    /// Continue with signal sig (hex signal number). If ‘;addr’ is omitted, resume at same address.
    ContinueWithSignal { sig: Signal, addr: Option<Address> },
    /// Toggle debug flag.
    ToggleDebug,
    /// Used to detach GDB from the remote system.
    Detach { pid: Option<Pid> },
    /// Read general registers.
    ReadGeneralRegisters,
    /// Write general registers.
    WriteGeneralRegisters(BinaryData),
    /// Set thread for subsequent operations (‘m’, ‘M’, ‘g’, ‘G’, et.al.).
    SetThread { op: ThreadOperation, thread_id: ThreadID },
    /// Step the remote target by a single clock cycle.
    ///
    /// If ‘,nnn’ is present, cycle step nnn cycles.
    /// If addr is present, cycle step starting at that address.
    SingleCycleStep { addr: Option<Address>, cycles: Option<u8> },
    /// Signal, then cycle step.
    SignalCycleStep,
    /// Kill request.
    Kill,
    /// Read length addressable memory units starting at address addr.
    ReadMemory { addr: Address, length: u8 },
    /// Write length addressable memory units starting at address addr.
    WriteMemory { addr: Address, length: u8, data: BinaryData },
    /// Read the value of register n; n is in hex.
    ReadRegister { register: u8 },
    /// Write register n… with value r….
    WriteRegister { register: u8, value: BinaryData },
    /// General query (‘q’) and set (‘Q’).
    GeneralQuery(Query),
    /// Reset the entire system.
    Reset,
    /// Restart the program being debugged.
    Restart(u8),
    /// Single step, resuming at addr. If addr is omitted, resume at same address.
    SingleStep { addr: Option<Address> },
    /// Step with signal.
    StepWithSignal { signal: Signal, addr: Option<Address> },
    /// Search backwards starting at address addr for a match with pattern PP and mask MM.
    SearchBackwards { addr: Address, pattern: u32, mask: u32 },
    /// Find out if the thread thread-id is alive.
    ThreadAlive { thread: ThreadID },
    /// Packets starting with ‘v’ are identified by a multi-letter name.
    Named(NamedPacket),
    /// Read length addressable memory units starting at address addr.
    ReadAddressableMemory { addr: Address, length: u32 },
    /// Write data to memory, where the data is transmitted in binary.
    WriteAddressableMemory { addr: Address, length: u32, data: BinaryData },
    /// ‘z type,addr,kind’
    RemoveBreakpoint { breakpoint_type: u8, addr: Address, breakpoint_kind: BreakpointKind },
    /// ‘Z type,addr,kind’
    InsertBreakpoint { breakpoint_type: u8, addr: Address, breakpoint_kind: BreakpointKind },
    /// Remove (‘z0’) a software breakpoint at address addr of type kind.
    RemoveSoftwareBreakpoint { addr: Address, kind: BreakpointKind },
    /// Insert (‘Z0’) a software breakpoint at address addr of type kind.
    InsertSoftwareBreakpoint {
        addr: Address,
        kind: BreakpointKind,
        cond_list: Option<ConditionExpressionList>,
        /// If the flag is nonzero, then the breakpoint may remain active and the
        /// commands continue to be run even when GDB disconnects from the target.
        persist: u8,
        /// The optional cmd_list parameter introduces commands that may be run
        /// on the target, rather than being reported back to GDB.
        cmd_list: Option<ConditionExpressionList>,
    },
    /// Remove (‘z1’) a hardware breakpoint at address addr.
    RemoveHardwareBreakpoint { addr: Address, kind: BreakpointKind },
    /// Insert (‘Z1’) a hardware breakpoint at address addr.
    InsertHardwareBreakpoint {
        addr: Address,
        kind: BreakpointKind,
        cond_list: Option<ConditionExpressionList>,
        persist: u8,
        cmd_list: Option<ConditionExpressionList>,
    },
    /// Remove (‘z2’) a write watchpoint at addr.
    RemoveWriteWatchpoint { addr: Address, kind: BreakpointKind },
    /// Insert (‘Z2’) a write watchpoint at addr.
    InsertWriteWatchpoint { addr: Address, kind: BreakpointKind },
    /// Remove (‘z3’) a read watchpoint at addr.
    RemoveReadWatchpoint { addr: Address, kind: BreakpointKind },
    /// Insert (‘Z3’) a read watchpoint at addr.
    InsertReadWatchpoint { addr: Address, kind: BreakpointKind },
    /// Remove (‘z4’) an access watchpoint at addr.
    RemoveAccessWatchpoint { addr: Address, kind: BreakpointKind },
    /// Insert (‘Z4’) an access watchpoint at addr.
    InsertAccessWatchpoint { addr: Address, kind: BreakpointKind },
}

/// Appends an optional condition list and command list, as in ‘Z0’ and ‘Z1’.
fn write_breakpoint_lists(
    s: &mut String,
    cond_list: &Option<ConditionExpressionList>,
    persist: u8,
    cmd_list: &Option<ConditionExpressionList>,
)
    ensures
        final(s)@ == old(s)@ + breakpoint_lists_rendering(*cond_list, persist, *cmd_list),
{
    let ghost start = s@;
    match cond_list {
        Some(cond_list) => {
            push_str(s, ";");
            cond_list.write_to(s);
        },
        None => {},
    }
    let ghost middle = s@;
    match cmd_list {
        Some(cmd_list) => {
            push_str(s, ";cmds:");
            push_dec(s, persist as u64);
            push_str(s, ",");
            cmd_list.write_to(s);
        },
        None => {},
    }
    assert(s@ =~= start + breakpoint_lists_rendering(*cond_list, persist, *cmd_list));
}

/// Appends ‘head addr,kind’.
fn write_point(s: &mut String, head: &str, addr: &Address, kind: &BreakpointKind)
    ensures
        final(s)@ == old(s)@ + point_rendering(head@, *addr, *kind),
{
    push_str(s, head);
    addr.write_to(s);
    push_str(s, ",");
    kind.write_to(s);
}

impl Packet for Command {
    open spec fn rendering(&self) -> Seq<char> {
        match self {
            Command::EnableExtendedMode => "!"@,
            Command::Query => "?"@,
            Command::Arguments { args } => "A"@ + arguments_rendering(args@),
            Command::Baud(baud) => "b"@ + dec_text(*baud as nat),
            Command::Breakpoint { addr, mode } => "B"@ + addr.rendering() + ","@ + mode.rendering(),
            Command::BackwardContinue => "bc"@,
            Command::BackwardSingleStep => "bs"@,
            Command::Continue { addr } => "c"@ + match addr {
                Some(addr) => addr.rendering(),
                None => Address::Address32(0).rendering(),
            },
            Command::ContinueWithSignal { sig, addr } => match addr {
                Some(addr) => "C"@ + sig.rendering() + ";"@ + addr.rendering(),
                None => "C"@ + sig.rendering(),
            },
            Command::ToggleDebug => "d"@,
            Command::Detach { pid } => match pid {
                Some(pid) => "D"@ + byte_hex(*pid, true),
                None => "D"@,
            },
            Command::ReadGeneralRegisters => "g"@,
            Command::WriteGeneralRegisters(registers) => "G"@ + registers.rendering(),
            Command::SetThread { op, thread_id } => "H"@ + op.rendering() + thread_id.rendering(),
            Command::SingleCycleStep { addr, cycles } => match addr {
                Some(addr) => match cycles {
                    Some(cycles) => "i"@ + addr.rendering() + ","@ + dec_text(*cycles as nat),
                    None => "i"@ + addr.rendering(),
                },
                None => match cycles {
                    Some(cycles) => "i,"@ + dec_text(*cycles as nat),
                    None => "i"@,
                },
            },
            Command::SignalCycleStep => "I"@,
            Command::Kill => "k"@,
            Command::ReadMemory { addr, length } => "m"@ + addr.rendering() + ","@ + dec_text(
                *length as nat,
            ),
            Command::WriteMemory { addr, length, data } => "M"@ + addr.rendering() + ","@
                + dec_text(*length as nat) + ":"@ + data.rendering(),
            Command::ReadRegister { register } => "p"@ + hex_text(*register as nat, true),
            Command::WriteRegister { register, value } => "P"@ + hex_text(*register as nat, true)
                + "="@ + value.rendering(),
            Command::GeneralQuery(q) => q.rendering(),
            Command::Reset => "r"@,
            Command::Restart(arg) => "R"@ + byte_hex(*arg, false),
            Command::SingleStep { addr } => match addr {
                Some(addr) => "s"@ + addr.rendering(),
                None => "s"@,
            },
            Command::StepWithSignal { signal, addr } => match addr {
                Some(addr) => "S"@ + signal.rendering() + ";"@ + addr.rendering(),
                None => "S"@ + signal.rendering(),
            },
            Command::SearchBackwards { addr, pattern, mask } => "t"@ + addr.rendering() + ":"@
                + hex_text(*pattern as nat, false) + ","@ + hex_text(*mask as nat, false),
            Command::ThreadAlive { thread } => "T"@ + thread.rendering(),
            Command::Named(named) => named.rendering(),
            Command::ReadAddressableMemory { addr, length } => "x"@ + addr.rendering() + ","@
                + dec_text(*length as nat),
            Command::WriteAddressableMemory { addr, length, data } => "X"@ + addr.rendering() + ","@
                + dec_text(*length as nat) + ":"@ + data.rendering(),
            Command::RemoveBreakpoint { breakpoint_type, addr, breakpoint_kind } => "z"@ + dec_text(
                *breakpoint_type as nat,
            ) + ","@ + addr.rendering() + ","@ + breakpoint_kind.rendering(),
            Command::InsertBreakpoint { breakpoint_type, addr, breakpoint_kind } => "Z"@ + dec_text(
                *breakpoint_type as nat,
            ) + ","@ + addr.rendering() + ","@ + breakpoint_kind.rendering(),
            Command::RemoveSoftwareBreakpoint { addr, kind } => point_rendering("z0,"@, *addr, *kind),
            Command::InsertSoftwareBreakpoint { addr, kind, cond_list, persist, cmd_list } =>
                point_rendering("Z0,"@, *addr, *kind) + breakpoint_lists_rendering(
                *cond_list,
                *persist,
                *cmd_list,
            ),
            Command::RemoveHardwareBreakpoint { addr, kind } => point_rendering("z1,"@, *addr, *kind),
            Command::InsertHardwareBreakpoint { addr, kind, cond_list, persist, cmd_list } =>
                point_rendering("Z1,"@, *addr, *kind) + breakpoint_lists_rendering(
                *cond_list,
                *persist,
                *cmd_list,
            ),
            Command::RemoveWriteWatchpoint { addr, kind } => point_rendering("z2,"@, *addr, *kind),
            Command::InsertWriteWatchpoint { addr, kind } => point_rendering("Z2,"@, *addr, *kind),
            Command::RemoveReadWatchpoint { addr, kind } => point_rendering("z3,"@, *addr, *kind),
            Command::InsertReadWatchpoint { addr, kind } => point_rendering("Z3,"@, *addr, *kind),
            Command::RemoveAccessWatchpoint { addr, kind } => point_rendering("z4,"@, *addr, *kind),
            Command::InsertAccessWatchpoint { addr, kind } => point_rendering("Z4,"@, *addr, *kind),
        }
    }

    fn to_string(&self) -> (s: String) {
        let mut s = String::new();
        match self {
            Command::EnableExtendedMode => push_str(&mut s, "!"),
            Command::Query => push_str(&mut s, "?"),
            Command::Arguments { args } => {
                push_str(&mut s, "A");
                write_arguments(&mut s, args);
            },
            Command::Baud(baud) => {
                push_str(&mut s, "b");
                push_dec(&mut s, *baud as u64);
            },
            Command::Breakpoint { addr, mode } => {
                push_str(&mut s, "B");
                addr.write_to(&mut s);
                push_str(&mut s, ",");
                let m = mode.to_string();
                push_str(&mut s, m.as_str());
            },
            Command::BackwardContinue => push_str(&mut s, "bc"),
            Command::BackwardSingleStep => push_str(&mut s, "bs"),
            Command::Continue { addr } => {
                push_str(&mut s, "c");
                match addr {
                    Some(addr) => addr.write_to(&mut s),
                    None => Address::Address32(0).write_to(&mut s),
                }
            },
            Command::ContinueWithSignal { sig, addr } => {
                push_str(&mut s, "C");
                sig.write_to(&mut s);
                match addr {
                    Some(addr) => {
                        push_str(&mut s, ";");
                        addr.write_to(&mut s);
                    },
                    None => {},
                }
            },
            Command::ToggleDebug => push_str(&mut s, "d"),
            Command::Detach { pid } => {
                push_str(&mut s, "D");
                match pid {
                    Some(pid) => push_byte_hex(&mut s, *pid, true),
                    None => {},
                }
            },
            Command::ReadGeneralRegisters => push_str(&mut s, "g"),
            Command::WriteGeneralRegisters(registers) => {
                push_str(&mut s, "G");
                registers.write_to(&mut s);
            },
            Command::SetThread { op, thread_id } => {
                push_str(&mut s, "H");
                op.write_to(&mut s);
                thread_id.write_to(&mut s);
            },
            Command::SingleCycleStep { addr, cycles } => {
                match addr {
                    Some(addr) => {
                        push_str(&mut s, "i");
                        addr.write_to(&mut s);
                        match cycles {
                            Some(cycles) => {
                                push_str(&mut s, ",");
                                push_dec(&mut s, *cycles as u64);
                            },
                            None => {},
                        }
                    },
                    None => match cycles {
                        Some(cycles) => {
                            push_str(&mut s, "i,");
                            push_dec(&mut s, *cycles as u64);
                        },
                        None => push_str(&mut s, "i"),
                    },
                }
            },
            Command::SignalCycleStep => push_str(&mut s, "I"),
            Command::Kill => push_str(&mut s, "k"),
            Command::ReadMemory { addr, length } => {
                push_str(&mut s, "m");
                addr.write_to(&mut s);
                push_str(&mut s, ",");
                push_dec(&mut s, *length as u64);
            },
            Command::WriteMemory { addr, length, data } => {
                push_str(&mut s, "M");
                addr.write_to(&mut s);
                push_str(&mut s, ",");
                push_dec(&mut s, *length as u64);
                push_str(&mut s, ":");
                data.write_to(&mut s);
            },
            Command::ReadRegister { register } => {
                push_str(&mut s, "p");
                push_hex(&mut s, *register as u64, true);
            },
            Command::WriteRegister { register, value } => {
                push_str(&mut s, "P");
                push_hex(&mut s, *register as u64, true);
                push_str(&mut s, "=");
                value.write_to(&mut s);
            },
            Command::GeneralQuery(q) => q.write_to(&mut s),
            Command::Reset => push_str(&mut s, "r"),
            Command::Restart(arg) => {
                push_str(&mut s, "R");
                push_byte_hex(&mut s, *arg, false);
            },
            Command::SingleStep { addr } => {
                push_str(&mut s, "s");
                match addr {
                    Some(addr) => addr.write_to(&mut s),
                    None => {},
                }
            },
            Command::StepWithSignal { signal, addr } => {
                push_str(&mut s, "S");
                signal.write_to(&mut s);
                match addr {
                    Some(addr) => {
                        push_str(&mut s, ";");
                        addr.write_to(&mut s);
                    },
                    None => {},
                }
            },
            Command::SearchBackwards { addr, pattern, mask } => {
                push_str(&mut s, "t");
                addr.write_to(&mut s);
                push_str(&mut s, ":");
                push_hex(&mut s, *pattern as u64, false);
                push_str(&mut s, ",");
                push_hex(&mut s, *mask as u64, false);
            },
            Command::ThreadAlive { thread } => {
                push_str(&mut s, "T");
                thread.write_to(&mut s);
            },
            Command::Named(named) => {
                s = named.to_string();
            },
            Command::ReadAddressableMemory { addr, length } => {
                push_str(&mut s, "x");
                addr.write_to(&mut s);
                push_str(&mut s, ",");
                push_dec(&mut s, *length as u64);
            },
            Command::WriteAddressableMemory { addr, length, data } => {
                push_str(&mut s, "X");
                addr.write_to(&mut s);
                push_str(&mut s, ",");
                push_dec(&mut s, *length as u64);
                push_str(&mut s, ":");
                data.write_to(&mut s);
            },
            Command::RemoveBreakpoint { breakpoint_type, addr, breakpoint_kind } => {
                push_str(&mut s, "z");
                push_dec(&mut s, *breakpoint_type as u64);
                push_str(&mut s, ",");
                addr.write_to(&mut s);
                push_str(&mut s, ",");
                breakpoint_kind.write_to(&mut s);
            },
            Command::InsertBreakpoint { breakpoint_type, addr, breakpoint_kind } => {
                push_str(&mut s, "Z");
                push_dec(&mut s, *breakpoint_type as u64);
                push_str(&mut s, ",");
                addr.write_to(&mut s);
                push_str(&mut s, ",");
                breakpoint_kind.write_to(&mut s);
            },
            Command::RemoveSoftwareBreakpoint { addr, kind } => write_point(&mut s, "z0,", addr, kind),
            Command::InsertSoftwareBreakpoint { addr, kind, cond_list, persist, cmd_list } => {
                write_point(&mut s, "Z0,", addr, kind);
                write_breakpoint_lists(&mut s, cond_list, *persist, cmd_list);
            },
            Command::RemoveHardwareBreakpoint { addr, kind } => write_point(&mut s, "z1,", addr, kind),
            Command::InsertHardwareBreakpoint { addr, kind, cond_list, persist, cmd_list } => {
                write_point(&mut s, "Z1,", addr, kind);
                write_breakpoint_lists(&mut s, cond_list, *persist, cmd_list);
            },
            Command::RemoveWriteWatchpoint { addr, kind } => write_point(&mut s, "z2,", addr, kind),
            Command::InsertWriteWatchpoint { addr, kind } => write_point(&mut s, "Z2,", addr, kind),
            Command::RemoveReadWatchpoint { addr, kind } => write_point(&mut s, "z3,", addr, kind),
            Command::InsertReadWatchpoint { addr, kind } => write_point(&mut s, "Z3,", addr, kind),
            Command::RemoveAccessWatchpoint { addr, kind } => write_point(&mut s, "z4,", addr, kind),
            Command::InsertAccessWatchpoint { addr, kind } => write_point(&mut s, "Z4,", addr, kind),
        }
        s
    }
}

/// Appends the body of an ‘A’ packet.
fn write_arguments(s: &mut String, args: &Vec<Argument>)
    ensures
        final(s)@ == old(s)@ + arguments_rendering(args@),
{
    let ghost start = s@;
    let mut i: usize = 0;
    while i < args.len()
        invariant
            i <= args.len(),
            s@ == start + arguments_rendering(args@.take(i as int)),
        decreases args.len() - i,
    {
        proof {
            assert(args@.take(i + 1).drop_last() =~= args@.take(i as int));
        }
        let arg = &args[i];
        push_dec(s, arg.0.len() as u64);
        push_str(s, ",");
        push_dec(s, i as u64);
        push_str(s, ",");
        arg.write_to(s);
        i += 1;
    }
    assert(args@.take(i as int) =~= args@);
}

/// The letter that identifies a command packet (‘v’ for the named packets).
pub open spec fn command_letter(c: Command) -> char {
    match c {
        Command::EnableExtendedMode => '!',
        Command::Query => '?',
        Command::Arguments { .. } => 'A',
        Command::Baud(_) => 'b',
        Command::Breakpoint { .. } => 'B',
        Command::BackwardContinue => 'b',
        Command::BackwardSingleStep => 'b',
        Command::Continue { .. } => 'c',
        Command::ContinueWithSignal { .. } => 'C',
        Command::ToggleDebug => 'd',
        Command::Detach { .. } => 'D',
        Command::ReadGeneralRegisters => 'g',
        Command::WriteGeneralRegisters(_) => 'G',
        Command::SetThread { .. } => 'H',
        Command::SingleCycleStep { .. } => 'i',
        Command::SignalCycleStep => 'I',
        Command::Kill => 'k',
        Command::ReadMemory { .. } => 'm',
        Command::WriteMemory { .. } => 'M',
        Command::ReadRegister { .. } => 'p',
        Command::WriteRegister { .. } => 'P',
        Command::GeneralQuery(q) => match q {
            Query::Agent(_) => 'Q',
            Query::Allow { .. } => 'Q',
            Query::CurrentThreadID => 'q',
            Query::ComputeCRC { .. } => 'q',
        },
        Command::Reset => 'r',
        Command::Restart(_) => 'R',
        Command::SingleStep { .. } => 's',
        Command::StepWithSignal { .. } => 'S',
        Command::SearchBackwards { .. } => 't',
        Command::ThreadAlive { .. } => 'T',
        Command::Named(_) => 'v',
        Command::ReadAddressableMemory { .. } => 'x',
        Command::WriteAddressableMemory { .. } => 'X',
        Command::RemoveBreakpoint { .. } => 'z',
        Command::InsertBreakpoint { .. } => 'Z',
        Command::RemoveSoftwareBreakpoint { .. } => 'z',
        Command::InsertSoftwareBreakpoint { .. } => 'Z',
        Command::RemoveHardwareBreakpoint { .. } => 'z',
        Command::InsertHardwareBreakpoint { .. } => 'Z',
        Command::RemoveWriteWatchpoint { .. } => 'z',
        Command::InsertWriteWatchpoint { .. } => 'Z',
        Command::RemoveReadWatchpoint { .. } => 'z',
        Command::InsertReadWatchpoint { .. } => 'Z',
        Command::RemoveAccessWatchpoint { .. } => 'z',
        Command::InsertAccessWatchpoint { .. } => 'Z',
    }
}

/// Packets starting with ‘v’ are identified by a multi-letter name: every
/// named packet's text starts with ‘v’.
pub proof fn lemma_named_packet_starts_with_v(p: NamedPacket)
    ensures
        p.rendering().len() > 0,
        p.rendering()[0] == 'v',
{
    reveal_strlit("vAttach;");
    reveal_strlit("vCont;");
    reveal_strlit("vCont");
    reveal_strlit("vCont?");
    reveal_strlit("vCtrlC");
    reveal_strlit("vFlashErase;");
    reveal_strlit("vFlashWrite;");
    reveal_strlit("vFlashDone");
    reveal_strlit("vKill;");
    reveal_strlit("vMustReplyEmpty");
    reveal_strlit("vRun;");
    reveal_strlit("vStopped");
}

/// Every command is sent as a non-empty text that starts with the letter that
/// identifies it (‘q’ or ‘Q’ for a general query or set packet).
pub proof fn lemma_command_starts_with_its_letter(c: Command)
    ensures
        c.rendering().len() > 0,
        c.rendering()[0] == command_letter(c),
{
    reveal_strlit("QAgent:1");
    reveal_strlit("QAgent:0");
    reveal_strlit("QAllow:");
    reveal_strlit("qC");
    reveal_strlit("qCRC:");
    reveal_strlit("!");
    reveal_strlit("?");
    reveal_strlit("A");
    reveal_strlit("b");
    reveal_strlit("B");
    reveal_strlit("bc");
    reveal_strlit("bs");
    reveal_strlit("c");
    reveal_strlit("C");
    reveal_strlit("d");
    reveal_strlit("D");
    reveal_strlit("g");
    reveal_strlit("G");
    reveal_strlit("H");
    reveal_strlit("i");
    reveal_strlit("i,");
    reveal_strlit("I");
    reveal_strlit("k");
    reveal_strlit("m");
    reveal_strlit("M");
    reveal_strlit("p");
    reveal_strlit("P");
    reveal_strlit("r");
    reveal_strlit("R");
    reveal_strlit("s");
    reveal_strlit("S");
    reveal_strlit("t");
    reveal_strlit("T");
    reveal_strlit("x");
    reveal_strlit("X");
    reveal_strlit("z");
    reveal_strlit("Z");
    reveal_strlit("z0,");
    reveal_strlit("Z0,");
    reveal_strlit("z1,");
    reveal_strlit("Z1,");
    reveal_strlit("z2,");
    reveal_strlit("Z2,");
    reveal_strlit("z3,");
    reveal_strlit("Z3,");
    reveal_strlit("z4,");
    reveal_strlit("Z4,");
    if let Command::Named(p) = c {
        lemma_named_packet_starts_with_v(p);
    }
}

/// Binary data is encoded as two hexadecimal digits per byte: the text is
/// twice as long as the data, holds only hexadecimal digits (seven-bit
/// clean), and its digit pairs read back as the data.
pub proof fn lemma_binary_data_encoding(d: BinaryData)
    ensures
        d.rendering().len() == 2 * d.0@.len(),
        hex_pairs_value(d.rendering()) == d.0@,
        forall|i: int| 0 <= i < d.rendering().len() ==> #[trigger] is_hex_digit(d.rendering()[i]),
{
    lemma_hex_bytes_roundtrip(d.0@, false);
}

/// Addresses are sent as hexadecimal digits that read back as the address.
pub proof fn lemma_address_encoding(a: Address)
    ensures
        a.rendering().len() > 0,
        hex_value(a.rendering()) == a.value(),
        forall|i: int| 0 <= i < a.rendering().len() ==> #[trigger] is_hex_digit(a.rendering()[i]),
{
    lemma_hex_text_roundtrip(a.value(), true);
}

/// Thread-ids: ‘-1’ for all threads, ‘0’ for any thread, and a positive id as
/// hexadecimal digits that read back as the id.
pub proof fn lemma_thread_id_encoding(t: ThreadID)
    ensures
        t.0 == -1 ==> t.rendering() == "-1"@,
        t.0 == 0 ==> t.rendering() == "0"@,
        t.0 > 0 ==> hex_value(t.rendering()) == t.0 && forall|i: int|
            0 <= i < t.rendering().len() ==> #[trigger] is_hex_digit(t.rendering()[i]),
{
    if t.0 > 0 {
        let id: i32 = t.0;
        assert((id as u32) as nat == id) by (bit_vector)
            requires
                id > 0,
        ;
        lemma_hex_text_roundtrip((t.0 as u32) as nat, true);
    }
}

/// The program file of a ‘vRun’ packet travels as hex-encoded UTF-8 after
/// ‘vRun;’: the digits that follow read back as the file name's bytes, which
/// decode to the file name.
pub proof fn lemma_run_filename_encoding(filename: String, argument: Option<String>)
    ensures
        ({
            let text = NamedPacket::Run { filename, argument }.rendering();
            let digits = 2 * encode_utf8(filename@).len();
            &&& text.len() >= 5 + digits
            &&& text.subrange(0, 5) == "vRun;"@
            &&& decode_utf8(hex_pairs_value(text.subrange(5, (5 + digits) as int))) == filename@
        }),
{
    reveal_strlit("vRun;");
    let bytes = encode_utf8(filename@);
    lemma_hex_bytes_roundtrip(bytes, false);
    encode_utf8_decode_utf8(filename@);
    let text = NamedPacket::Run { filename, argument }.rendering();
    let digits = 2 * bytes.len();
    assert(text.subrange(5, (5 + digits) as int) =~= hex_bytes(bytes, false));
    assert(text.subrange(0, 5) =~= "vRun;"@);
}

/// Whether `c` ends the name of a ‘v’ packet.
pub open spec fn is_name_end(c: char) -> bool {
    c == ';' || c == '?'
}

/// The position of the first ‘;’ or ‘?’ at or after `i` in `s` (the length of
/// `s` where there is none).
pub open spec fn name_end_from(s: Seq<char>, i: int) -> int
    decreases s.len() - i,
{
    if i < 0 || i >= s.len() {
        s.len() as int
    } else if is_name_end(s[i]) {
        i
    } else {
        name_end_from(s, i + 1)
    }
}

/// The name of a ‘v’ packet: its text up to the first ‘;’ or ‘?’, or the
/// whole text where there is neither.
pub open spec fn packet_name(s: Seq<char>) -> Seq<char> {
    s.subrange(0, name_end_from(s, 0))
}

/// The name a named packet is identified by.
pub open spec fn named_packet_name(p: NamedPacket) -> Seq<char> {
    match p {
        NamedPacket::Attach { .. } => "vAttach"@,
        NamedPacket::Continue { .. } => "vCont"@,
        NamedPacket::QueryContinueActions => "vCont"@,
        NamedPacket::CtrlC => "vCtrlC"@,
        NamedPacket::FlashErase { .. } => "vFlashErase"@,
        NamedPacket::FlashWrite { .. } => "vFlashWrite"@,
        NamedPacket::FlashDone => "vFlashDone"@,
        NamedPacket::Kill { .. } => "vKill"@,
        NamedPacket::MustReplyEmpty => "vMustReplyEmpty"@,
        NamedPacket::Run { .. } => "vRun"@,
        NamedPacket::Stopped => "vStopped"@,
    }
}

/// A text that starts with `name`, which holds no ‘;’ or ‘?’, and goes on
/// with a ‘;’ or ‘?’ or ends there, has the name `name`.
proof fn lemma_name_of(name: Seq<char>, rest: Seq<char>)
    requires
        forall|i: int| 0 <= i < name.len() ==> !is_name_end(#[trigger] name[i]),
        rest.len() == 0 || is_name_end(rest[0]),
    ensures
        packet_name(name + rest) == name,
{
    let s = name + rest;
    lemma_name_end_from(name, rest, 0);
    assert(s.subrange(0, name.len() as int) =~= name);
}

/// From any position inside `name`, the name of `name + rest` ends where
/// `name` does.
proof fn lemma_name_end_from(name: Seq<char>, rest: Seq<char>, j: int)
    requires
        0 <= j <= name.len(),
        forall|i: int| 0 <= i < name.len() ==> !is_name_end(#[trigger] name[i]),
        rest.len() == 0 || is_name_end(rest[0]),
    ensures
        name_end_from(name + rest, j) == name.len(),
    decreases name.len() - j,
{
    let s = name + rest;
    if j < name.len() {
        assert(s[j] == name[j]);
        lemma_name_end_from(name, rest, j + 1);
    } else if rest.len() > 0 {
        assert(s[j] == rest[0]);
    }
}

/// Packets starting with ‘v’ are identified by a multi-letter name, up to the
/// first ‘;’ or ‘?’ (or the end of the packet): each named packet carries its
/// own name.
pub proof fn lemma_named_packet_name(p: NamedPacket)
    ensures
        packet_name(p.rendering()) == named_packet_name(p),
{
    reveal_strlit("vAttach;");
    reveal_strlit("vAttach");
    reveal_strlit("vCont;");
    reveal_strlit("vCont");
    reveal_strlit("vCont?");
    reveal_strlit("vCtrlC");
    reveal_strlit("vFlashErase;");
    reveal_strlit("vFlashErase");
    reveal_strlit("vFlashWrite;");
    reveal_strlit("vFlashWrite");
    reveal_strlit("vFlashDone");
    reveal_strlit("vKill;");
    reveal_strlit("vKill");
    reveal_strlit("vMustReplyEmpty");
    reveal_strlit("vRun;");
    reveal_strlit("vRun");
    reveal_strlit("vStopped");
    let text = p.rendering();
    let name = named_packet_name(p);
    let rest = text.subrange(name.len() as int, text.len() as int);
    assert(name.len() <= text.len());
    assert(text.subrange(0, name.len() as int) =~= name);
    assert(text =~= name + rest);
    lemma_name_of(name, rest);
}


/// A ‘B’ packet asks for what its mode says: it starts with ‘B’ and ends with
/// ‘S’ where it sets the breakpoint and ‘C’ where it clears it, so the two
/// requests for one address never share a text.
pub proof fn lemma_breakpoint_packet_mode(addr: Address, mode: BreakpointMode)
    ensures
        ({
            let text = (Command::Breakpoint { addr, mode }).rendering();
            &&& text.len() > 0
            &&& text[0] == 'B'
            &&& text.last() == (if mode is SetBreak { 'S' } else { 'C' })
        }),
        (Command::Breakpoint { addr, mode: BreakpointMode::SetBreak }).rendering()
            != (Command::Breakpoint { addr, mode: BreakpointMode::Clear }).rendering(),
{
    reveal_strlit("B");
    reveal_strlit(",");
    reveal_strlit("S");
    reveal_strlit("C");
    let set = Command::Breakpoint { addr, mode: BreakpointMode::SetBreak }.rendering();
    let clear = Command::Breakpoint { addr, mode: BreakpointMode::Clear }.rendering();
    assert(set.last() == 'S');
    assert(clear.last() == 'C');
}

} // verus!
