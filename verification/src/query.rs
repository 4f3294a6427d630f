//! General query packets (‘q’ and ‘Q’).
//!
//! see: https://sourceware.org/gdb/current/onlinedocs/gdb.html/General-Query-Packets.html#General-Query-Packets

use vstd::prelude::*;

use crate::rsp::Address;
use crate::text::{dec_text, push_dec, push_str};

verus! {

/// An operation that GDB may request of the target (see ‘QAllow’).
#[derive(Clone, Copy, PartialEq, Eq, Structural, Debug)]
pub enum AllowOperation {
    WriteReg,
    WriteMem,
    InsertBreak,
    InsertTrace,
    InsertFastTrace,
    Stop,
}

impl AllowOperation {
    /// The operation's name.
    pub open spec fn rendering(&self) -> Seq<char> {
        match self {
            AllowOperation::WriteReg => "WriteReg"@,
            AllowOperation::WriteMem => "WriteMem"@,
            AllowOperation::InsertBreak => "InsertBreak"@,
            AllowOperation::InsertTrace => "InsertTrace"@,
            AllowOperation::InsertFastTrace => "InsertFastTrace"@,
            AllowOperation::Stop => "Stop"@,
        }
    }

    pub(crate) fn write_to(&self, s: &mut String)
        ensures
            final(s)@ == old(s)@ + self.rendering(),
    {
        match self {
            AllowOperation::WriteReg => push_str(s, "WriteReg"),
            AllowOperation::WriteMem => push_str(s, "WriteMem"),
            AllowOperation::InsertBreak => push_str(s, "InsertBreak"),
            AllowOperation::InsertTrace => push_str(s, "InsertTrace"),
            AllowOperation::InsertFastTrace => push_str(s, "InsertFastTrace"),
            AllowOperation::Stop => push_str(s, "Stop"),
        }
    }

    /// Encodes the operation's name as text.
    pub fn to_string(&self) -> (s: String)
        ensures
            s@ == self.rendering(),
    {
        let mut s = String::new();
        self.write_to(&mut s);
        s
    }
}

/// General query packets.
pub enum Query {
    /// Turn on or off the agent as a helper to perform some debugging
    /// operations delegated from GDB (see Control Agent).
    Agent(bool),
    /// Specify which operations GDB expects to request of the target.
    ///
    /// val is either 0, indicating that GDB will not request the operation, or 1,
    /// indicating that it may.
    Allow { op: AllowOperation, val: bool },
    /// Return the current thread ID.
    CurrentThreadID,
    /// Compute the CRC checksum of a block of memory using CRC-32 defined in IEEE 802.3.
    ComputeCRC { addr: Address, length: u32 },
}

impl Query {
    /// The text of the query packet.
    pub open spec fn rendering(&self) -> Seq<char> {
        match self {
            Query::Agent(enable) => if *enable {
                "QAgent:1"@
            } else {
                "QAgent:0"@
            },
            Query::Allow { op, val } => if *val {
                "QAllow:"@ + op.rendering() + ":1"@
            } else {
                "QAllow:"@ + op.rendering() + ":0"@
            },
            Query::CurrentThreadID => "qC"@,
            Query::ComputeCRC { addr, length } => "qCRC:"@ + addr.rendering() + ","@ + dec_text(
                *length as nat,
            ),
        }
    }

    pub(crate) fn write_to(&self, s: &mut String)
        ensures
            final(s)@ == old(s)@ + self.rendering(),
    {
        match self {
            Query::Agent(enable) => {
                if *enable {
                    push_str(s, "QAgent:1");
                } else {
                    push_str(s, "QAgent:0");
                }
            },
            Query::Allow { op, val } => {
                push_str(s, "QAllow:");
                op.write_to(s);
                if *val {
                    push_str(s, ":1");
                } else {
                    push_str(s, ":0");
                }
            },
            Query::CurrentThreadID => push_str(s, "qC"),
            Query::ComputeCRC { addr, length } => {
                push_str(s, "qCRC:");
                addr.write_to(s);
                push_str(s, ",");
                push_dec(s, *length as u64);
            },
        }
    }

    /// Encodes the query as text.
    pub fn to_string(&self) -> (s: String)
        ensures
            s@ == self.rendering(),
    {
        let mut s = String::new();
        self.write_to(&mut s);
        s
    }
}


/// Each operation is sent under its own name: two operations with the same
/// text are the same operation, and ‘WriteReg’ names register writes.
pub proof fn lemma_allow_operation_names_distinct(a: AllowOperation, b: AllowOperation)
    ensures
        a.rendering() == b.rendering() ==> a == b,
        AllowOperation::WriteReg.rendering() =~= seq!['W', 'r', 'i', 't', 'e', 'R', 'e', 'g'],
        AllowOperation::WriteMem.rendering() =~= seq!['W', 'r', 'i', 't', 'e', 'M', 'e', 'm'],
{
    reveal_strlit("WriteReg");
    reveal_strlit("WriteMem");
    reveal_strlit("InsertBreak");
    reveal_strlit("InsertTrace");
    reveal_strlit("InsertFastTrace");
    reveal_strlit("Stop");
    if a.rendering() == b.rendering() && a != b {
        let x = a.rendering();
        let y = b.rendering();
        assert(x.len() == y.len());
        assert(x[5] == y[5]);
        assert(x[6] == y[6]);
        assert(false);
    }
}

/// A ‘QAllow’ packet names one operation and one permission: two such packets
/// with the same text allow the same operation with the same permission.
pub proof fn lemma_allow_packet_distinct(op1: AllowOperation, val1: bool, op2: AllowOperation, val2: bool)
    ensures
        (Query::Allow { op: op1, val: val1 }).rendering() == (Query::Allow { op: op2, val: val2 }).rendering()
            ==> op1 == op2 && val1 == val2,
{
    reveal_strlit("QAllow:");
    reveal_strlit(":1");
    reveal_strlit(":0");
    let x = (Query::Allow { op: op1, val: val1 }).rendering();
    let y = (Query::Allow { op: op2, val: val2 }).rendering();
    if x == y {
        let n1 = op1.rendering();
        let n2 = op2.rendering();
        assert(x.len() == 7 + n1.len() + 2);
        assert(y.len() == 7 + n2.len() + 2);
        assert(x.subrange(7, 7 + n1.len() as int) =~= n1);
        assert(y.subrange(7, 7 + n2.len() as int) =~= n2);
        lemma_allow_operation_names_distinct(op1, op2);
        assert(x.last() == (if val1 { '1' } else { '0' }));
        assert(y.last() == (if val2 { '1' } else { '0' }));
    }
}

} // verus!
