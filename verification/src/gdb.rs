//! Talking to GDB over its machine interface: the commands the runner
//! writes, and what it makes of the lines GDB answers with.

use vstd::prelude::*;

use crate::text::push_str;

verus! {

/// see: https://sourceware.org/gdb/current/onlinedocs/gdb.html/GDB_002fMI-Result-Records.html#GDB_002fMI-Result-Records
#[derive(Debug, Clone, Copy, PartialEq, Eq, Structural)]
pub enum ResultRecord {
    Done,
    Running,
    Connected,
    Error,
    Exit,
}

/// Whether `s` starts with `prefix`.
pub open spec fn has_prefix(s: Seq<char>, prefix: Seq<char>) -> bool {
    prefix.len() <= s.len() && s.subrange(0, prefix.len() as int) == prefix
}

/// Whether `line` starts with `prefix`.
pub fn starts_with(line: &str, prefix: &str) -> (r: bool)
    ensures
        r == has_prefix(line@, prefix@),
{
    let n = line.unicode_len();
    let m = prefix.unicode_len();
    if m > n {
        return false;
    }
    let mut i: usize = 0;
    while i < m
        invariant
            m <= n,
            n == line@.len(),
            m == prefix@.len(),
            i <= m,
            forall|j: int| 0 <= j < i ==> line@[j] == prefix@[j],
        decreases m - i,
    {
        if line.get_char(i) != prefix.get_char(i) {
            assert(line@.subrange(0, m as int)[i as int] != prefix@[i as int]);
            return false;
        }
        i += 1;
    }
    assert(line@.subrange(0, m as int) =~= prefix@);
    true
}

/// What the runner makes of a line of GDB's output: the messages it prints,
/// whether GDB is done answering, and whether the line reports that the
/// request failed.
pub struct Reaction {
    pub messages: Vec<String>,
    pub done: bool,
    pub failed: bool,
}

/// The texts of a reaction's messages.
pub open spec fn messages_view(r: Reaction) -> Seq<Seq<char>> {
    r.messages@.map_values(|m: String| m@)
}

/// A message made of `parts`, one after the other.
fn message(parts: &[&str]) -> (m: String)
    ensures
        m@ == parts_text(parts@),
{
    let mut m = String::new();
    let mut i: usize = 0;
    while i < parts.len()
        invariant
            i <= parts.len(),
            m@ == parts_text(parts@.take(i as int)),
        decreases parts.len() - i,
    {
        proof {
            assert(parts@.take(i + 1).drop_last() =~= parts@.take(i as int));
        }
        push_str(&mut m, parts[i]);
        i += 1;
    }
    assert(parts@.take(i as int) =~= parts@);
    m
}

/// The texts of `parts`, one after the other.
pub open spec fn parts_text(parts: Seq<&str>) -> Seq<char>
    decreases parts.len(),
{
    if parts.len() == 0 {
        Seq::empty()
    } else {
        parts_text(parts.drop_last()) + parts.last()@
    }
}

/// A reaction of one message.
fn react(m: String, done: bool, failed: bool) -> (r: Reaction)
    ensures
        messages_view(r) == seq![m@],
        r.done == done,
        r.failed == failed,
{
    let mut messages = Vec::new();
    messages.push(m);
    let r = Reaction { messages, done, failed };
    assert(messages_view(r) =~= seq![m@]);
    r
}

/// GDB's initial output, up to its prompt: each line is echoed, and the
/// prompt line ‘(gdb)’ ends the output.
pub fn on_startup_line(line: &str) -> (r: Reaction)
    ensures
        r.done == has_prefix(line@, "(gdb)"@),
        !r.failed,
        messages_view(r) == if has_prefix(line@, "(gdb)"@) {
            seq!["GDB responded: `"@ + line@ + "`"@, "gdb ready"@]
        } else {
            seq!["GDB responded: `"@ + line@ + "`"@]
        },
{
    let echo = message(&["GDB responded: `", line, "`"]);
    proof {
        reveal_with_fuel(parts_text, 4);
    }
    if starts_with(line, "(gdb)") {
        let mut r = react(echo, true, false);
        let ghost before = messages_view(r);
        r.messages.push(String::from_str("gdb ready"));
        assert(messages_view(r) =~= before.push("gdb ready"@));
        r
    } else {
        react(echo, false, false)
    }
}

/// The answer to ‘-target-select extended-remote’, line by line: a
/// ‘^connected’ record, an ‘^error’ record (the connection failed), the
/// prompt that ends the answer, or anything else.
pub fn on_target_line(line: &str) -> (r: Reaction)
    ensures
        r.failed == (!has_prefix(line@, "^connected"@) && has_prefix(line@, "^error"@)),
        r.done == (!has_prefix(line@, "^connected"@) && !has_prefix(line@, "^error"@) && has_prefix(
            line@,
            "(gdb)"@,
        )),
        messages_view(r) == if has_prefix(line@, "^connected"@) {
            seq!["connected to target!"@]
        } else if has_prefix(line@, "^error"@) {
            seq!["failed to connect to target!"@]
        } else if has_prefix(line@, "(gdb)"@) {
            seq!["(gdb)"@]
        } else {
            seq!["unexpected output: "@ + line@]
        },
{
    if starts_with(line, "^connected") {
        react(String::from_str("connected to target!"), false, false)
    } else if starts_with(line, "^error") {
        react(String::from_str("failed to connect to target!"), false, true)
    } else if starts_with(line, "(gdb)") {
        react(String::from_str("(gdb)"), true, false)
    } else {
        let m = message(&["unexpected output: ", line]);
        proof {
            reveal_with_fuel(parts_text, 3);
        }
        react(m, false, false)
    }
}

/// The answer to a monitor command, line by line: the prompt ends it,
/// console output (‘@’ lines) is shown as it is, anything else as debug
/// output.
pub fn on_monitor_line(line: &str) -> (r: Reaction)
    ensures
        !r.failed,
        r.done == has_prefix(line@, "(gdb)"@),
        messages_view(r) == if has_prefix(line@, "(gdb)"@) {
            seq!["(gdb)"@]
        } else if has_prefix(line@, "@"@) {
            seq![line@]
        } else {
            seq!["debug: "@ + line@]
        },
{
    if starts_with(line, "(gdb)") {
        react(String::from_str("(gdb)"), true, false)
    } else if starts_with(line, "@") {
        react(String::from_str(line), false, false)
    } else {
        let m = message(&["debug: ", line]);
        proof {
            reveal_with_fuel(parts_text, 3);
        }
        react(m, false, false)
    }
}

/// The machine interface command that connects GDB to the remote GDB server at `target`.
pub fn target_select_command(target: &str) -> (c: String)
    ensures
        c@ == "-target-select extended-remote "@ + target@ + "\n"@,
{
    let mut c = String::from_str("-target-select extended-remote ");
    push_str(&mut c, target);
    push_str(&mut c, "\n");
    c
}

/// The arguments of a monitor command, each preceded by a space.
pub open spec fn monitor_args_text(args: Seq<String>) -> Seq<char>
    decreases args.len(),
{
    if args.len() == 0 {
        Seq::empty()
    } else {
        monitor_args_text(args.drop_last()) + " "@ + args.last()@
    }
}

/// The monitor command with the given arguments, ended by a line break.
pub fn monitor_command(args: &Option<Vec<String>>) -> (c: String)
    ensures
        c@ == "monitor"@ + match args {
            Some(args) => monitor_args_text(args@),
            None => Seq::empty(),
        } + "\n"@,
{
    let mut c = String::from_str("monitor");
    match args {
        Some(args) => {
            let ghost start = c@;
            let mut i: usize = 0;
            while i < args.len()
                invariant
                    i <= args.len(),
                    c@ == start + monitor_args_text(args@.take(i as int)),
                decreases args.len() - i,
            {
                proof {
                    assert(args@.take(i + 1).drop_last() =~= args@.take(i as int));
                }
                push_str(&mut c, " ");
                push_str(&mut c, args[i].as_str());
                i += 1;
            }
            assert(args@.take(i as int) =~= args@);
        },
        None => {
            assert(c@ + Seq::<char>::empty() =~= c@);
        },
    }
    push_str(&mut c, "\n");
    c
}

} // verus!
