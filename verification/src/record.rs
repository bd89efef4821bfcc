//! Formatting of log records: decimal rendering of identifiers and the
//! exact four-field line appended to the shared log.

use vstd::prelude::*;
use vstd::string::StringExecFns;
use crate::hook_type::HookType;

verus! {

/// The character that renders one decimal digit.
pub open spec fn digit_char(d: nat) -> char {
    if d == 0 {
        '0'
    } else if d == 1 {
        '1'
    } else if d == 2 {
        '2'
    } else if d == 3 {
        '3'
    } else if d == 4 {
        '4'
    } else if d == 5 {
        '5'
    } else if d == 6 {
        '6'
    } else if d == 7 {
        '7'
    } else if d == 8 {
        '8'
    } else {
        '9'
    }
}

/// The usual decimal rendering of `n`: most significant digit first,
/// no leading zeroes, and the single digit `0` for zero itself.
pub open spec fn dec_seq(n: nat) -> Seq<char>
    decreases n,
{
    if n < 10 {
        seq![digit_char(n)]
    } else {
        dec_seq(n / 10).push(digit_char(n % 10))
    }
}

/// One decimal digit as a string slice.
fn digit_str(d: u32) -> (r: &'static str)
    requires
        d < 10,
    ensures
        r@.len() == 1,
        r@[0] == digit_char(d as nat),
{
    proof {
        reveal_strlit("0");
        reveal_strlit("1");
        reveal_strlit("2");
        reveal_strlit("3");
        reveal_strlit("4");
        reveal_strlit("5");
        reveal_strlit("6");
        reveal_strlit("7");
        reveal_strlit("8");
        reveal_strlit("9");
    }
    if d == 0 {
        "0"
    } else if d == 1 {
        "1"
    } else if d == 2 {
        "2"
    } else if d == 3 {
        "3"
    } else if d == 4 {
        "4"
    } else if d == 5 {
        "5"
    } else if d == 6 {
        "6"
    } else if d == 7 {
        "7"
    } else if d == 8 {
        "8"
    } else {
        "9"
    }
}

/// Renders `n` in decimal, exactly as `dec_seq` describes it.
pub fn u32_to_decimal(n: u32) -> (s: String)
    ensures
        s@ == dec_seq(n as nat),
    decreases n,
{
    if n < 10 {
        let s = String::from_str(digit_str(n));
        proof {
            assert(s@ =~= dec_seq(n as nat));
        }
        s
    } else {
        let mut s = u32_to_decimal(n / 10);
        s.append(digit_str(n % 10));
        proof {
            assert(s@ =~= dec_seq(n as nat));
        }
        s
    }
}

/// The label under which a category appears in a record.
pub open spec fn spec_label(t: HookType) -> Seq<char> {
    match t {
        HookType::Mouse => "Mouse"@,
        HookType::Keyboard => "Keyboard"@,
        HookType::Other => "Other"@,
    }
}

/// The label of a category, for use in a record.
pub fn label(t: HookType) -> (r: &'static str)
    ensures
        r@ == spec_label(t),
{
    match t {
        HookType::Mouse => "Mouse",
        HookType::Keyboard => "Keyboard",
        HookType::Other => "Other",
    }
}

/// The exact content of one log line: category label, process id, process
/// name and thread id, in four labelled fields.
pub open spec fn record_line(t: HookType, pid: u32, name: Seq<char>, tid: u32) -> Seq<char> {
    "hook type: "@ + spec_label(t) + ", process id: "@ + dec_seq(pid as nat)
        + ", process name: "@ + name + ", thread id: "@ + dec_seq(tid as nat)
}

/// Formats the one record that a loggable event appends.
pub fn format_record(t: HookType, pid: u32, name: &String, tid: u32) -> (line: String)
    ensures
        line@ == record_line(t, pid, name@, tid),
{
    let mut line = String::from_str("hook type: ");
    line.append(label(t));
    line.append(", process id: ");
    let pid_s = u32_to_decimal(pid);
    line.append(pid_s.as_str());
    line.append(", process name: ");
    line.append(name.as_str());
    line.append(", thread id: ");
    let tid_s = u32_to_decimal(tid);
    line.append(tid_s.as_str());
    proof {
        assert(line@ =~= record_line(t, pid, name@, tid));
    }
    line
}

} // verus!
