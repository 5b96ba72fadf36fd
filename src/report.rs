use vstd::prelude::*;
use vstd::string::StringExecFns;

use crate::records::ErrorLogEntry;

verus! {

/// The text of the digit `d` (below ten).
pub open spec fn digit_text(d: nat) -> Seq<char> {
    if d == 0 {
        "0"@
    } else if d == 1 {
        "1"@
    } else if d == 2 {
        "2"@
    } else if d == 3 {
        "3"@
    } else if d == 4 {
        "4"@
    } else if d == 5 {
        "5"@
    } else if d == 6 {
        "6"@
    } else if d == 7 {
        "7"@
    } else if d == 8 {
        "8"@
    } else {
        "9"@
    }
}

/// `n` written in decimal, without leading zeros.
pub open spec fn decimal(n: nat) -> Seq<char>
    decreases n,
{
    if n < 10 {
        digit_text(n)
    } else {
        decimal(n / 10) + digit_text(n % 10)
    }
}

/// The line that shows a stack trace, or nothing when there is none.
pub open spec fn stack_text(e: ErrorLogEntry) -> Seq<char> {
    match e.stack_trace {
        Some(s) => "Stack: "@ + s@ + "\n"@,
        None => Seq::empty(),
    }
}

/// The report lines of the `i`-th entry (counted from zero, shown from one);
/// the level is shown for backend entries only.
pub open spec fn entry_text(i: nat, e: ErrorLogEntry, with_level: bool) -> Seq<char> {
    let head = decimal(i + 1) + " ["@ + e.timestamp@ + "] "@;
    let level = if with_level { "["@ + e.level@ + "] "@ } else { Seq::empty() };
    head + level + e.message@ + "\n"@ + stack_text(e)
}

/// The report lines of the first `n` entries of `s`.
pub open spec fn entries_text(s: Seq<ErrorLogEntry>, n: nat, with_level: bool) -> Seq<char>
    decreases n,
{
    if n == 0 {
        Seq::empty()
    } else {
        entries_text(s, (n - 1) as nat, with_level) + entry_text(
            (n - 1) as nat,
            s[n - 1],
            with_level,
        )
    }
}

/// A titled section listing `s`, or nothing when `s` is empty.
pub open spec fn section_text(title: Seq<char>, s: Seq<ErrorLogEntry>, with_level: bool) -> Seq<
    char,
> {
    if s.len() == 0 {
        Seq::empty()
    } else {
        title + entries_text(s, s.len(), with_level) + "\n"@
    }
}

/// The whole error report: a header with the time and the system, the
/// frontend errors, the backend errors, and a note when there are none.
pub open spec fn report_text(
    frontend: Seq<ErrorLogEntry>,
    backend: Seq<ErrorLogEntry>,
    time: Seq<char>,
    system: Seq<char>,
) -> Seq<char> {
    let header = "=== Omini ToolBox 错误报告 ===\n\n"@ + "报告时间: "@ + time + "\n"@
        + "系统: "@ + system + "\n\n"@;
    let none = if frontend.len() == 0 && backend.len() == 0 {
        "没有记录的错误。\n"@
    } else {
        Seq::empty()
    };
    header + section_text("--- 前端错误 ---\n"@, frontend, false) + section_text(
        "--- 后端错误 ---\n"@,
        backend,
        true,
    ) + none
}

fn digit_str(d: usize) -> (r: &'static str)
    requires
        d < 10,
    ensures
        r@ == digit_text(d as nat),
{
    if d == 0 {
        "0"
    } else if d == 1 {
        "1"
    } else if d == 2 {
        "2"
    } else if d == 3 {
        "3"
    } else if d == 4 {
        "4"
    } else if d == 5 {
        "5"
    } else if d == 6 {
        "6"
    } else if d == 7 {
        "7"
    } else if d == 8 {
        "8"
    } else {
        "9"
    }
}

/// Appends `n` in decimal to `out`.
pub fn append_decimal(out: &mut String, n: usize)
    ensures
        final(out)@ == old(out)@ + decimal(n as nat),
    decreases n,
{
    if n >= 10 {
        append_decimal(out, n / 10);
    }
    out.append(digit_str(n % 10));
    assert(out@ =~= old(out)@ + decimal(n as nat));
}

fn append_entry(out: &mut String, i: usize, e: &ErrorLogEntry, with_level: bool)
    requires
        i < usize::MAX,
    ensures
        final(out)@ == old(out)@ + entry_text(i as nat, *e, with_level),
{
    append_decimal(out, i + 1);
    out.append(" [");
    out.append(e.timestamp.as_str());
    out.append("] ");
    if with_level {
        out.append("[");
        out.append(e.level.as_str());
        out.append("] ");
    }
    out.append(e.message.as_str());
    out.append("\n");
    match &e.stack_trace {
        Some(s) => {
            out.append("Stack: ");
            out.append(s.as_str());
            out.append("\n");
        },
        None => {},
    }
    assert(out@ =~= old(out)@ + entry_text(i as nat, *e, with_level));
}

fn append_section(out: &mut String, title: &str, s: &Vec<ErrorLogEntry>, with_level: bool)
    ensures
        final(out)@ == old(out)@ + section_text(title@, s@, with_level),
{
    if s.len() == 0 {
        assert(out@ =~= old(out)@ + section_text(title@, s@, with_level));
        return;
    }
    out.append(title);
    let mut i: usize = 0;
    while i < s.len()
        invariant
            i <= s@.len(),
            out@ == old(out)@ + title@ + entries_text(s@, i as nat, with_level),
        decreases s@.len() - i,
    {
        append_entry(out, i, &s[i], with_level);
        assert(out@ =~= old(out)@ + title@ + entries_text(s@, (i + 1) as nat, with_level));
        i = i + 1;
    }
    out.append("\n");
    assert(out@ =~= old(out)@ + section_text(title@, s@, with_level));
}

/// The error report for the given frontend and backend entries, stamped with
/// `time` and the name of the operating `system`.
pub fn error_report(
    frontend: &Vec<ErrorLogEntry>,
    backend: &Vec<ErrorLogEntry>,
    time: &str,
    system: &str,
) -> (r: String)
    ensures
        r@ == report_text(frontend@, backend@, time@, system@),
{
    let mut out = String::from_str("=== Omini ToolBox 错误报告 ===\n\n");
    out.append("报告时间: ");
    out.append(time);
    out.append("\n");
    out.append("系统: ");
    out.append(system);
    out.append("\n\n");
    append_section(&mut out, "--- 前端错误 ---\n", frontend, false);
    append_section(&mut out, "--- 后端错误 ---\n", backend, true);
    if frontend.len() == 0 && backend.len() == 0 {
        out.append("没有记录的错误。\n");
    }
    assert(out@ =~= report_text(frontend@, backend@, time@, system@));
    out
}

} // verus!
