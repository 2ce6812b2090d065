//! The summary of commands that the interactive mode shows.

use vstd::prelude::*;
use vstd::string::*;

verus! {

/// Texts as contracts see them.
pub open spec fn lines_view(lines: Seq<String>) -> Seq<Seq<char>> {
    lines.map_values(|line: String| line@)
}

/// The lines of the summary, from top to bottom.
pub open spec fn help_text() -> Seq<Seq<char>> {
    seq![
        ""@,
        "Commands: "@,
        "\t\tstatus, stat: Gets the current hardware status"@,
        "\t\tenable, e: Enable accepting bills"@,
        "\t\tdisable, d: Disable accepting bills"@,
        "\t\tstack, t: Stack a bill from escrow into storage"@,
        "\t\treject, r: Reject a bill from escrow"@,
        "\t\tquit, exit, q, x: Shutdown the client"@,
        "\t\thelp, h, ?: Print this help dialogue"@,
        ""@,
    ]
}

/// Adds `line` to `lines`.
pub fn push_line(lines: &mut Vec<String>, line: &str)
    ensures
        lines_view(final(lines)@) == lines_view(old(lines)@).push(line@),
{
    lines.push(String::from_str(line));
}

/// Adds the lines of the summary to `lines`.
pub fn push_help(lines: &mut Vec<String>)
    ensures
        lines_view(final(lines)@) == lines_view(old(lines)@) + help_text(),
{
    push_line(lines, "");
    push_line(lines, "Commands: ");
    push_line(lines, "\t\tstatus, stat: Gets the current hardware status");
    push_line(lines, "\t\tenable, e: Enable accepting bills");
    push_line(lines, "\t\tdisable, d: Disable accepting bills");
    push_line(lines, "\t\tstack, t: Stack a bill from escrow into storage");
    push_line(lines, "\t\treject, r: Reject a bill from escrow");
    push_line(lines, "\t\tquit, exit, q, x: Shutdown the client");
    push_line(lines, "\t\thelp, h, ?: Print this help dialogue");
    push_line(lines, "");
}

/// The lines of the summary, from top to bottom.
pub fn help_lines() -> (lines: Vec<String>)
    ensures
        lines_view(lines@) == help_text(),
{
    let mut lines: Vec<String> = Vec::new();
    push_help(&mut lines);
    lines
}

} // verus!
