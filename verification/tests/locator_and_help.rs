use bau_client::error::Error;
use bau_client::help::{help_lines, push_help, push_line};
use bau_client::locator::resolve;

#[test]
fn resolve_takes_the_override_as_it_is() {
    assert_eq!(resolve(Some("/run/bau.sock".to_string()), "/tmp/d.sock"), "/run/bau.sock");
    assert_eq!(resolve(Some(" ".to_string()), "/tmp/d.sock"), " ");
    assert_eq!(resolve(Some("relative path".to_string()), "/tmp/d.sock"), "relative path");
}

#[test]
fn resolve_falls_back_to_the_default() {
    assert_eq!(resolve(None, "/tmp/d.sock"), "/tmp/d.sock");
    assert_eq!(resolve(Some(String::new()), "/tmp/d.sock"), "/tmp/d.sock");
    assert_eq!(resolve(None, ""), "");
}

#[test]
fn help_lists_the_commands() {
    let expected: Vec<String> = [
        "",
        "Commands: ",
        "\t\tstatus, stat: Gets the current hardware status",
        "\t\tenable, e: Enable accepting bills",
        "\t\tdisable, d: Disable accepting bills",
        "\t\tstack, t: Stack a bill from escrow into storage",
        "\t\treject, r: Reject a bill from escrow",
        "\t\tquit, exit, q, x: Shutdown the client",
        "\t\thelp, h, ?: Print this help dialogue",
        "",
    ]
    .iter()
    .map(|line| line.to_string())
    .collect();
    assert_eq!(help_lines(), expected);
}

#[test]
fn help_is_added_after_what_is_there() {
    let mut lines = vec!["before".to_string()];
    push_line(&mut lines, "then");
    push_help(&mut lines);
    assert_eq!(lines.len(), 12);
    assert_eq!(lines[0], "before");
    assert_eq!(lines[1], "then");
    assert_eq!(lines[2..], help_lines()[..]);
}

#[test]
fn errors_are_described_by_kind() {
    assert_eq!(
        Error::Connection("no such file".to_string()).describe(),
        "connection error: no such file"
    );
    assert_eq!(Error::Io("broken pipe".to_string()).describe(), "I/O error: broken pipe");
    assert_eq!(Error::JsonRpc("expected value".to_string()).describe(), "expected value");
    assert_eq!(Error::JsonRpc(String::new()).describe(), "");
}
