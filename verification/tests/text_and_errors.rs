use dev_machine::error::BootstrapError;
use dev_machine::text::{i32_text, less_than, line_is, replace_char, strip_nul, trim, usize_text};
use dev_machine::utils::shell::{command_of, launch_error, run_powershell, run_wsl_command, CommandResult};

#[test]
fn trim_removes_surrounding_whitespace() {
    assert_eq!(trim("  /home/dev \r\n"), "/home/dev");
    assert_eq!(trim("\t\n "), "");
    assert_eq!(trim("a b"), "a b");
}

#[test]
fn line_is_matches_whole_trimmed_lines() {
    assert!(line_is("Debian\r\nUbuntu-24.04\r\n", "Ubuntu-24.04"));
    assert!(line_is("  Ubuntu-24.04  ", "Ubuntu-24.04"));
    assert!(line_is("a\nb", "b"));
    assert!(!line_is("U-1\r\n", "U"));
    assert!(!line_is("Ubuntu-24.04-dev\n", "Ubuntu-24.04"));
    assert!(!line_is("Ubuntu\n24.04", "Ubuntu 24.04"));
    assert!(line_is("x\n\n", ""));
}

#[test]
fn strip_nul_drops_nul_characters() {
    assert_eq!(strip_nul("U\0b\0u\0n\0t\0u\0"), "Ubuntu");
    assert_eq!(strip_nul("plain"), "plain");
}

#[test]
fn replace_char_replaces_every_occurrence() {
    assert_eq!(replace_char("\\Users\\dev\\x", '\\', '/'), "/Users/dev/x");
    assert_eq!(replace_char("none", '\\', '/'), "none");
}

#[test]
fn decimal_texts() {
    assert_eq!(usize_text(0), "0");
    assert_eq!(usize_text(1234), "1234");
    assert_eq!(i32_text(-17), "-17");
    assert_eq!(i32_text(i32::MIN), "-2147483648");
    assert_eq!(i32_text(42), "42");
}

#[test]
fn less_than_is_string_order() {
    assert!(less_than("ms-python.python", "ms-vscode.cpptools"));
    assert!(less_than("a", "ab"));
    assert!(!less_than("ab", "ab"));
    assert!(!less_than("b", "a"));
    assert_eq!(less_than("Zed", "alpha"), "Zed" < "alpha");
}

#[test]
fn error_messages() {
    assert_eq!(BootstrapError::Config("bad".to_string()).message(), "Configuration error: bad");
    assert_eq!(
        BootstrapError::io("C:\\x", "access denied").message(),
        "IO error at path 'C:\\x': access denied"
    );
    assert_eq!(
        BootstrapError::command_failed("git", "boom").message(),
        "Command 'git' failed: boom"
    );
    assert_eq!(
        BootstrapError::command_not_found("winget", "Install it.").message(),
        "Command 'winget' not found. Install it."
    );
    assert_eq!(BootstrapError::Json("eof".to_string()).message(), "JSON parsing error: eof");
    assert_eq!(BootstrapError::Wsl("down".to_string()).message(), "WSL error: down");
    assert_eq!(
        BootstrapError::component("VS Code", "broken").message(),
        "Component 'VS Code' error: broken"
    );
    assert_eq!(BootstrapError::Path("nowhere".to_string()).message(), "Path error: nowhere");
}

#[test]
fn error_clone_is_equal() {
    let e = BootstrapError::command_failed("wsl", "exit 1");
    assert_eq!(e.clone(), e);
}

fn result(success: bool, stderr: &str, exit_code: Option<i32>) -> CommandResult {
    CommandResult { stdout: String::new(), stderr: stderr.to_string(), success, exit_code }
}

#[test]
fn ensure_success_passes_successful_commands() {
    let r = result(true, "", Some(0));
    assert!(r.ensure_success("git").is_ok());
}

#[test]
fn ensure_success_reports_stderr() {
    let r = result(false, "fatal: not a repo", Some(128));
    let e = r.ensure_success("git").unwrap_err();
    assert_eq!(e, BootstrapError::command_failed("git", "fatal: not a repo"));
    assert_eq!(e.message(), "Command 'git' failed: fatal: not a repo");
}

#[test]
fn ensure_success_reports_exit_code() {
    let e = result(false, "", Some(1)).ensure_success("winget").unwrap_err();
    assert_eq!(e.message(), "Command 'winget' failed: Exit code: Some(1)");
    let e = result(false, "", None).ensure_success("winget").unwrap_err();
    assert_eq!(e.message(), "Command 'winget' failed: Exit code: None");
    let e = result(false, "", Some(-3)).ensure_success("x").unwrap_err();
    assert_eq!(e.message(), "Command 'x' failed: Exit code: Some(-3)");
}

#[test]
fn commands_are_built_from_their_parts() {
    let c = command_of("winget", vec!["source", "update"]);
    assert_eq!(c.program, "winget");
    assert_eq!(c.args, vec!["source".to_string(), "update".to_string()]);
    let p = run_powershell("Get-Date");
    assert_eq!(p.program, "powershell");
    assert_eq!(p.args, vec!["-NoProfile", "-Command", "Get-Date"]);
    let w = run_wsl_command("Ubuntu-24.04", "echo $HOME");
    assert_eq!(w.program, "wsl");
    assert_eq!(w.args, vec!["-d", "Ubuntu-24.04", "--", "bash", "-c", "echo $HOME"]);
}

#[test]
fn launch_errors() {
    assert_eq!(
        launch_error("winget", true, "program not found").message(),
        "Command 'winget' not found. Ensure it is installed and in PATH"
    );
    assert_eq!(launch_error("git", false, "Access is denied.").message(), "Command 'git' failed: Access is denied.");
}
