//! Shell commands as values, and what their results mean.

use crate::error::{BootstrapError, ErrorView};
use crate::text::{concat, concat3, i32_text, owned, signed_decimal};
use vstd::prelude::*;

verus! {

/// Result of a shell command execution.
#[derive(Debug, PartialEq, Eq)]
pub struct CommandResult {
    pub stdout: String,
    pub stderr: String,
    pub success: bool,
    pub exit_code: Option<i32>,
}

/// A program to run and its arguments.
#[derive(Debug, PartialEq, Eq)]
pub struct CommandSpec {
    pub program: String,
    pub args: Vec<String>,
}

/// The text `{:?}` gives for an exit code.
pub open spec fn exit_code_text(code: Option<i32>) -> Seq<char> {
    match code {
        Some(n) => "Some("@ + signed_decimal(n as int) + ")"@,
        None => "None"@,
    }
}

/// The message of the error for a failed command.
pub open spec fn failure_message(r: CommandResult) -> Seq<char> {
    if r.stderr@.len() == 0 {
        "Exit code: "@ + exit_code_text(r.exit_code)
    } else {
        r.stderr@
    }
}

/// Debug text of an exit code.
fn exit_code_debug(code: Option<i32>) -> (r: String)
    ensures
        r@ == exit_code_text(code),
{
    match code {
        Some(n) => {
            let digits = i32_text(n);
            concat3("Some(", digits.as_str(), ")")
        },
        None => owned("None"),
    }
}

impl CommandResult {
    /// Check if the command succeeded, returning an error if not.
    pub fn ensure_success(&self, command_name: &str) -> (r: Result<&Self, BootstrapError>)
        ensures
            self.success ==> r == Ok::<&Self, BootstrapError>(self),
            !self.success ==> (r matches Err(e) && e@ == (ErrorView::CommandFailed {
                command: command_name@,
                message: failure_message(*self),
            })),
    {
        if self.success {
            Ok(self)
        } else {
            let message = if self.stderr.unicode_len() == 0 {
                let code = exit_code_debug(self.exit_code);
                concat("Exit code: ", code.as_str())
            } else {
                self.stderr.clone()
            };
            Err(BootstrapError::command_failed(command_name, message.as_str()))
        }
    }
}

/// The error for a program that could not be started: `not_found` when the
/// system did not find it, else the system's `message`.
pub fn launch_error(program: &str, not_found: bool, message: &str) -> (e: BootstrapError)
    ensures
        not_found ==> e@ == (ErrorView::CommandNotFound {
            command: program@,
            hint: "Ensure it is installed and in PATH"@,
        }),
        !not_found ==> e@ == (ErrorView::CommandFailed { command: program@, message: message@ }),
{
    if not_found {
        BootstrapError::command_not_found(program, "Ensure it is installed and in PATH")
    } else {
        BootstrapError::command_failed(program, message)
    }
}

/// The view of an argument list.
pub open spec fn arg_texts(args: Vec<String>) -> Seq<Seq<char>> {
    args@.map_values(|a: String| a@)
}

/// The views of a list of string slices.
pub open spec fn str_texts(args: Seq<&str>) -> Seq<Seq<char>> {
    args.map_values(|a: &str| a@)
}

/// A command from a program name and its arguments.
pub fn command_of(program: &str, args: Vec<&str>) -> (c: CommandSpec)
    ensures
        c.program@ == program@,
        arg_texts(c.args) == str_texts(args@),
{
    let mut out: Vec<String> = Vec::new();
    let mut i: usize = 0;
    while i < args.len()
        invariant
            i <= args@.len(),
            out@.len() == i,
            forall|k: int| 0 <= k < i ==> out@[k]@ == args@[k]@,
        decreases args@.len() - i,
    {
        out.push(owned(args[i]));
        i += 1;
    }
    assert(arg_texts(out) =~= str_texts(args@));
    CommandSpec { program: owned(program), args: out }
}

/// Run a PowerShell command.
pub fn run_powershell(script: &str) -> (c: CommandSpec)
    ensures
        c.program@ == "powershell"@,
        arg_texts(c.args) == seq!["-NoProfile"@, "-Command"@, script@],
{
    let args = vec![owned("-NoProfile"), owned("-Command"), owned(script)];
    let c = CommandSpec { program: owned("powershell"), args };
    assert(arg_texts(c.args) =~= seq!["-NoProfile"@, "-Command"@, script@]);
    c
}

/// Run a command in WSL.
pub fn run_wsl_command(distro: &str, command: &str) -> (c: CommandSpec)
    ensures
        c.program@ == "wsl"@,
        arg_texts(c.args) == seq!["-d"@, distro@, "--"@, "bash"@, "-c"@, command@],
{
    let args = vec![
        owned("-d"),
        owned(distro),
        owned("--"),
        owned("bash"),
        owned("-c"),
        owned(command),
    ];
    let c = CommandSpec { program: owned("wsl"), args };
    assert(arg_texts(c.args) =~= seq!["-d"@, distro@, "--"@, "bash"@, "-c"@, command@]);
    c
}

} // verus!
