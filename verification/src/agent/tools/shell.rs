//! The shell tool: which command line runs a command, how long it may take, and
//! what its output becomes.
use vstd::prelude::*;

use super::context::{capped_output, cuttable, truncate_output};
use crate::agent::error::AgentError;
use crate::git::wsl::WslPath;
use crate::text::{chars_of, owned, push_str, signed_decimal, signed_decimal_exec, push_all, string_of};

verus! {

broadcast use vstd::string::group_string_axioms;

/// The operating system family a command runs on.
#[derive(Debug, Clone, Copy, PartialEq, Eq, Structural)]
pub enum Platform {
    Unix,
    Windows,
}

/// A program to run, its arguments, and the directory to run it in (`None`: the
/// arguments take care of it).
#[derive(Debug, Clone)]
pub struct CommandLine {
    pub program: String,
    pub args: Vec<String>,
    pub current_dir: Option<String>,
}

/// Runs shell commands for the agent in a project directory.
#[derive(Debug, Clone)]
pub struct ShellExecutor {
    working_dir: String,
    default_timeout_secs: u64,
    wsl_path: Option<WslPath>,
}

impl ShellExecutor {
    /// The project directory.
    pub closed spec fn dir(&self) -> Seq<char> {
        self.working_dir@
    }

    /// The timeout of a command that asks for none, in seconds.
    pub closed spec fn default_timeout(&self) -> u64 {
        self.default_timeout_secs
    }

    /// The WSL location of the project, when it lives in WSL.
    pub closed spec fn wsl(&self) -> Option<(Seq<char>, Seq<char>)> {
        match self.wsl_path {
            Some(w) => Some((w.distro@, w.linux_path@)),
            None => None,
        }
    }

    /// A shell for a project directory, with a default command timeout in seconds.
    pub fn new(working_dir: String, default_timeout_secs: u64) -> (r: Self)
        ensures
            r.dir() == working_dir@,
            r.default_timeout() == default_timeout_secs,
            r.wsl() is None,
    {
        ShellExecutor { working_dir, default_timeout_secs, wsl_path: None }
    }

    /// A shell for a project directory that may live in WSL.
    pub fn with_wsl(working_dir: String, default_timeout_secs: u64, wsl_path: Option<WslPath>) -> (r:
        Self)
        ensures
            r.dir() == working_dir@,
            r.default_timeout() == default_timeout_secs,
            r.wsl() == match wsl_path {
                Some(w) => Some((w.distro@, w.linux_path@)),
                None => None,
            },
    {
        ShellExecutor { working_dir, default_timeout_secs, wsl_path }
    }

    /// The timeout of a command: the one it asks for, else the default.
    pub fn command_timeout(&self, requested: Option<u64>) -> (r: u64)
        ensures
            r == match requested {
                Some(t) => t,
                None => self.default_timeout(),
            },
    {
        match requested {
            Some(t) => t,
            None => self.default_timeout_secs,
        }
    }

    /// The command line that runs a shell command: `sh -c` in the project directory
    /// on Unix; on Windows `cmd /C` there, or, for a project in WSL, `sh -c` inside
    /// the distribution after changing to the project's Linux path.
    pub fn command_line(&self, command: &str, platform: Platform) -> (r: CommandLine)
        ensures
            platform == Platform::Unix ==> r.program@ == "sh"@ && crate::text::strings_view(
                r.args@,
            ) == seq!["-c"@, command@] && (r.current_dir matches Some(d) && d@ == self.dir()),
            platform == Platform::Windows ==> match self.wsl() {
                Some((distro, linux)) => r.program@ == "wsl.exe"@ && crate::text::strings_view(
                    r.args@,
                ) == seq![
                    "-d"@,
                    distro,
                    "sh"@,
                    "-c"@,
                    "cd '"@ + linux + "' && "@ + command@,
                ] && r.current_dir is None,
                None => r.program@ == "cmd"@ && crate::text::strings_view(r.args@) == seq![
                    "/C"@,
                    command@,
                ] && (r.current_dir matches Some(d) && d@ == self.dir()),
            },
    {
        match platform {
            Platform::Unix => {
                let mut args: Vec<String> = Vec::new();
                args.push(owned("-c"));
                args.push(owned(command));
                assert(crate::text::strings_view(args@) =~= seq!["-c"@, command@]);
                CommandLine {
                    program: owned("sh"),
                    args,
                    current_dir: Some(crate::text::copy_string(self.working_dir.as_str())),
                }
            },
            Platform::Windows => match &self.wsl_path {
                Some(wsl) => {
                    let mut script = chars_of("cd '");
                    push_str(&mut script, wsl.linux_path.as_str());
                    push_str(&mut script, "' && ");
                    push_str(&mut script, command);
                    let mut args: Vec<String> = Vec::new();
                    args.push(owned("-d"));
                    args.push(crate::text::copy_string(wsl.distro.as_str()));
                    args.push(owned("sh"));
                    args.push(owned("-c"));
                    args.push(string_of(script.as_slice()));
                    assert(crate::text::strings_view(args@) =~= seq![
                        "-d"@,
                        wsl.distro@,
                        "sh"@,
                        "-c"@,
                        "cd '"@ + wsl.linux_path@ + "' && "@ + command@,
                    ]);
                    CommandLine { program: owned("wsl.exe"), args, current_dir: None }
                },
                None => {
                    let mut args: Vec<String> = Vec::new();
                    args.push(owned("/C"));
                    args.push(owned(command));
                    assert(crate::text::strings_view(args@) =~= seq!["/C"@, command@]);
                    CommandLine {
                        program: owned("cmd"),
                        args,
                        current_dir: Some(crate::text::copy_string(self.working_dir.as_str())),
                    }
                },
            },
        }
    }
}

/// The output of a command: standard output, standard error, or both on separate
/// lines.
pub open spec fn combined_output(stdout: Seq<char>, stderr: Seq<char>) -> Seq<char> {
    if stderr.len() == 0 {
        stdout
    } else if stdout.len() == 0 {
        stderr
    } else {
        stdout + "\n"@ + stderr
    }
}

/// What a finished command gives the agent: its capped output when it succeeded;
/// else an error with its exit code (-1 when it has none) and the output.
pub fn command_outcome(stdout: &str, stderr: &str, success: bool, exit_code: Option<i32>) -> (r:
    Result<String, AgentError>)
    requires
        cuttable(combined_output(stdout@, stderr@), super::context::MAX_OUTPUT_SIZE as nat),
    ensures
        ({
            let out = capped_output(combined_output(stdout@, stderr@));
            if success {
                r matches Ok(s) && s@ == out
            } else {
                r matches Err(e) && (e matches AgentError::ToolExecutionError(m) && m@
                    == "Command failed with exit code "@ + signed_decimal(
                    match exit_code {
                        Some(c) => c as int,
                        None => -1,
                    },
                ) + ": "@ + out)
            }
        }),
{
    let combined: String = if stderr.is_empty() {
        owned(stdout)
    } else if stdout.is_empty() {
        owned(stderr)
    } else {
        let mut c = chars_of(stdout);
        push_str(&mut c, "\n");
        push_str(&mut c, stderr);
        string_of(c.as_slice())
    };
    let combined = truncate_output(combined);
    if success {
        Ok(combined)
    } else {
        let code: i64 = match exit_code {
            Some(c) => c as i64,
            None => -1,
        };
        let mut m = chars_of("Command failed with exit code ");
        let d = signed_decimal_exec(code);
        push_all(&mut m, d.as_slice());
        push_str(&mut m, ": ");
        push_str(&mut m, combined.as_str());
        Err(AgentError::ToolExecutionError(string_of(m.as_slice())))
    }
}

/// The error when a command could not be started.
pub fn spawn_failure(detail: &str) -> (r: AgentError)
    ensures
        r matches AgentError::ToolExecutionError(m) && m@ == "Failed to execute command: "@
            + detail@,
{
    let mut m = chars_of("Failed to execute command: ");
    push_str(&mut m, detail);
    AgentError::ToolExecutionError(string_of(m.as_slice()))
}

} // verus!
