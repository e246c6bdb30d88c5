use crate::config::Config;
use crate::error::{CliError, ErrorView};
use crate::text::{
    chars_of, concat, concat3, decimal_text, i64_to_string, signed_text, u64_to_string,
};
use vstd::prelude::*;

verus! {

/// How running a tool's command went.
#[derive(Debug)]
pub enum CommandOutcome {
    /// The command could not be started; the text is the system's message.
    SpawnFailed(String),
    /// The command ran to its end.
    Exited {
        /// Whether it reported success.
        success: bool,
        /// Its exit code, where it has one.
        code: Option<i32>,
        /// What it wrote to its standard output.
        stdout: String,
        /// What it wrote to its standard error.
        stderr: String,
    },
}

/// What a `CommandOutcome` holds, as plain values.
pub enum CommandOutcomeView {
    SpawnFailed(Seq<char>),
    Exited { success: bool, code: Option<i32>, stdout: Seq<char>, stderr: Seq<char> },
}

impl View for CommandOutcome {
    type V = CommandOutcomeView;

    open spec fn view(&self) -> CommandOutcomeView {
        match self {
            CommandOutcome::SpawnFailed(e) => CommandOutcomeView::SpawnFailed(e@),
            CommandOutcome::Exited { success, code, stdout, stderr } => CommandOutcomeView::Exited {
                success: *success,
                code: *code,
                stdout: stdout@,
                stderr: stderr@,
            },
        }
    }
}

/// The exit code as it is shown: minus one where the command has none.
pub open spec fn shown_code(code: Option<i32>) -> Seq<char> {
    match code {
        Some(c) => signed_text(c as int),
        None => signed_text(-1),
    }
}

/// What is wrong with how a command went, if anything. A command that could
/// not be started failed; one that ran and did not report success failed with
/// what it wrote to its standard error, or else to its standard output, or else
/// with its exit code.
pub open spec fn command_fault(outcome: CommandOutcomeView, tool_name: Seq<char>) -> Option<
    ErrorView,
> {
    match outcome {
        CommandOutcomeView::SpawnFailed(e) => Some(
            ErrorView::ToolExecutionFailed("Failed to execute "@ + tool_name + ": "@ + e),
        ),
        CommandOutcomeView::Exited { success, code, stdout, stderr } => if success {
            None
        } else {
            let said = if stderr.len() > 0 {
                stderr
            } else if stdout.len() > 0 {
                stdout
            } else {
                "Command failed with exit code: "@ + shown_code(code)
            };
            Some(ErrorView::ToolExecutionFailed(tool_name + " failed: "@ + said))
        },
    }
}

/// The exit code as it is shown.
pub fn show_code(code: Option<i32>) -> (r: String)
    ensures
        r@ == shown_code(code),
{
    match code {
        Some(c) => i64_to_string(c as i64),
        None => i64_to_string(-1),
    }
}

/// Judges how a tool's command went: its standard output where it succeeded,
/// and the failure where it did not.
pub fn execute_command(outcome: CommandOutcome, tool_name: &str) -> (r: Result<String, CliError>)
    ensures
        match command_fault(outcome@, tool_name@) {
            Some(fault) => r is Err && r->Err_0@ == fault,
            None => r is Ok && r->Ok_0@ == outcome@->stdout,
        },
{
    match outcome {
        CommandOutcome::SpawnFailed(e) => {
            let head = concat3("Failed to execute ", tool_name, ": ");
            Err(CliError::ToolExecutionFailed(concat(head.as_str(), e.as_str())))
        },
        CommandOutcome::Exited { success, code, stdout, stderr } => {
            if success {
                return Ok(stdout);
            }
            let said = if chars_of(stderr.as_str()).len() > 0 {
                stderr
            } else if chars_of(stdout.as_str()).len() > 0 {
                stdout
            } else {
                let shown = show_code(code);
                concat("Command failed with exit code: ", shown.as_str())
            };
            Err(CliError::ToolExecutionFailed(concat3(tool_name, " failed: ", said.as_str())))
        },
    }
}

/// How running a tool's command under a timeout went.
#[derive(Debug)]
pub enum TimedOutcome {
    /// The command could not be started.
    SpawnFailed(String),
    /// Waiting for the command failed.
    WaitFailed(String),
    /// The command ended within the timeout.
    Exited { success: bool, code: Option<i32> },
    /// The timeout ran out, and the command was killed.
    TimedOut,
}

/// What a `TimedOutcome` holds, as plain values.
pub enum TimedOutcomeView {
    SpawnFailed(Seq<char>),
    WaitFailed(Seq<char>),
    Exited { success: bool, code: Option<i32> },
    TimedOut,
}

impl View for TimedOutcome {
    type V = TimedOutcomeView;

    open spec fn view(&self) -> TimedOutcomeView {
        match self {
            TimedOutcome::SpawnFailed(e) => TimedOutcomeView::SpawnFailed(e@),
            TimedOutcome::WaitFailed(e) => TimedOutcomeView::WaitFailed(e@),
            TimedOutcome::Exited { success, code } => TimedOutcomeView::Exited {
                success: *success,
                code: *code,
            },
            TimedOutcome::TimedOut => TimedOutcomeView::TimedOut,
        }
    }
}

/// What is wrong with how a command under a timeout went, if anything.
pub open spec fn timed_fault(outcome: TimedOutcomeView, tool_name: Seq<char>, timeout: u64)
    -> Option<ErrorView> {
    match outcome {
        TimedOutcomeView::SpawnFailed(e) => Some(
            ErrorView::ToolExecutionFailed("Failed to start "@ + tool_name + ": "@ + e),
        ),
        TimedOutcomeView::WaitFailed(e) => Some(
            ErrorView::ToolExecutionFailed(
                "Error waiting for "@ + tool_name + " process: "@ + e,
            ),
        ),
        TimedOutcomeView::Exited { success, code } => if success {
            None
        } else {
            Some(
                ErrorView::ToolExecutionFailed(
                    tool_name + " failed with exit code: "@ + shown_code(code),
                ),
            )
        },
        TimedOutcomeView::TimedOut => Some(
            ErrorView::ToolExecutionFailed(
                tool_name + " timed out after "@ + decimal_text(timeout as nat) + " seconds"@,
            ),
        ),
    }
}

/// Judges how a tool's command went under the timeout of the settings.
pub fn execute_command_with_timeout(outcome: TimedOutcome, tool_name: &str, config: &Config) -> (r:
    Result<(), CliError>)
    ensures
        crate::error::failure(r) == timed_fault(outcome@, tool_name@, config.timeout_seconds),
{
    match outcome {
        TimedOutcome::SpawnFailed(e) => {
            let head = concat3("Failed to start ", tool_name, ": ");
            Err(CliError::ToolExecutionFailed(concat(head.as_str(), e.as_str())))
        },
        TimedOutcome::WaitFailed(e) => {
            let head = concat3("Error waiting for ", tool_name, " process: ");
            Err(CliError::ToolExecutionFailed(concat(head.as_str(), e.as_str())))
        },
        TimedOutcome::Exited { success, code } => {
            if success {
                Ok(())
            } else {
                let shown = show_code(code);
                Err(
                    CliError::ToolExecutionFailed(
                        concat3(tool_name, " failed with exit code: ", shown.as_str()),
                    ),
                )
            }
        },
        TimedOutcome::TimedOut => {
            let n = u64_to_string(config.timeout_seconds);
            let head = concat3(tool_name, " timed out after ", n.as_str());
            Err(CliError::ToolExecutionFailed(concat(head.as_str(), " seconds")))
        },
    }
}

} // verus!
