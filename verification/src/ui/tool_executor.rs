use crate::error::{CliError, ErrorView};
use crate::text::{chars_of, concat, concat3, opt_text, same_text};
use crate::tools::{ExecutionResult};
use vstd::prelude::*;

verus! {

/// The process that a tool works on: none is needed by a tool that works on no
/// process; else the live process of the record; else the process that a
/// detection pass found.
pub open spec fn pid_for(
    needs_pid: bool,
    current: Option<u32>,
    detected: Option<u32>,
) -> Option<u32> {
    if !needs_pid {
        Some(0u32)
    } else if current is Some {
        current
    } else {
        detected
    }
}

/// The process that a tool works on; nothing where the tool needs one and none
/// runs.
pub fn resolve_pid_if_required(needs_pid: bool, current: Option<u32>, detected: &Result<
    u32,
    CliError,
>) -> (r: Option<u32>)
    ensures
        r == pid_for(
            needs_pid,
            current,
            match *detected {
                Ok(p) => Some(p),
                Err(_) => None,
            },
        ),
{
    if !needs_pid {
        return Some(0);
    }
    match current {
        Some(pid) => Some(pid),
        None => match detected {
            Ok(pid) => Some(*pid),
            Err(_) => None,
        },
    }
}

/// What tells the operator that a tool found no process to work on.
pub fn no_process_message(tool_name: &str) -> (r: String)
    ensures
        r@ == "No "@ + tool_name@ + " processes found."@,
{
    concat3("No ", tool_name, " processes found.")
}

/// What tells the operator where the output of a tool is; nothing for a tool
/// that wrote to the console.
pub open spec fn saved_note(path: Seq<char>) -> Option<Seq<char>> {
    if path.len() > 0 && path != "console_output"@ {
        Some("Output saved to: "@ + path)
    } else {
        None
    }
}

/// What tells the operator where the output of a tool is.
pub fn maybe_print_output_path(output_path: &str) -> (r: Option<String>)
    ensures
        opt_text(r) == saved_note(output_path@),
{
    if chars_of(output_path).len() > 0 && !same_text(output_path, "console_output") {
        Some(concat("Output saved to: ", output_path))
    } else {
        None
    }
}

/// What follows a run of a tool.
#[derive(Debug)]
pub enum ToolOutcome {
    /// The tool succeeded: what to tell the operator, and where its output is.
    Succeeded { message: String, saved: Option<String> },
    /// The operator left the tool; nothing failed.
    Left,
    /// The tool failed; the dialogue about the failure follows.
    Failed(CliError),
}

/// What a `ToolOutcome` holds, as plain values.
pub enum ToolOutcomeView {
    Succeeded { message: Seq<char>, saved: Option<Seq<char>> },
    Left,
    Failed(ErrorView),
}

impl View for ToolOutcome {
    type V = ToolOutcomeView;

    open spec fn view(&self) -> ToolOutcomeView {
        match self {
            ToolOutcome::Succeeded { message, saved } => ToolOutcomeView::Succeeded {
                message: message@,
                saved: opt_text(*saved),
            },
            ToolOutcome::Left => ToolOutcomeView::Left,
            ToolOutcome::Failed(e) => ToolOutcomeView::Failed(e@),
        }
    }
}

/// What tells the operator that a tool starts.
pub fn executing_message(tool_name: &str) -> (r: String)
    ensures
        r@ == "Executing "@ + tool_name@ + "..."@,
{
    concat3("Executing ", tool_name, "...")
}

/// What follows a run of a tool, from what the run gave.
pub fn execute_tool_enhanced(result: Result<ExecutionResult, CliError>) -> (r: ToolOutcome)
    ensures
        r@ == match result {
            Ok(done) => ToolOutcomeView::Succeeded {
                message: done@.message,
                saved: saved_note(done@.output_path),
            },
            Err(e) => if e is GracefulExit {
                ToolOutcomeView::Left
            } else {
                ToolOutcomeView::Failed(e@)
            },
        },
{
    match result {
        Ok(done) => {
            let saved = maybe_print_output_path(done.output_path.as_str());
            ToolOutcome::Succeeded { message: done.message, saved }
        },
        Err(CliError::GracefulExit) => ToolOutcome::Left,
        Err(e) => ToolOutcome::Failed(e),
    }
}

} // verus!
