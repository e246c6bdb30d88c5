use crate::text::{
    chars_of, concat, join, joined, lines, lines_of, texts, trim, trimmed,
};
use crate::error::{CliError, ErrorView};
use crate::tools::be::response_handler::{
    console_lines, file_report, BeResponseHandler, FileReport, FileReportView, HandlerView,
};
use crate::tools::{ExecutionResultView, Tool};
use vstd::prelude::*;
use vstd::utf8::encode_utf8;

verus! {

/// Asks the storage role for the pipeline tasks that run.
#[derive(Debug, Clone, Copy, PartialEq, Eq, Structural)]
pub struct PipelineTasksTool;

impl Tool for PipelineTasksTool {
    open spec fn name_text(&self) -> Seq<char> {
        "pipeline-tasks"@
    }

    open spec fn description_text(&self) -> Seq<char> {
        "Get running pipeline tasks from BE node"@
    }

    open spec fn needs_pid(&self) -> bool {
        false
    }

    fn name(&self) -> (r: String) {
        "pipeline-tasks".to_owned()
    }

    fn description(&self) -> (r: String) {
        "Get running pipeline tasks from BE node".to_owned()
    }

    fn requires_pid(&self) -> (r: bool) {
        false
    }
}

/// What the tool says about the answers of a storage node.
pub open spec fn tasks_words() -> HandlerView {
    HandlerView {
        success_message: "Pipeline tasks fetched successfully!"@,
        empty_warning: "No running pipeline tasks found."@,
        error_context: "Failed to fetch pipeline tasks"@,
        tips: "Ensure the BE service is running and accessible."@,
    }
}

/// Whether an answer is short enough for the console alone: less than a hundred
/// bytes, or three lines at most.
pub open spec fn is_short(output: Seq<char>) -> bool {
    encode_utf8(output).len() < 100 || lines_of(output).len() <= 3
}

/// What is done with the answer of a storage node about its pipeline tasks: a
/// short answer and a failure are only shown; a longer answer is kept in a file
/// of the output directory, and its first lines are shown.
pub open spec fn tasks_report(
    output_dir: Seq<char>,
    answer: Result<Seq<char>, ErrorView>,
    stamp: Seq<char>,
) -> FileReportView {
    if answer is Ok && !is_short(answer->Ok_0) {
        file_report(
            tasks_words(),
            output_dir,
            answer,
            "pipeline_tasks"@,
            stamp,
            summary_of(answer->Ok_0),
        )
    } else {
        FileReportView {
            lines: console_lines(
                tasks_words(),
                match answer {
                    Ok(output) => Ok(output),
                    Err(e) => Err(crate::error::text_of(e)),
                },
                "pipeline tasks"@,
            ),
            file: None,
            summary: None,
            result: match answer {
                Ok(_) => Ok(
                    ExecutionResultView {
                        output_path: "console_output"@,
                        message: "Query completed for: "@ + "pipeline tasks"@,
                    },
                ),
                Err(e) => Err(e),
            },
        }
    }
}

impl PipelineTasksTool {
    /// What the storage node is asked for.
    pub fn endpoint(&self) -> (r: String)
        ensures
            r@ == "/api/running_pipeline_tasks"@,
    {
        "/api/running_pipeline_tasks".to_owned()
    }

    /// What is done with the answer of a storage node about its pipeline tasks.
    pub fn execute(&self, output_dir: &str, answer: Result<String, CliError>, stamp: &str) -> (r:
        FileReport)
        ensures
            r@ == tasks_report(
                output_dir@,
                match answer {
                    Ok(t) => Ok(t@),
                    Err(e) => Err(e@),
                },
                stamp@,
            ),
    {
        let handler = BeResponseHandler {
            success_message: "Pipeline tasks fetched successfully!".to_owned(),
            empty_warning: "No running pipeline tasks found.".to_owned(),
            error_context: "Failed to fetch pipeline tasks".to_owned(),
            tips: "Ensure the BE service is running and accessible.".to_owned(),
        };
        assert(handler@ == tasks_words());
        let long = match &answer {
            Ok(output) => !fits_console(output.as_str()),
            Err(_) => false,
        };
        if long {
            let summary = match &answer {
                Ok(output) => get_summary(output.as_str()),
                Err(_) => String::new(),
            };
            handler.handle_file_result(output_dir, answer, "pipeline_tasks", stamp, summary.as_str())
        } else {
            let shown = handler.handle_console_result(answer, "pipeline tasks");
            FileReport { lines: shown.lines, file: None, summary: None, result: shown.result }
        }
    }
}

/// What is shown of an answer on the console: its first ten lines, and a note
/// where there are more; a blank answer is told as such.
pub open spec fn summary_of(data: Seq<char>) -> Seq<char> {
    let all = lines_of(data);
    if trimmed(data).len() == 0 {
        "No running pipeline tasks found."@
    } else if all.len() > 10 {
        joined(all.take(10), "\n"@) + "\n... (more content in output file)"@
    } else {
        joined(all, "\n"@)
    }
}

/// What is shown of an answer on the console.
pub fn get_summary(data: &str) -> (r: String)
    ensures
        r@ == summary_of(data@),
{
    let t = trim(data);
    if chars_of(t.as_str()).len() == 0 {
        return "No running pipeline tasks found.".to_owned();
    }
    let all = lines(data);
    if all.len() > 10 {
        let mut first: Vec<String> = Vec::new();
        let mut i: usize = 0;
        while i < 10
            invariant
                i <= 10,
                all@.len() > 10,
                first@.len() == i,
                forall|k: int| 0 <= k < i ==> first@[k]@ == all@[k]@,
            decreases 10 - i,
        {
            first.push(all[i].clone());
            i += 1;
        }
        assert(texts(first@) =~= texts(all@).take(10));
        let preview = join(&first, "\n");
        concat(preview.as_str(), "\n... (more content in output file)")
    } else {
        join(&all, "\n")
    }
}

/// Whether an answer is short enough for the console alone: less than a hundred
/// bytes, or three lines at most.
pub fn fits_console(output: &str) -> (r: bool)
    ensures
        r == is_short(output@),
{
    if output.as_bytes().len() < 100 {
        return true;
    }
    let all = lines(output);
    all.len() <= 3
}

} // verus!
