use crate::error::CliError;
use crate::text::{chars_of, concat3, texts, trim, trimmed};
use crate::tools::be::response_handler::{
    console_lines, BeResponseHandler, ConsoleReport, HandlerView,
};
use crate::tools::{ExecutionResultView, Tool};
use vstd::prelude::*;

verus! {

/// Asks the storage role for its configuration variables.
#[derive(Debug, Clone, Copy, PartialEq, Eq, Structural)]
pub struct BeVarsTool;

impl Tool for BeVarsTool {
    open spec fn name_text(&self) -> Seq<char> {
        "get-be-vars"@
    }

    open spec fn description_text(&self) -> Seq<char> {
        "Query BE configuration variables"@
    }

    open spec fn needs_pid(&self) -> bool {
        false
    }

    fn name(&self) -> (r: String) {
        "get-be-vars".to_owned()
    }

    fn description(&self) -> (r: String) {
        "Query BE configuration variables".to_owned()
    }

    fn requires_pid(&self) -> (r: bool) {
        false
    }
}

/// What the tool says about the answers of a storage node.
pub open spec fn vars_words() -> HandlerView {
    HandlerView {
        success_message: "Query completed!"@,
        empty_warning: "No variables found matching '{}'."@,
        error_context: "Failed to query BE"@,
        tips: "Ensure the BE service is running and accessible."@,
    }
}

impl BeVarsTool {
    /// What the storage node is asked for.
    pub fn endpoint(&self) -> (r: String)
        ensures
            r@ == "/varz"@,
    {
        "/varz".to_owned()
    }

    /// What is shown and given back after a storage node was asked for the
    /// variables whose lines hold `variable_name`.
    pub fn execute(&self, answer: Result<String, CliError>, variable_name: &str) -> (r:
        ConsoleReport)
        ensures
            texts(r.lines@) == console_lines(
                vars_words(),
                match answer {
                    Ok(t) => Ok(t@),
                    Err(e) => Err(e.text()),
                },
                variable_name@,
            ),
            match answer {
                Ok(_) => r.result is Ok && r.result->Ok_0@ == (ExecutionResultView {
                    output_path: "console_output"@,
                    message: "Query completed for: "@ + variable_name@,
                }),
                Err(e) => r.result is Err && r.result->Err_0 == e,
            },
    {
        let handler = BeResponseHandler {
            success_message: "Query completed!".to_owned(),
            empty_warning: "No variables found matching '{}'.".to_owned(),
            error_context: "Failed to query BE".to_owned(),
            tips: "Ensure the BE service is running and accessible.".to_owned(),
        };
        assert(handler@ == vars_words());
        handler.handle_console_result(answer, variable_name)
    }
}

/// The name of the variable that the operator asked for: what was typed, or
/// nothing where only white space was typed.
pub fn prompt_for_variable_name(input: String) -> (r: String)
    ensures
        r@ == if trimmed(input@).len() == 0 {
            Seq::<char>::empty()
        } else {
            input@
        },
{
    let t = trim(input.as_str());
    if chars_of(t.as_str()).len() == 0 {
        String::new()
    } else {
        input
    }
}

/// What tells the operator which variables are asked for.
pub fn querying_message(variable_name: &str) -> (r: String)
    ensures
        r@ == "Querying BE for variables matching: '"@ + variable_name@ + "'"@,
{
    concat3("Querying BE for variables matching: '", variable_name, "'")
}

} // verus!
