use crate::error::{text_of, CliError, ErrorView};
use crate::text::{
    chars_of, concat, concat3, join, join_path, joined, opt_text, path_join, replace, replace_all,
    slice_chars, split_whitespace, string_of, texts, to_lowercase, to_uppercase, trim, trimmed,
    unicode_lowercase, unicode_uppercase, words_of,
};
use crate::tools::{ExecutionResult, ExecutionResultView};
use crate::ui::{error_mark, info_mark, print_error, print_info, print_success, print_warning,
    success_mark, warning_mark};
use vstd::prelude::*;

verus! {

/// What to say about the answers of a storage node.
#[derive(Debug)]
pub struct BeResponseHandler {
    pub success_message: String,
    /// What to say of an empty answer; `{}` stands for what was asked for.
    pub empty_warning: String,
    pub error_context: String,
    pub tips: String,
}

/// What a `BeResponseHandler` holds, as plain values.
pub struct HandlerView {
    pub success_message: Seq<char>,
    pub empty_warning: Seq<char>,
    pub error_context: Seq<char>,
    pub tips: Seq<char>,
}

impl View for BeResponseHandler {
    type V = HandlerView;

    open spec fn view(&self) -> HandlerView {
        HandlerView {
            success_message: self.success_message@,
            empty_warning: self.empty_warning@,
            error_context: self.error_context@,
            tips: self.tips@,
        }
    }
}

/// What is shown of an answer, and what the tool gives back.
#[derive(Debug)]
pub struct ConsoleReport {
    /// The lines to show, in order.
    pub lines: Vec<String>,
    pub result: Result<ExecutionResult, CliError>,
}

/// What is done with an answer that is kept in a file.
#[derive(Debug)]
pub struct FileReport {
    /// The lines to show first, in order.
    pub lines: Vec<String>,
    /// The file in which the answer is to be kept, where it is to be kept.
    pub file: Option<String>,
    /// What to show once the answer is kept.
    pub summary: Option<String>,
    /// What the tool gives back, once the answer is kept where it is to be.
    pub result: Result<ExecutionResult, CliError>,
}

/// What a `FileReport` holds, as plain values.
pub struct FileReportView {
    pub lines: Seq<Seq<char>>,
    pub file: Option<Seq<char>>,
    pub summary: Option<Seq<char>>,
    pub result: Result<ExecutionResultView, ErrorView>,
}

impl View for FileReport {
    type V = FileReportView;

    open spec fn view(&self) -> FileReportView {
        FileReportView {
            lines: texts(self.lines@),
            file: opt_text(self.file),
            summary: opt_text(self.summary),
            result: match self.result {
                Ok(done) => Ok(done@),
                Err(e) => Err(e@),
            },
        }
    }
}

/// What is done with an answer that is kept in a file.
pub open spec fn file_report(
    handler: HandlerView,
    output_dir: Seq<char>,
    answer: Result<Seq<char>, ErrorView>,
    file_prefix: Seq<char>,
    stamp: Seq<char>,
    summary: Seq<char>,
) -> FileReportView {
    let head = seq![
        success_mark() + " "@ + handler.success_message,
        seq![],
        info_mark() + " "@ + "Results:"@,
    ];
    match answer {
        Ok(output) => if trimmed(output).len() == 0 {
            FileReportView {
                lines: head.push(warning_mark() + " "@ + handler.empty_warning),
                file: None,
                summary: None,
                result: Ok(
                    ExecutionResultView {
                        output_path: "console_output"@,
                        message: "No data found"@,
                    },
                ),
            }
        } else {
            let path = path_join(output_dir, file_prefix + "_"@ + stamp + ".txt"@);
            FileReportView {
                lines: head,
                file: Some(path),
                summary: Some(summary),
                result: Ok(
                    ExecutionResultView {
                        output_path: path,
                        message: saved_text(file_prefix, path),
                    },
                ),
            }
        },
        Err(e) => FileReportView {
            lines: seq![
                error_mark() + " "@ + (handler.error_context + ": "@ + text_of(e) + "."@),
                info_mark() + " "@ + ("Tips: "@ + handler.tips),
            ],
            file: None,
            summary: None,
            result: Err(e),
        },
    }
}

/// The lines that are shown of an answer that is only shown.
pub open spec fn console_lines(
    handler: HandlerView,
    answer: Result<Seq<char>, Seq<char>>,
    context: Seq<char>,
) -> Seq<Seq<char>> {
    match answer {
        Ok(output) => seq![
            success_mark() + " "@ + handler.success_message,
            seq![],
            info_mark() + " "@ + "Results:"@,
            if output.len() == 0 {
                warning_mark() + " "@ + replace_all(handler.empty_warning, "{}"@, context)
            } else {
                output
            },
        ],
        Err(said) => seq![
            error_mark() + " "@ + (handler.error_context + ": "@ + said + "."@),
            info_mark() + " "@ + ("Tips: "@ + handler.tips),
        ],
    }
}

/// A word with its first character in upper case and the rest in lower case.
pub open spec fn title_word(w: Seq<char>) -> Seq<char> {
    if w.len() == 0 {
        w
    } else {
        unicode_uppercase(w.take(1)) + unicode_lowercase(w.skip(1))
    }
}

/// The words of a text, each with its first character in upper case and the rest
/// in lower case, with one blank between them.
pub open spec fn title_cased(s: Seq<char>) -> Seq<char> {
    joined(Seq::new(words_of(s).len(), |i: int| title_word(words_of(s)[i])), " "@)
}

/// The words of a text, each with its first character in upper case and the rest
/// in lower case, with one blank between them.
pub fn to_title_case(s: &str) -> (r: String)
    ensures
        r@ == title_cased(s@),
{
    let words = split_whitespace(s);
    let ghost all = words_of(s@);
    let mut out: Vec<String> = Vec::new();
    let mut i: usize = 0;
    while i < words.len()
        invariant
            i <= words.len(),
            texts(words@) == all,
            out@.len() == i,
            forall|k: int| 0 <= k < i ==> (#[trigger] out@[k])@ == title_word(all[k]),
        decreases words.len() - i,
    {
        let v = chars_of(words[i].as_str());
        assert(v@ == all[i as int]);
        let word = if v.len() == 0 {
            String::new()
        } else {
            let first = string_of(&slice_chars(&v, 0, 1));
            let rest = string_of(&slice_chars(&v, 1, v.len()));
            concat(to_uppercase(first.as_str()).as_str(), to_lowercase(rest.as_str()).as_str())
        };
        assert(word@ =~= title_word(all[i as int]));
        out.push(word);
        i += 1;
    }
    assert(texts(out@) =~= Seq::new(all.len(), |i: int| title_word(all[i])));
    join(&out, " ")
}

/// What is said of an answer that was kept in a file: what the prefix of the
/// file's name stands for, and where the file is.
pub open spec fn saved_text(file_prefix: Seq<char>, path: Seq<char>) -> Seq<char> {
    title_cased(replace_all(file_prefix, "_"@, " "@)) + " saved to "@ + path
}

impl BeResponseHandler {
    /// Shows an answer on the console: the answer itself, or a warning where it
    /// is empty; a failure is shown with a tip, and handed on.
    pub fn handle_console_result(&self, result: Result<String, CliError>, context: &str) -> (r:
        ConsoleReport)
        ensures
            texts(r.lines@) == console_lines(
                self@,
                match result {
                    Ok(t) => Ok(t@),
                    Err(e) => Err(e.text()),
                },
                context@,
            ),
            match result {
                Ok(_) => r.result is Ok && r.result->Ok_0@ == (ExecutionResultView {
                    output_path: "console_output"@,
                    message: "Query completed for: "@ + context@,
                }),
                Err(e) => r.result is Err && r.result->Err_0 == e,
            },
    {
        let mut lines: Vec<String> = Vec::new();
        match result {
            Ok(output) => {
                lines.push(print_success(self.success_message.as_str()));
                lines.push(String::new());
                lines.push(print_info("Results:"));
                if chars_of(output.as_str()).len() == 0 {
                    proof {
                        reveal_strlit("{}");
                    }
                    let warning = replace(self.empty_warning.as_str(), "{}", context);
                    lines.push(print_warning(warning.as_str()));
                } else {
                    lines.push(output);
                }
                assert(texts(lines@) =~= console_lines(self@, Ok(output@), context@));
                ConsoleReport {
                    lines,
                    result: Ok(
                        ExecutionResult {
                            output_path: "console_output".to_owned(),
                            message: concat("Query completed for: ", context),
                        },
                    ),
                }
            },
            Err(e) => {
                let said = e.message();
                let text = concat3(self.error_context.as_str(), ": ", said.as_str());
                let full = concat(text.as_str(), ".");
                lines.push(print_error(full.as_str()));
                let tip = concat("Tips: ", self.tips.as_str());
                lines.push(print_info(tip.as_str()));
                assert(texts(lines@) =~= console_lines(self@, Err(e.text()), context@));
                ConsoleReport { lines, result: Err(e) }
            },
        }
    }

    /// What is done with an answer that is kept in a file: a blank answer is
    /// only warned of; any other is kept in a file of the output directory named
    /// after the prefix and the time, and `summary` is shown of it; a failure
    /// is shown with a tip, and handed on.
    pub fn handle_file_result(
        &self,
        output_dir: &str,
        result: Result<String, CliError>,
        file_prefix: &str,
        stamp: &str,
        summary: &str,
    ) -> (r: FileReport)
        ensures
            r@ == file_report(
                self@,
                output_dir@,
                match result {
                    Ok(t) => Ok(t@),
                    Err(e) => Err(e@),
                },
                file_prefix@,
                stamp@,
                summary@,
            ),
    {
        let mut lines: Vec<String> = Vec::new();
        match result {
            Ok(output) => {
                lines.push(print_success(self.success_message.as_str()));
                lines.push(String::new());
                lines.push(print_info("Results:"));
                let t = trim(output.as_str());
                if chars_of(t.as_str()).len() == 0 {
                    lines.push(print_warning(self.empty_warning.as_str()));
                    let report = FileReport {
                        lines,
                        file: None,
                        summary: None,
                        result: Ok(
                            ExecutionResult {
                                output_path: "console_output".to_owned(),
                                message: "No data found".to_owned(),
                            },
                        ),
                    };
                    assert(report@.lines =~= file_report(
                        self@,
                        output_dir@,
                        Ok(output@),
                        file_prefix@,
                        stamp@,
                        summary@,
                    ).lines);
                    report
                } else {
                    let head = concat3(file_prefix, "_", stamp);
                    let name = concat(head.as_str(), ".txt");
                    let path = join_path(output_dir, name.as_str());
                    let message = self.saved_message(file_prefix, path.as_str());
                    let report = FileReport {
                        lines,
                        file: Some(path.clone()),
                        summary: Some(summary.to_owned()),
                        result: Ok(ExecutionResult { output_path: path, message }),
                    };
                    assert(report@.lines =~= file_report(
                        self@,
                        output_dir@,
                        Ok(output@),
                        file_prefix@,
                        stamp@,
                        summary@,
                    ).lines);
                    report
                }
            },
            Err(e) => {
                let said = e.message();
                let text = concat3(self.error_context.as_str(), ": ", said.as_str());
                let full = concat(text.as_str(), ".");
                lines.push(print_error(full.as_str()));
                let tip = concat("Tips: ", self.tips.as_str());
                lines.push(print_info(tip.as_str()));
                let report = FileReport { lines, file: None, summary: None, result: Err(e) };
                assert(report@.lines =~= file_report(
                    self@,
                    output_dir@,
                    Err(e@),
                    file_prefix@,
                    stamp@,
                    summary@,
                ).lines);
                report
            },
        }
    }

    /// What is said of an answer that was kept in the file `path`.
    pub fn saved_message(&self, file_prefix: &str, path: &str) -> (r: String)
        ensures
            r@ == saved_text(file_prefix@, path@),
    {
        proof {
            reveal_strlit("_");
        }
        let spaced = replace(file_prefix, "_", " ");
        let title = to_title_case(spaced.as_str());
        concat3(title.as_str(), " saved to ", path)
    }
}

} // verus!
