use crate::config_loader::regex_utils::{first_captures, group_of, regex_captures};
use crate::error::CliError;
use crate::text::{concat, concat3, pad_right, padded_right, parse_u64, texts, unsigned_of};
use crate::tools::be::response_handler::ConsoleReport;
use crate::tools::common::format_utils::{bytes_text, format_bytes};
use crate::tools::fe::table_info::ops::opt_groups;
use crate::tools::{ExecutionResult, ExecutionResultView, Tool};
use crate::ui::{error_mark, info_mark, print_error, print_info, print_success, success_mark};
use vstd::prelude::*;

verus! {

/// Asks the storage role for its allocator's memory figures.
#[derive(Debug, Clone, Copy, PartialEq, Eq, Structural)]
pub struct MemzTool;

impl Tool for MemzTool {
    open spec fn name_text(&self) -> Seq<char> {
        "memz"@
    }

    open spec fn description_text(&self) -> Seq<char> {
        "Analyze Jemalloc memory usage in BE"@
    }

    open spec fn needs_pid(&self) -> bool {
        false
    }

    fn name(&self) -> (r: String) {
        "memz".to_owned()
    }

    fn description(&self) -> (r: String) {
        "Analyze Jemalloc memory usage in BE".to_owned()
    }

    fn requires_pid(&self) -> (r: bool) {
        false
    }
}

/// Asks the storage role for its memory figures as a whole.
#[derive(Debug, Clone, Copy, PartialEq, Eq, Structural)]
pub struct MemzGlobalTool;

impl Tool for MemzGlobalTool {
    open spec fn name_text(&self) -> Seq<char> {
        "memz-global"@
    }

    open spec fn description_text(&self) -> Seq<char> {
        "Analyze global memory usage in BE"@
    }

    open spec fn needs_pid(&self) -> bool {
        false
    }

    fn name(&self) -> (r: String) {
        "memz-global".to_owned()
    }

    fn description(&self) -> (r: String) {
        "Analyze global memory usage in BE".to_owned()
    }

    fn requires_pid(&self) -> (r: bool) {
        false
    }
}

/// The memory figures of a storage node, in bytes; a figure that the node's
/// answer does not hold is not known.
#[derive(Debug, Clone, Copy, PartialEq, Eq, Structural)]
pub struct MemoryMetrics {
    pub allocated: Option<u64>,
    pub active: Option<u64>,
    pub metadata: Option<u64>,
    pub resident: Option<u64>,
    pub mapped: Option<u64>,
    pub retained: Option<u64>,
    pub thread_cache: Option<u64>,
    pub dirty_pages: Option<u64>,
}

/// The pattern of the line with the allocator's main figures.
pub open spec fn figures_pattern() -> Seq<char> {
    "Allocated: (\\d+), active: (\\d+), metadata: (\\d+).*?, resident: (\\d+), mapped: (\\d+), retained: (\\d+)"@
}

/// The pattern of the figure of the thread caches.
pub open spec fn thread_cache_pattern() -> Seq<char> {
    "tcache_bytes:\\s+(\\d+)"@
}

/// The pattern of the figure of the dirty pages.
pub open spec fn dirty_pages_pattern() -> Seq<char> {
    "dirty:\\s+N/A\\s+\\d+\\s+\\d+\\s+\\d+\\s+(\\d+)"@
}

/// The number of bytes that a captured figure writes.
pub open spec fn figure_of(captured: Option<Seq<char>>) -> Option<u64> {
    match captured {
        Some(t) => match unsigned_of(t, 0xFFFF_FFFF_FFFF_FFFF) {
            Some(n) => Some(n as u64),
            None => None,
        },
        None => None,
    }
}

/// The memory figures, given what the three patterns matched. The main figures
/// count only where the match has all six of them.
pub open spec fn metrics_from(
    figures: Option<Seq<Option<Seq<char>>>>,
    thread_cache: Option<Seq<Option<Seq<char>>>>,
    dirty_pages: Option<Seq<Option<Seq<char>>>>,
) -> MemoryMetrics {
    let main = match figures {
        Some(g) => if g.len() > 6 {
            figures
        } else {
            None
        },
        None => None,
    };
    MemoryMetrics {
        allocated: figure_of(group_of(main, 1)),
        active: figure_of(group_of(main, 2)),
        metadata: figure_of(group_of(main, 3)),
        resident: figure_of(group_of(main, 4)),
        mapped: figure_of(group_of(main, 5)),
        retained: figure_of(group_of(main, 6)),
        thread_cache: figure_of(group_of(thread_cache, 1)),
        dirty_pages: figure_of(group_of(dirty_pages, 1)),
    }
}

/// The number of bytes that group `i` of a match writes.
fn figure(m: &Option<Vec<Option<String>>>, i: usize) -> (r: Option<u64>)
    ensures
        r == figure_of(group_of(opt_groups(*m), i as int)),
{
    match m {
        Some(groups) => {
            if i < groups.len() {
                match &groups[i] {
                    Some(t) => parse_u64(t.as_str()),
                    None => None,
                }
            } else {
                None
            }
        },
        None => None,
    }
}

/// The memory figures, given what the three patterns matched.
pub fn metrics_from_matches(
    figures: &Option<Vec<Option<String>>>,
    thread_cache: &Option<Vec<Option<String>>>,
    dirty_pages: &Option<Vec<Option<String>>>,
) -> (r: MemoryMetrics)
    ensures
        r == metrics_from(opt_groups(*figures), opt_groups(*thread_cache), opt_groups(*dirty_pages)),
{
    let complete = match figures {
        Some(g) => g.len() > 6,
        None => false,
    };
    let none: Option<Vec<Option<String>>> = None;
    let main = if complete {
        figures
    } else {
        &none
    };
    MemoryMetrics {
        allocated: figure(main, 1),
        active: figure(main, 2),
        metadata: figure(main, 3),
        resident: figure(main, 4),
        mapped: figure(main, 5),
        retained: figure(main, 6),
        thread_cache: figure(thread_cache, 1),
        dirty_pages: figure(dirty_pages, 1),
    }
}

/// The memory figures in the answer of a storage node.
pub fn extract_memory_metrics(html_content: &str) -> (r: MemoryMetrics)
    ensures
        r == metrics_from(
            regex_captures(figures_pattern(), html_content@),
            regex_captures(thread_cache_pattern(), html_content@),
            regex_captures(dirty_pages_pattern(), html_content@),
        ),
{
    let figures = first_captures(
        "Allocated: (\\d+), active: (\\d+), metadata: (\\d+).*?, resident: (\\d+), mapped: (\\d+), retained: (\\d+)",
        html_content,
    );
    let thread_cache = first_captures("tcache_bytes:\\s+(\\d+)", html_content);
    let dirty_pages = first_captures(
        "dirty:\\s+N/A\\s+\\d+\\s+\\d+\\s+\\d+\\s+(\\d+)",
        html_content,
    );
    metrics_from_matches(&figures, &thread_cache, &dirty_pages)
}

/// A memory figure as it is shown: in the unit it reaches, with two digits
/// behind the point and the count of bytes behind that; or that it is not known.
pub open spec fn metric_text(value: Option<u64>) -> Seq<char> {
    match value {
        Some(bytes) => bytes_text(bytes, 2, true),
        None => "Unknown"@,
    }
}

/// A row of the table of memory figures.
pub open spec fn metric_row(name: Seq<char>, value: Option<u64>) -> Seq<char> {
    "│ "@ + padded_right(name, 17) + " │ "@ + padded_right(metric_text(value), 34) + " │\n"@
}

/// The table of the memory figures of a storage node.
pub open spec fn table_text(m: MemoryMetrics) -> Seq<char> {
    " Key Memory Metrics:\n"@ + "┌───────────────────┬────────────────────────────────────┐\n"@
        + "│ Metric            │ Value                              │\n"@
        + "├───────────────────┼────────────────────────────────────┤\n"@ + metric_row(
        "Allocated"@,
        m.allocated,
    ) + metric_row("Active"@, m.active) + metric_row("Metadata"@, m.metadata) + metric_row(
        "Resident"@,
        m.resident,
    ) + metric_row("Mapped"@, m.mapped) + metric_row("Retained"@, m.retained) + metric_row(
        "Thread Cache"@,
        m.thread_cache,
    ) + metric_row("Dirty Pages"@, m.dirty_pages)
        + "└───────────────────┴────────────────────────────────────┘"@
}

/// A row of the table of memory figures.
fn row_of(name: &str, value: Option<u64>) -> (r: String)
    ensures
        r@ == metric_row(name@, value),
{
    let shown = match value {
        Some(bytes) => format_bytes(bytes, 2, true),
        None => "Unknown".to_owned(),
    };
    let left = concat3("│ ", pad_right(name, 17).as_str(), " │ ");
    concat3(left.as_str(), pad_right(shown.as_str(), 34).as_str(), " │\n")
}

/// The table of the memory figures of a storage node.
pub fn metrics_table(m: &MemoryMetrics) -> (r: String)
    ensures
        r@ == table_text(*m),
{
    let mut table = " Key Memory Metrics:\n".to_owned();
    table.append("┌───────────────────┬────────────────────────────────────┐\n");
    table.append("│ Metric            │ Value                              │\n");
    table.append("├───────────────────┼────────────────────────────────────┤\n");
    table.append(row_of("Allocated", m.allocated).as_str());
    table.append(row_of("Active", m.active).as_str());
    table.append(row_of("Metadata", m.metadata).as_str());
    table.append(row_of("Resident", m.resident).as_str());
    table.append(row_of("Mapped", m.mapped).as_str());
    table.append(row_of("Retained", m.retained).as_str());
    table.append(row_of("Thread Cache", m.thread_cache).as_str());
    table.append(row_of("Dirty Pages", m.dirty_pages).as_str());
    table.append("└───────────────────┴────────────────────────────────────┘");
    table
}

/// What the two tools say, each in its own words: the one of the allocator, the
/// other of the memory of the whole process.
pub open spec fn words(global: bool) -> (Seq<char>, Seq<char>, Seq<char>) {
    if global {
        (
            "Global memory metrics fetched successfully!"@,
            "Global memory profile saved to "@,
            "Failed to fetch global memory metrics: "@,
        )
    } else {
        (
            "Memory metrics fetched successfully!"@,
            "Jemalloc memory profile saved to "@,
            "Failed to fetch memory metrics: "@,
        )
    }
}

/// What is shown of the answer of a storage node, which was kept in the file
/// `path`: the table of its memory figures; or the failure, with a tip.
pub open spec fn memory_lines(global: bool, answer: Result<MemoryMetrics, Seq<char>>) -> Seq<
    Seq<char>,
> {
    match answer {
        Ok(m) => seq![
            success_mark() + " "@ + words(global).0,
            seq![],
            info_mark() + " "@ + "Results:"@,
            table_text(m),
        ],
        Err(said) => seq![
            error_mark() + " "@ + (words(global).2 + said + "."@),
            info_mark() + " "@ + "Tips: Ensure the BE service is running and accessible."@,
        ],
    }
}

/// What is shown and given back after a storage node was asked for its memory.
fn memory_report(global: bool, answer: Result<String, CliError>, path: &str) -> (r: ConsoleReport)
    ensures
        texts(r.lines@) == memory_lines(
            global,
            match answer {
                Ok(html) => Ok(
                    metrics_from(
                        regex_captures(figures_pattern(), html@),
                        regex_captures(thread_cache_pattern(), html@),
                        regex_captures(dirty_pages_pattern(), html@),
                    ),
                ),
                Err(e) => Err(e.text()),
            },
        ),
        match answer {
            Ok(_) => r.result is Ok && r.result->Ok_0@ == (ExecutionResultView {
                output_path: path@,
                message: words(global).1 + path@,
            }),
            Err(e) => r.result is Err && r.result->Err_0 == e,
        },
{
    let (fetched, saved, failed) = if global {
        (
            "Global memory metrics fetched successfully!",
            "Global memory profile saved to ",
            "Failed to fetch global memory metrics: ",
        )
    } else {
        (
            "Memory metrics fetched successfully!",
            "Jemalloc memory profile saved to ",
            "Failed to fetch memory metrics: ",
        )
    };
    let mut lines: Vec<String> = Vec::new();
    match answer {
        Ok(html) => {
            let metrics = extract_memory_metrics(html.as_str());
            lines.push(print_success(fetched));
            lines.push(String::new());
            lines.push(print_info("Results:"));
            lines.push(metrics_table(&metrics));
            assert(texts(lines@) =~= memory_lines(global, Ok(metrics)));
            ConsoleReport {
                lines,
                result: Ok(
                    ExecutionResult { output_path: path.to_owned(), message: concat(saved, path) },
                ),
            }
        },
        Err(e) => {
            let said = concat3(failed, e.message().as_str(), ".");
            lines.push(print_error(said.as_str()));
            lines.push(print_info("Tips: Ensure the BE service is running and accessible."));
            assert(texts(lines@) =~= memory_lines(global, Err(e.text())));
            ConsoleReport { lines, result: Err(e) }
        },
    }
}

impl MemzTool {
    /// What the storage node is asked for.
    pub fn endpoint(&self) -> (r: String)
        ensures
            r@ == "/memz"@,
    {
        "/memz".to_owned()
    }

    /// What is shown and given back after a storage node was asked for the
    /// memory of its allocator; an answer was kept in the file `path`.
    pub fn execute(&self, answer: Result<String, CliError>, path: &str) -> (r: ConsoleReport)
        ensures
            texts(r.lines@) == memory_lines(
                false,
                match answer {
                    Ok(html) => Ok(
                        metrics_from(
                            regex_captures(figures_pattern(), html@),
                            regex_captures(thread_cache_pattern(), html@),
                            regex_captures(dirty_pages_pattern(), html@),
                        ),
                    ),
                    Err(e) => Err(e.text()),
                },
            ),
            match answer {
                Ok(_) => r.result is Ok && r.result->Ok_0@ == (ExecutionResultView {
                    output_path: path@,
                    message: words(false).1 + path@,
                }),
                Err(e) => r.result is Err && r.result->Err_0 == e,
            },
    {
        memory_report(false, answer, path)
    }
}

impl MemzGlobalTool {
    /// What the storage node is asked for.
    pub fn endpoint(&self) -> (r: String)
        ensures
            r@ == "/memz?type=global"@,
    {
        "/memz?type=global".to_owned()
    }

    /// What is shown and given back after a storage node was asked for the
    /// memory of the whole process; an answer was kept in the file `path`.
    pub fn execute(&self, answer: Result<String, CliError>, path: &str) -> (r: ConsoleReport)
        ensures
            texts(r.lines@) == memory_lines(
                true,
                match answer {
                    Ok(html) => Ok(
                        metrics_from(
                            regex_captures(figures_pattern(), html@),
                            regex_captures(thread_cache_pattern(), html@),
                            regex_captures(dirty_pages_pattern(), html@),
                        ),
                    ),
                    Err(e) => Err(e.text()),
                },
            ),
            match answer {
                Ok(_) => r.result is Ok && r.result->Ok_0@ == (ExecutionResultView {
                    output_path: path@,
                    message: words(true).1 + path@,
                }),
                Err(e) => r.result is Err && r.result->Err_0 == e,
            },
    {
        memory_report(true, answer, path)
    }
}

/// The name of the file that keeps an answer of a storage node.
pub fn html_file_name(file_prefix: &str, stamp: &str) -> (r: String)
    ensures
        r@ == file_prefix@ + "_"@ + stamp@ + ".html"@,
{
    let head = concat3(file_prefix, "_", stamp);
    concat(head.as_str(), ".html")
}

} // verus!
