use crate::config::{Config, ConfigView};
use crate::text::{concat, concat3, decimal_text, join_path, path_join, texts, u64_to_string};
use crate::tools::Tool;
use vstd::prelude::*;

verus! {

/// Dumps the heap of a Java process.
#[derive(Debug, Clone, Copy, PartialEq, Eq, Structural)]
pub struct JmapDumpTool;

impl Tool for JmapDumpTool {
    open spec fn name_text(&self) -> Seq<char> {
        "jmap-dump"@
    }

    open spec fn description_text(&self) -> Seq<char> {
        "Generate heap dump (.hprof)"@
    }

    open spec fn needs_pid(&self) -> bool {
        true
    }

    fn name(&self) -> (r: String) {
        "jmap-dump".to_owned()
    }

    fn description(&self) -> (r: String) {
        "Generate heap dump (.hprof)".to_owned()
    }

    fn requires_pid(&self) -> (r: bool) {
        true
    }
}

/// Counts the live objects of a Java process by class.
#[derive(Debug, Clone, Copy, PartialEq, Eq, Structural)]
pub struct JmapHistoTool;

impl Tool for JmapHistoTool {
    open spec fn name_text(&self) -> Seq<char> {
        "jmap-histo"@
    }

    open spec fn description_text(&self) -> Seq<char> {
        "Generate histogram (.log)"@
    }

    open spec fn needs_pid(&self) -> bool {
        true
    }

    fn name(&self) -> (r: String) {
        "jmap-histo".to_owned()
    }

    fn description(&self) -> (r: String) {
        "Generate histogram (.log)".to_owned()
    }

    fn requires_pid(&self) -> (r: bool) {
        true
    }
}

/// The name of the file that a tool writes for a process at a time: the prefix,
/// the process id and the time, with underscores between them, and the ending.
pub open spec fn output_name(prefix: Seq<char>, pid: u32, stamp: Seq<char>, ending: Seq<char>)
    -> Seq<char> {
    prefix + "_"@ + decimal_text(pid as nat) + "_"@ + stamp + ending
}

/// The name of the file that a tool writes for a process at a time.
pub fn output_file_name(prefix: &str, pid: u32, stamp: &str, ending: &str) -> (r: String)
    ensures
        r@ == output_name(prefix@, pid, stamp@, ending@),
{
    let n = u64_to_string(pid as u64);
    let head = concat3(prefix, "_", n.as_str());
    let body = concat3(head.as_str(), "_", stamp);
    concat(body.as_str(), ending)
}

/// What a tool is to run: the program, its arguments, the file for its output,
/// and what to tell the operator when it is done.
#[derive(Debug)]
pub struct ToolPlan {
    pub program: String,
    pub args: Vec<String>,
    pub output_path: String,
    pub message: String,
}

/// What a `ToolPlan` holds, as plain values.
pub struct ToolPlanView {
    pub program: Seq<char>,
    pub args: Seq<Seq<char>>,
    pub output_path: Seq<char>,
    pub message: Seq<char>,
}

impl View for ToolPlan {
    type V = ToolPlanView;

    open spec fn view(&self) -> ToolPlanView {
        ToolPlanView {
            program: self.program@,
            args: texts(self.args@),
            output_path: self.output_path@,
            message: self.message@,
        }
    }
}

/// What the heap dump of a process is to run.
pub open spec fn dump_plan(config: ConfigView, pid: u32, stamp: Seq<char>) -> ToolPlanView {
    let output_path = path_join(config.output_dir, output_name("jmap_dump"@, pid, stamp, ".hprof"@));
    ToolPlanView {
        program: path_join(config.jdk_path, "bin/jmap"@),
        args: seq!["-dump:live,file="@ + output_path, decimal_text(pid as nat)],
        output_path,
        message: "Heap dump completed successfully (timeout: "@ + decimal_text(
            config.timeout_seconds as nat,
        ) + "s)"@,
    }
}

/// What the histogram of a process is to run.
pub open spec fn histo_plan(config: ConfigView, pid: u32, stamp: Seq<char>) -> ToolPlanView {
    ToolPlanView {
        program: path_join(config.jdk_path, "bin/jmap"@),
        args: seq!["-histo:live"@, decimal_text(pid as nat)],
        output_path: path_join(
            config.output_dir,
            output_name("jmap_histo"@, pid, stamp, ".log"@),
        ),
        message: "Histogram completed successfully"@,
    }
}

impl JmapDumpTool {
    /// What the heap dump of a process is to run; `stamp` is the time, as it is
    /// written in file names.
    pub fn execute(&self, config: &Config, pid: u32, stamp: &str) -> (r: ToolPlan)
        ensures
            r@ == dump_plan(config@, pid, stamp@),
    {
        let name = output_file_name("jmap_dump", pid, stamp, ".hprof");
        let output_path = join_path(config.output_dir.as_str(), name.as_str());
        let mut args: Vec<String> = Vec::new();
        args.push(concat("-dump:live,file=", output_path.as_str()));
        args.push(u64_to_string(pid as u64));
        let seconds = u64_to_string(config.timeout_seconds);
        let plan = ToolPlan {
            program: config.get_jmap_path(),
            args,
            output_path,
            message: concat3(
                "Heap dump completed successfully (timeout: ",
                seconds.as_str(),
                "s)",
            ),
        };
        assert(plan@.args =~= dump_plan(config@, pid, stamp@).args);
        plan
    }
}

impl JmapHistoTool {
    /// What the histogram of a process is to run.
    pub fn execute(&self, config: &Config, pid: u32, stamp: &str) -> (r: ToolPlan)
        ensures
            r@ == histo_plan(config@, pid, stamp@),
    {
        let name = output_file_name("jmap_histo", pid, stamp, ".log");
        let mut args: Vec<String> = Vec::new();
        args.push("-histo:live".to_owned());
        args.push(u64_to_string(pid as u64));
        let plan = ToolPlan {
            program: config.get_jmap_path(),
            args,
            output_path: join_path(config.output_dir.as_str(), name.as_str()),
            message: "Histogram completed successfully".to_owned(),
        };
        assert(plan@.args =~= histo_plan(config@, pid, stamp@).args);
        plan
    }
}

} // verus!
