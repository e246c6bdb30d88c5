use crate::config::{Config, ConfigView};
use crate::text::{decimal_text, join_path, path_join, u64_to_string};
use crate::tools::fe::jmap::{output_file_name, output_name, ToolPlan, ToolPlanView};
use crate::tools::Tool;
use vstd::prelude::*;

verus! {

/// Dumps the thread stacks of a Java process.
#[derive(Debug, Clone, Copy, PartialEq, Eq, Structural)]
pub struct JstackTool;

impl Tool for JstackTool {
    open spec fn name_text(&self) -> Seq<char> {
        "jstack"@
    }

    open spec fn description_text(&self) -> Seq<char> {
        "Generate thread stack trace (.log)"@
    }

    open spec fn needs_pid(&self) -> bool {
        true
    }

    fn name(&self) -> (r: String) {
        "jstack".to_owned()
    }

    fn description(&self) -> (r: String) {
        "Generate thread stack trace (.log)".to_owned()
    }

    fn requires_pid(&self) -> (r: bool) {
        true
    }
}

/// What the thread dump of a process is to run.
pub open spec fn jstack_plan(config: ConfigView, pid: u32, stamp: Seq<char>) -> ToolPlanView {
    ToolPlanView {
        program: path_join(config.jdk_path, "bin/jstack"@),
        args: seq![decimal_text(pid as nat)],
        output_path: path_join(config.output_dir, output_name("jstack"@, pid, stamp, ".log"@)),
        message: "Thread stack trace completed successfully"@,
    }
}

impl JstackTool {
    /// What the thread dump of a process is to run.
    pub fn execute(&self, config: &Config, pid: u32, stamp: &str) -> (r: ToolPlan)
        ensures
            r@ == jstack_plan(config@, pid, stamp@),
    {
        let name = output_file_name("jstack", pid, stamp, ".log");
        let mut args: Vec<String> = Vec::new();
        args.push(u64_to_string(pid as u64));
        let plan = ToolPlan {
            program: config.get_jstack_path(),
            args,
            output_path: join_path(config.output_dir.as_str(), name.as_str()),
            message: "Thread stack trace completed successfully".to_owned(),
        };
        assert(plan@.args =~= jstack_plan(config@, pid, stamp@).args);
        plan
    }
}

} // verus!
