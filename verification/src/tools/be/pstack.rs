use crate::config::{Config, ConfigView};
use crate::text::{decimal_text, join_path, path_join, u64_to_string};
use crate::tools::fe::jmap::{output_file_name, output_name, ToolPlan, ToolPlanView};
use crate::tools::Tool;
use vstd::prelude::*;

verus! {

/// Dumps the native stacks of a process.
#[derive(Debug, Clone, Copy, PartialEq, Eq, Structural)]
pub struct PstackTool;

impl Tool for PstackTool {
    open spec fn name_text(&self) -> Seq<char> {
        "pstack"@
    }

    open spec fn description_text(&self) -> Seq<char> {
        "Generate process stack trace (.txt)"@
    }

    open spec fn needs_pid(&self) -> bool {
        true
    }

    fn name(&self) -> (r: String) {
        "pstack".to_owned()
    }

    fn description(&self) -> (r: String) {
        "Generate process stack trace (.txt)".to_owned()
    }

    fn requires_pid(&self) -> (r: bool) {
        true
    }
}

/// Where the script that dumps native stacks is kept.
pub open spec fn script_path() -> Seq<char> {
    "/opt/selectdb/ps.sh"@
}

/// What the dump of the native stacks of a process is to run.
pub open spec fn pstack_plan(config: ConfigView, pid: u32, stamp: Seq<char>) -> ToolPlanView {
    ToolPlanView {
        program: "bash"@,
        args: seq![script_path(), decimal_text(pid as nat)],
        output_path: path_join(config.output_dir, output_name("pstack"@, pid, stamp, ".txt"@)),
        message: "Process stack trace completed successfully"@,
    }
}

impl PstackTool {
    /// What the dump of the native stacks of a process is to run.
    pub fn execute(&self, config: &Config, pid: u32, stamp: &str) -> (r: ToolPlan)
        ensures
            r@ == pstack_plan(config@, pid, stamp@),
    {
        let name = output_file_name("pstack", pid, stamp, ".txt");
        let mut args: Vec<String> = Vec::new();
        args.push("/opt/selectdb/ps.sh".to_owned());
        args.push(u64_to_string(pid as u64));
        let plan = ToolPlan {
            program: "bash".to_owned(),
            args,
            output_path: join_path(config.output_dir.as_str(), name.as_str()),
            message: "Process stack trace completed successfully".to_owned(),
        };
        assert(plan@.args =~= pstack_plan(config@, pid, stamp@).args);
        plan
    }

    /// Whether the script is to be written before it is run: only where it is
    /// not there yet.
    pub fn ensure_pstack_script(&self, exists: bool) -> (r: bool)
        ensures
            r == !exists,
    {
        !exists
    }
}

} // verus!
