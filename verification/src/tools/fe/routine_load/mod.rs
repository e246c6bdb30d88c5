use crate::tools::{tool_at, ToolKind};
use vstd::prelude::*;

pub mod error_checker;
pub mod job_lister;
pub mod job_manager;
pub mod log_parser;
pub mod models;
pub mod performance_analyzer;
pub mod traffic_monitor;

verus! {

/// What is said where a tool needs a job and none was chosen.
pub open spec fn no_job_id() -> Seq<char> {
    "No Job ID in memory. Run 'Get Job ID' first."@
}

/// What is said where a tool needs a job and none was chosen.
pub fn no_job_id_message() -> (r: String)
    ensures
        r@ == no_job_id(),
{
    "No Job ID in memory. Run 'Get Job ID' first.".to_owned()
}

/// The tools for routine load jobs, by their place in the list of the
/// coordination role's tools.
#[derive(Debug, Clone, Copy, PartialEq, Eq, Structural)]
pub enum RoutineLoadToolIndex {
    JobLister,
    PerformanceAnalyzer,
    TrafficMonitor,
}

impl RoutineLoadToolIndex {
    /// The place of the tool in the list.
    pub open spec fn place(self) -> int {
        match self {
            RoutineLoadToolIndex::JobLister => 5,
            RoutineLoadToolIndex::PerformanceAnalyzer => 6,
            RoutineLoadToolIndex::TrafficMonitor => 7,
        }
    }

    /// The place of the tool in the list.
    pub fn index(self) -> (r: usize)
        ensures
            r == self.place(),
    {
        match self {
            RoutineLoadToolIndex::JobLister => 5,
            RoutineLoadToolIndex::PerformanceAnalyzer => 6,
            RoutineLoadToolIndex::TrafficMonitor => 7,
        }
    }

    /// The tool at this place of a list, where the list is that long.
    pub fn get_tool(self, tools: &Vec<ToolKind>) -> (r: Option<ToolKind>)
        ensures
            r == tool_at(tools@, self.place()),
    {
        let i = self.index();
        if i < tools.len() {
            Some(tools[i])
        } else {
            None
        }
    }
}

/// The tools for routine load jobs.
pub fn get_routine_load_tools() -> (r: Vec<ToolKind>)
    ensures
        r@ == seq![
            ToolKind::RoutineLoadJobLister,
            ToolKind::RoutineLoadPerformanceAnalyzer,
            ToolKind::RoutineLoadTrafficMonitor,
        ],
{
    let mut tools: Vec<ToolKind> = Vec::new();
    tools.push(ToolKind::RoutineLoadJobLister);
    tools.push(ToolKind::RoutineLoadPerformanceAnalyzer);
    tools.push(ToolKind::RoutineLoadTrafficMonitor);
    assert(tools@ =~= seq![
        ToolKind::RoutineLoadJobLister,
        ToolKind::RoutineLoadPerformanceAnalyzer,
        ToolKind::RoutineLoadTrafficMonitor,
    ]);
    tools
}

} // verus!
