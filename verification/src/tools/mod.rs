use crate::tools::be::be_vars::BeVarsTool;
use crate::tools::be::list::BeListTool;
use crate::tools::be::memz::{MemzGlobalTool, MemzTool};
use crate::tools::be::pipeline_tasks::PipelineTasksTool;
use crate::tools::be::pstack::PstackTool;
use crate::tools::fe::jmap::{JmapDumpTool, JmapHistoTool};
use crate::tools::fe::jstack::JstackTool;
use crate::tools::fe::list::FeListTool;
use crate::tools::fe::profiler::FeProfilerTool;
use crate::tools::fe::routine_load::error_checker::RoutineLoadErrorChecker;
use crate::tools::fe::routine_load::job_lister::RoutineLoadJobLister;
use crate::tools::fe::routine_load::performance_analyzer::RoutineLoadPerformanceAnalyzer;
use crate::tools::fe::routine_load::traffic_monitor::RoutineLoadTrafficMonitor;
use vstd::prelude::*;

pub mod be;
pub mod common;
pub mod fe;
pub mod json;
pub mod mysql;

verus! {

/// What a tool left behind: where its output is, and what to tell the operator.
#[derive(Debug)]
pub struct ExecutionResult {
    pub output_path: String,
    pub message: String,
}

/// What an `ExecutionResult` holds, as plain values.
pub struct ExecutionResultView {
    pub output_path: Seq<char>,
    pub message: Seq<char>,
}

impl View for ExecutionResult {
    type V = ExecutionResultView;

    open spec fn view(&self) -> ExecutionResultView {
        ExecutionResultView { output_path: self.output_path@, message: self.message@ }
    }
}

/// A diagnostic tool, as the menus know it.
pub trait Tool {
    /// The name under which the tool is listed and looked up.
    spec fn name_text(&self) -> Seq<char>;

    /// What the tool does, in a line.
    spec fn description_text(&self) -> Seq<char>;

    /// Whether the tool works on a process of this host.
    spec fn needs_pid(&self) -> bool;

    /// The name under which the tool is listed and looked up.
    fn name(&self) -> (r: String)
        ensures
            r@ == self.name_text(),
    ;

    /// What the tool does, in a line.
    fn description(&self) -> (r: String)
        ensures
            r@ == self.description_text(),
    ;

    /// Whether the tool works on a process of this host.
    fn requires_pid(&self) -> (r: bool)
        ensures
            r == self.needs_pid(),
    ;
}

/// The tools of the console.
#[derive(Debug, Clone, Copy, PartialEq, Eq, Structural)]
pub enum ToolKind {
    JmapDump,
    JmapHisto,
    Jstack,
    FeList,
    FeProfiler,
    Pstack,
    BeVars,
    BeList,
    Memz,
    MemzGlobal,
    PipelineTasks,
    RoutineLoadJobLister,
    RoutineLoadErrorChecker,
    RoutineLoadPerformanceAnalyzer,
    RoutineLoadTrafficMonitor,
}

impl Tool for ToolKind {
    open spec fn name_text(&self) -> Seq<char> {
        match self {
            ToolKind::JmapDump => JmapDumpTool.name_text(),
            ToolKind::JmapHisto => JmapHistoTool.name_text(),
            ToolKind::Jstack => JstackTool.name_text(),
            ToolKind::FeList => FeListTool.name_text(),
            ToolKind::FeProfiler => FeProfilerTool.name_text(),
            ToolKind::Pstack => PstackTool.name_text(),
            ToolKind::BeVars => BeVarsTool.name_text(),
            ToolKind::BeList => BeListTool.name_text(),
            ToolKind::Memz => MemzTool.name_text(),
            ToolKind::MemzGlobal => MemzGlobalTool.name_text(),
            ToolKind::PipelineTasks => PipelineTasksTool.name_text(),
            ToolKind::RoutineLoadJobLister => RoutineLoadJobLister.name_text(),
            ToolKind::RoutineLoadErrorChecker => RoutineLoadErrorChecker.name_text(),
            ToolKind::RoutineLoadPerformanceAnalyzer => RoutineLoadPerformanceAnalyzer.name_text(),
            ToolKind::RoutineLoadTrafficMonitor => RoutineLoadTrafficMonitor.name_text(),
        }
    }

    open spec fn description_text(&self) -> Seq<char> {
        match self {
            ToolKind::JmapDump => JmapDumpTool.description_text(),
            ToolKind::JmapHisto => JmapHistoTool.description_text(),
            ToolKind::Jstack => JstackTool.description_text(),
            ToolKind::FeList => FeListTool.description_text(),
            ToolKind::FeProfiler => FeProfilerTool.description_text(),
            ToolKind::Pstack => PstackTool.description_text(),
            ToolKind::BeVars => BeVarsTool.description_text(),
            ToolKind::BeList => BeListTool.description_text(),
            ToolKind::Memz => MemzTool.description_text(),
            ToolKind::MemzGlobal => MemzGlobalTool.description_text(),
            ToolKind::PipelineTasks => PipelineTasksTool.description_text(),
            ToolKind::RoutineLoadJobLister => RoutineLoadJobLister.description_text(),
            ToolKind::RoutineLoadErrorChecker => RoutineLoadErrorChecker.description_text(),
            ToolKind::RoutineLoadPerformanceAnalyzer => RoutineLoadPerformanceAnalyzer
                .description_text(),
            ToolKind::RoutineLoadTrafficMonitor => RoutineLoadTrafficMonitor.description_text(),
        }
    }

    open spec fn needs_pid(&self) -> bool {
        match self {
            ToolKind::JmapDump => JmapDumpTool.needs_pid(),
            ToolKind::JmapHisto => JmapHistoTool.needs_pid(),
            ToolKind::Jstack => JstackTool.needs_pid(),
            ToolKind::FeList => FeListTool.needs_pid(),
            ToolKind::FeProfiler => FeProfilerTool.needs_pid(),
            ToolKind::Pstack => PstackTool.needs_pid(),
            ToolKind::BeVars => BeVarsTool.needs_pid(),
            ToolKind::BeList => BeListTool.needs_pid(),
            ToolKind::Memz => MemzTool.needs_pid(),
            ToolKind::MemzGlobal => MemzGlobalTool.needs_pid(),
            ToolKind::PipelineTasks => PipelineTasksTool.needs_pid(),
            ToolKind::RoutineLoadJobLister => RoutineLoadJobLister.needs_pid(),
            ToolKind::RoutineLoadErrorChecker => RoutineLoadErrorChecker.needs_pid(),
            ToolKind::RoutineLoadPerformanceAnalyzer => RoutineLoadPerformanceAnalyzer.needs_pid(),
            ToolKind::RoutineLoadTrafficMonitor => RoutineLoadTrafficMonitor.needs_pid(),
        }
    }

    fn name(&self) -> (r: String) {
        match self {
            ToolKind::JmapDump => JmapDumpTool.name(),
            ToolKind::JmapHisto => JmapHistoTool.name(),
            ToolKind::Jstack => JstackTool.name(),
            ToolKind::FeList => FeListTool.name(),
            ToolKind::FeProfiler => FeProfilerTool.name(),
            ToolKind::Pstack => PstackTool.name(),
            ToolKind::BeVars => BeVarsTool.name(),
            ToolKind::BeList => BeListTool.name(),
            ToolKind::Memz => MemzTool.name(),
            ToolKind::MemzGlobal => MemzGlobalTool.name(),
            ToolKind::PipelineTasks => PipelineTasksTool.name(),
            ToolKind::RoutineLoadJobLister => RoutineLoadJobLister.name(),
            ToolKind::RoutineLoadErrorChecker => RoutineLoadErrorChecker.name(),
            ToolKind::RoutineLoadPerformanceAnalyzer => RoutineLoadPerformanceAnalyzer.name(),
            ToolKind::RoutineLoadTrafficMonitor => RoutineLoadTrafficMonitor.name(),
        }
    }

    fn description(&self) -> (r: String) {
        match self {
            ToolKind::JmapDump => JmapDumpTool.description(),
            ToolKind::JmapHisto => JmapHistoTool.description(),
            ToolKind::Jstack => JstackTool.description(),
            ToolKind::FeList => FeListTool.description(),
            ToolKind::FeProfiler => FeProfilerTool.description(),
            ToolKind::Pstack => PstackTool.description(),
            ToolKind::BeVars => BeVarsTool.description(),
            ToolKind::BeList => BeListTool.description(),
            ToolKind::Memz => MemzTool.description(),
            ToolKind::MemzGlobal => MemzGlobalTool.description(),
            ToolKind::PipelineTasks => PipelineTasksTool.description(),
            ToolKind::RoutineLoadJobLister => RoutineLoadJobLister.description(),
            ToolKind::RoutineLoadErrorChecker => RoutineLoadErrorChecker.description(),
            ToolKind::RoutineLoadPerformanceAnalyzer => RoutineLoadPerformanceAnalyzer
                .description(),
            ToolKind::RoutineLoadTrafficMonitor => RoutineLoadTrafficMonitor.description(),
        }
    }

    fn requires_pid(&self) -> (r: bool) {
        match self {
            ToolKind::JmapDump => JmapDumpTool.requires_pid(),
            ToolKind::JmapHisto => JmapHistoTool.requires_pid(),
            ToolKind::Jstack => JstackTool.requires_pid(),
            ToolKind::FeList => FeListTool.requires_pid(),
            ToolKind::FeProfiler => FeProfilerTool.requires_pid(),
            ToolKind::Pstack => PstackTool.requires_pid(),
            ToolKind::BeVars => BeVarsTool.requires_pid(),
            ToolKind::BeList => BeListTool.requires_pid(),
            ToolKind::Memz => MemzTool.requires_pid(),
            ToolKind::MemzGlobal => MemzGlobalTool.requires_pid(),
            ToolKind::PipelineTasks => PipelineTasksTool.requires_pid(),
            ToolKind::RoutineLoadJobLister => RoutineLoadJobLister.requires_pid(),
            ToolKind::RoutineLoadErrorChecker => RoutineLoadErrorChecker.requires_pid(),
            ToolKind::RoutineLoadPerformanceAnalyzer => RoutineLoadPerformanceAnalyzer
                .requires_pid(),
            ToolKind::RoutineLoadTrafficMonitor => RoutineLoadTrafficMonitor.requires_pid(),
        }
    }
}

/// The tools that the menus offer, for each of the two roles.
#[derive(Debug)]
pub struct ToolRegistry {
    fe_tools: Vec<ToolKind>,
    be_tools: Vec<ToolKind>,
}

/// The tools of the coordination role, in the order of the menu.
pub open spec fn registered_fe_tools() -> Seq<ToolKind> {
    seq![ToolKind::JmapDump, ToolKind::JmapHisto, ToolKind::Jstack]
}

/// The tools of the storage role, in the order of the menu.
pub open spec fn registered_be_tools() -> Seq<ToolKind> {
    seq![
        ToolKind::Pstack,
        ToolKind::BeVars,
        ToolKind::JmapDump,
        ToolKind::JmapHisto,
        ToolKind::PipelineTasks,
    ]
}

/// The tool at `index` of a list, where there is one.
pub open spec fn tool_at(tools: Seq<ToolKind>, index: int) -> Option<ToolKind> {
    if 0 <= index < tools.len() {
        Some(tools[index])
    } else {
        None
    }
}

impl ToolRegistry {
    /// The tools of the coordination role that the registry holds.
    pub closed spec fn fe_view(&self) -> Seq<ToolKind> {
        self.fe_tools@
    }

    /// The tools of the storage role that the registry holds.
    pub closed spec fn be_view(&self) -> Seq<ToolKind> {
        self.be_tools@
    }

    /// The registry with every tool of the console.
    pub fn new() -> (r: ToolRegistry)
        ensures
            r.fe_view() == registered_fe_tools(),
            r.be_view() == registered_be_tools(),
    {
        let mut fe_tools: Vec<ToolKind> = Vec::new();
        fe_tools.push(ToolKind::JmapDump);
        fe_tools.push(ToolKind::JmapHisto);
        fe_tools.push(ToolKind::Jstack);
        let mut be_tools: Vec<ToolKind> = Vec::new();
        be_tools.push(ToolKind::Pstack);
        be_tools.push(ToolKind::BeVars);
        be_tools.push(ToolKind::JmapDump);
        be_tools.push(ToolKind::JmapHisto);
        be_tools.push(ToolKind::PipelineTasks);
        assert(fe_tools@ =~= registered_fe_tools());
        assert(be_tools@ =~= registered_be_tools());
        ToolRegistry { fe_tools, be_tools }
    }

    /// The tools of the coordination role.
    pub fn fe_tools(&self) -> (r: &Vec<ToolKind>)
        ensures
            r@ == self.fe_view(),
    {
        &self.fe_tools
    }

    /// The tools of the storage role.
    pub fn be_tools(&self) -> (r: &Vec<ToolKind>)
        ensures
            r@ == self.be_view(),
    {
        &self.be_tools
    }

    /// The tool of the coordination role at `index`, where there is one.
    pub fn get_fe_tool(&self, index: usize) -> (r: Option<ToolKind>)
        ensures
            r == tool_at(self.fe_view(), index as int),
    {
        if index < self.fe_tools.len() {
            Some(self.fe_tools[index])
        } else {
            None
        }
    }

    /// The tool of the storage role at `index`, where there is one.
    pub fn get_be_tool(&self, index: usize) -> (r: Option<ToolKind>)
        ensures
            r == tool_at(self.be_view(), index as int),
    {
        if index < self.be_tools.len() {
            Some(self.be_tools[index])
        } else {
            None
        }
    }
}

impl Default for ToolRegistry {
    fn default() -> (r: ToolRegistry)
        ensures
            r.fe_view() == registered_fe_tools(),
            r.be_view() == registered_be_tools(),
    {
        ToolRegistry::new()
    }
}

} // verus!
