use crate::error::{CliError, ErrorView};
use crate::text::{concat, concat3, same_text};
use crate::tools::fe::routine_load::RoutineLoadToolIndex;
use crate::tools::{Tool, ToolKind, ToolRegistry};
use crate::ui::menu::{FeToolAction, PostExecutionAction, RoutineLoadAction};
use vstd::prelude::*;

verus! {

/// The place of the first tool of a list that has the name.
pub open spec fn place_of(tools: Seq<ToolKind>, name: Seq<char>) -> Option<int>
    decreases tools.len(),
{
    if tools.len() == 0 {
        None
    } else if tools[0].name_text() == name {
        Some(0)
    } else {
        match place_of(tools.drop_first(), name) {
            Some(i) => Some(i + 1),
            None => None,
        }
    }
}

/// The place of the first tool of a list that has the name.
pub fn index_by_name(tools: &Vec<ToolKind>, name: &str) -> (r: Option<usize>)
    ensures
        match r {
            Some(i) => place_of(tools@, name@) == Some(i as int) && i < tools@.len(),
            None => place_of(tools@, name@) is None,
        },
{
    let mut i: usize = 0;
    assert(tools@.skip(0) == tools@);
    while i < tools.len()
        invariant
            i <= tools.len(),
            place_of(tools@, name@) == match place_of(tools@.skip(i as int), name@) {
                Some(k) => Some(k + i),
                None => None,
            },
        decreases tools.len() - i,
    {
        assert(tools@.skip(i as int)[0] == tools@[i as int]);
        assert(tools@.skip(i as int).drop_first() == tools@.skip(i + 1));
        let tool_name = tools[i].name();
        if same_text(tool_name.as_str(), name) {
            return Some(i);
        }
        i += 1;
    }
    None
}

/// What tells the operator that a role has no tool of a name.
pub fn tool_not_found_message(name: &str, service: &str) -> (r: String)
    ensures
        r@ == "Tool '"@ + name@ + "' not found for "@ + service@ + "."@,
{
    let head = concat3("Tool '", name, "' not found for ");
    concat3(head.as_str(), service, ".")
}

/// Where a loop of menus goes next.
#[derive(Debug, Clone, Copy, PartialEq, Eq, Structural)]
pub enum LoopStep {
    /// Show the menu again.
    Again,
    /// Leave the menu for the one above it.
    Leave,
    /// End the console.
    Quit,
}

/// Where the menus go after a tool ran and the operator chose what is next.
pub fn run_tool_with_post(choice: PostExecutionAction) -> (r: LoopStep)
    ensures
        r == match choice {
            PostExecutionAction::Continue => LoopStep::Again,
            PostExecutionAction::BackToMain => LoopStep::Leave,
            PostExecutionAction::Exit => LoopStep::Quit,
        },
{
    match choice {
        PostExecutionAction::Continue => LoopStep::Again,
        PostExecutionAction::BackToMain => LoopStep::Leave,
        PostExecutionAction::Exit => LoopStep::Quit,
    }
}

/// The role whose tools a service loop offers.
#[derive(Debug, Clone, Copy, PartialEq, Eq, Structural)]
pub enum ServiceKind {
    Fe,
    Be,
}

/// The loop that serves a role: that of the coordination role for the name `FE`,
/// that of the storage role for any other.
pub fn handle_service_loop(service_name: &str) -> (r: ServiceKind)
    ensures
        r == if service_name@ == "FE"@ {
            ServiceKind::Fe
        } else {
            ServiceKind::Be
        },
{
    if same_text(service_name, "FE") {
        ServiceKind::Fe
    } else {
        ServiceKind::Be
    }
}

/// What an entry of the coordination role's menu starts.
#[derive(Debug, Clone, Copy, PartialEq, Eq, Structural)]
pub enum FeStep {
    /// Run the tool.
    Run(ToolKind),
    /// Open the browser of tables.
    TableInfo,
    /// Open the menu of the tools for routine load jobs.
    RoutineLoadMenu,
    /// Go back to the main menu.
    Leave,
}

/// What the operator's choice in the coordination role's menu starts.
pub fn handle_fe_service_loop(action: FeToolAction) -> (r: FeStep)
    ensures
        r == match action {
            FeToolAction::FeList => FeStep::Run(ToolKind::FeList),
            FeToolAction::JmapDump => FeStep::Run(ToolKind::JmapDump),
            FeToolAction::JmapHisto => FeStep::Run(ToolKind::JmapHisto),
            FeToolAction::Jstack => FeStep::Run(ToolKind::Jstack),
            FeToolAction::FeProfiler => FeStep::Run(ToolKind::FeProfiler),
            FeToolAction::TableInfo => FeStep::TableInfo,
            FeToolAction::RoutineLoad => FeStep::RoutineLoadMenu,
            FeToolAction::Back => FeStep::Leave,
        },
{
    match action {
        FeToolAction::FeList => FeStep::Run(ToolKind::FeList),
        FeToolAction::JmapDump => FeStep::Run(ToolKind::JmapDump),
        FeToolAction::JmapHisto => FeStep::Run(ToolKind::JmapHisto),
        FeToolAction::Jstack => FeStep::Run(ToolKind::Jstack),
        FeToolAction::FeProfiler => FeStep::Run(ToolKind::FeProfiler),
        FeToolAction::TableInfo => FeStep::TableInfo,
        FeToolAction::RoutineLoad => FeStep::RoutineLoadMenu,
        FeToolAction::Back => FeStep::Leave,
    }
}

/// The tool that an entry of the menu for routine load jobs starts; none for
/// the way back.
pub fn handle_routine_load_loop(action: RoutineLoadAction) -> (r: Option<ToolKind>)
    ensures
        r == match action {
            RoutineLoadAction::GetJobId => Some(ToolKind::RoutineLoadJobLister),
            RoutineLoadAction::ErrorCheck => Some(ToolKind::RoutineLoadErrorChecker),
            RoutineLoadAction::Performance => Some(ToolKind::RoutineLoadPerformanceAnalyzer),
            RoutineLoadAction::Traffic => Some(ToolKind::RoutineLoadTrafficMonitor),
            RoutineLoadAction::Back => None,
        },
{
    match action {
        RoutineLoadAction::GetJobId => Some(ToolKind::RoutineLoadJobLister),
        RoutineLoadAction::ErrorCheck => Some(ToolKind::RoutineLoadErrorChecker),
        RoutineLoadAction::Performance => Some(ToolKind::RoutineLoadPerformanceAnalyzer),
        RoutineLoadAction::Traffic => Some(ToolKind::RoutineLoadTrafficMonitor),
        RoutineLoadAction::Back => None,
    }
}

/// The tool at a place of the list of tools for routine load jobs, or what is
/// wrong where the list is too short.
pub fn execute_routine_load_tool(tools: &Vec<ToolKind>, tool_index: RoutineLoadToolIndex) -> (r:
    Result<ToolKind, CliError>)
    ensures
        match r {
            Ok(t) => tool_index.place() < tools@.len() && t == tools@[tool_index.place()],
            Err(e) => tool_index.place() >= tools@.len() && e@ == ErrorView::ToolExecutionFailed(
                "Tool not found at index "@ + crate::text::decimal_text(tool_index.place() as nat),
            ),
        },
{
    match tool_index.get_tool(tools) {
        Some(t) => Ok(t),
        None => {
            let n = crate::text::u64_to_string(tool_index.index() as u64);
            Err(CliError::ToolExecutionFailed(concat("Tool not found at index ", n.as_str())))
        },
    }
}

/// The tools that the menu of the storage role offers: the choice of a host, the
/// tools of the registry, and the two views of the memory.
pub fn be_menu_tools(registry: &ToolRegistry) -> (r: Vec<ToolKind>)
    ensures
        r@ == seq![ToolKind::BeList] + registry.be_view() + seq![
            ToolKind::Memz,
            ToolKind::MemzGlobal,
        ],
{
    let tools = registry.be_tools();
    let mut out: Vec<ToolKind> = Vec::new();
    out.push(ToolKind::BeList);
    let mut i: usize = 0;
    while i < tools.len()
        invariant
            i <= tools.len(),
            out@ == seq![ToolKind::BeList] + tools@.take(i as int),
        decreases tools.len() - i,
    {
        out.push(tools[i]);
        assert(out@ =~= seq![ToolKind::BeList] + tools@.take(i + 1));
        i += 1;
    }
    assert(tools@.take(tools.len() as int) == tools@);
    out.push(ToolKind::Memz);
    out.push(ToolKind::MemzGlobal);
    assert(out@ =~= seq![ToolKind::BeList] + tools@ + seq![ToolKind::Memz, ToolKind::MemzGlobal]);
    out
}

/// Where the storage role's menu goes after a tool: a tool that the operator
/// left by way of the main menu ends the menu, and anything else shows it again.
pub fn handle_be_service_loop(result: &Result<(), CliError>) -> (r: LoopStep)
    ensures
        r == match *result {
            Err(e) => if e is GracefulExit {
                LoopStep::Leave
            } else {
                LoopStep::Again
            },
            Ok(_) => LoopStep::Again,
        },
{
    match result {
        Err(CliError::GracefulExit) => LoopStep::Leave,
        _ => LoopStep::Again,
    }
}

} // verus!
