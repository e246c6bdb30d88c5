use crate::error::{CliError, ErrorView};
use crate::text::{opt_text};
use crate::tools::common::host_selection::{
    get_selected_host, set_selected_host, HostSelection, HostSelectionView,
};
use crate::tools::{ExecutionResult, ExecutionResultView, Tool};
use vstd::prelude::*;

verus! {

/// Notes the storage node that the operator chose.
pub fn set_selected_be_host(selection: &mut HostSelection, host: String)
    ensures
        final(selection)@ == (HostSelectionView { be: Some(host@), ..old(selection)@ }),
{
    set_selected_host(selection, true, host);
}

/// The storage node that the operator chose.
pub fn get_selected_be_host(selection: &HostSelection) -> (r: Option<String>)
    ensures
        opt_text(r) == selection@.be,
{
    get_selected_host(selection, true)
}

/// Lets the operator choose the storage node to talk to.
#[derive(Debug, Clone, Copy, PartialEq, Eq, Structural)]
pub struct BeListTool;

impl Tool for BeListTool {
    open spec fn name_text(&self) -> Seq<char> {
        "be-list"@
    }

    open spec fn description_text(&self) -> Seq<char> {
        "List and select a BE host (IP) for this session"@
    }

    open spec fn needs_pid(&self) -> bool {
        false
    }

    fn name(&self) -> (r: String) {
        "be-list".to_owned()
    }

    fn description(&self) -> (r: String) {
        "List and select a BE host (IP) for this session".to_owned()
    }

    fn requires_pid(&self) -> (r: bool) {
        false
    }
}

impl BeListTool {
    /// Takes the operator's choice among the storage nodes that are alive: the
    /// chosen node is noted for the session. It is a failure where no node is
    /// alive. The choice must be one of the hosts.
    pub fn execute(&self, selection: &mut HostSelection, hosts: &Vec<String>, chosen: usize) -> (r:
        Result<ExecutionResult, CliError>)
        requires
            hosts@.len() > 0 ==> chosen < hosts@.len(),
        ensures
            hosts@.len() == 0 ==> r is Err && r->Err_0@ == ErrorView::ConfigError(
                "No BE hosts found in clusters.toml"@,
            ) && final(selection)@ == old(selection)@,
            hosts@.len() > 0 ==> r is Ok && r->Ok_0@ == (ExecutionResultView {
                output_path: "console_output"@,
                message: "BE host updated for this session"@,
            }) && final(selection)@ == (HostSelectionView {
                be: Some(hosts@[chosen as int]@),
                ..old(selection)@
            }),
    {
        if hosts.len() == 0 {
            return Err(CliError::ConfigError("No BE hosts found in clusters.toml".to_owned()));
        }
        set_selected_be_host(selection, hosts[chosen].clone());
        Ok(
            ExecutionResult {
                output_path: "console_output".to_owned(),
                message: "BE host updated for this session".to_owned(),
            },
        )
    }
}

} // verus!
