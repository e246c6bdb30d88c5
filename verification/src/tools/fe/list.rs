use crate::error::{CliError, ErrorView};
use crate::text::{chars_of, holds_text, sorted_set, strictly_in_order, texts};
use crate::tools::common::host_selection::{set_selected_host, HostSelection, HostSelectionView};
use crate::tools::mysql::cluster::{frontend_views, ClusterInfo, FrontendView};
use crate::tools::{ExecutionResult, ExecutionResultView, Tool};
use vstd::prelude::*;

verus! {

/// Lets the operator choose the coordination node to talk to.
#[derive(Debug, Clone, Copy, PartialEq, Eq, Structural)]
pub struct FeListTool;

impl Tool for FeListTool {
    open spec fn name_text(&self) -> Seq<char> {
        "fe-list"@
    }

    open spec fn description_text(&self) -> Seq<char> {
        "List and select a FE host (IP) for this session"@
    }

    open spec fn needs_pid(&self) -> bool {
        false
    }

    fn name(&self) -> (r: String) {
        "fe-list".to_owned()
    }

    fn description(&self) -> (r: String) {
        "List and select a FE host (IP) for this session".to_owned()
    }

    fn requires_pid(&self) -> (r: bool) {
        false
    }
}

/// The hosts of the coordination nodes that are alive and have a host.
pub open spec fn alive_fe_hosts(frontends: Seq<FrontendView>) -> Seq<Seq<char>>
    decreases frontends.len(),
{
    if frontends.len() == 0 {
        seq![]
    } else if frontends.last().alive && frontends.last().host.len() > 0 {
        alive_fe_hosts(frontends.drop_last()).push(frontends.last().host)
    } else {
        alive_fe_hosts(frontends.drop_last())
    }
}

impl FeListTool {
    /// The hosts that the operator may choose from: those of the coordination
    /// nodes that are alive, in order, each once.
    pub fn hosts(&self, info: &ClusterInfo) -> (r: Vec<String>)
        ensures
            strictly_in_order(texts(r@)),
            forall|s: Seq<char>|
                holds_text(texts(r@), s) <==> holds_text(alive_fe_hosts(info@.frontends), s),
    {
        let mut found: Vec<String> = Vec::new();
        let ghost all = frontend_views(info.frontends@);
        let mut i: usize = 0;
        assert(all.take(0) =~= Seq::<FrontendView>::empty());
        assert(texts(found@) =~= seq![]);
        while i < info.frontends.len()
            invariant
                i <= info.frontends.len(),
                all == frontend_views(info.frontends@),
                texts(found@) == alive_fe_hosts(all.take(i as int)),
            decreases info.frontends.len() - i,
        {
            let ghost next = all.take(i + 1);
            assert(next.drop_last() == all.take(i as int));
            assert(next.last() == info.frontends@[i as int]@);
            let fe = &info.frontends[i];
            if fe.alive && chars_of(fe.host.as_str()).len() > 0 {
                let ghost before = texts(found@);
                found.push(fe.host.clone());
                assert(texts(found@) =~= before.push(fe.host@));
            }
            i += 1;
        }
        assert(all.take(info.frontends.len() as int) == all);
        sorted_set(&found)
    }

    /// Takes the operator's choice among the hosts: the chosen host is noted for
    /// the session. It is a failure where there is no host to choose from. The
    /// choice must be one of the hosts.
    pub fn execute(&self, selection: &mut HostSelection, hosts: &Vec<String>, chosen: usize) -> (r:
        Result<ExecutionResult, CliError>)
        requires
            hosts@.len() > 0 ==> chosen < hosts@.len(),
        ensures
            hosts@.len() == 0 ==> r is Err && r->Err_0@ == ErrorView::ConfigError(
                "No FE hosts found in clusters.toml"@,
            ) && final(selection)@ == old(selection)@,
            hosts@.len() > 0 ==> r is Ok && r->Ok_0@ == (ExecutionResultView {
                output_path: "console_output"@,
                message: "FE target updated for this session"@,
            }) && final(selection)@ == (HostSelectionView {
                fe: Some(hosts@[chosen as int]@),
                ..old(selection)@
            }),
    {
        if hosts.len() == 0 {
            return Err(CliError::ConfigError("No FE hosts found in clusters.toml".to_owned()));
        }
        set_selected_host(selection, false, hosts[chosen].clone());
        Ok(
            ExecutionResult {
                output_path: "console_output".to_owned(),
                message: "FE target updated for this session".to_owned(),
            },
        )
    }
}

} // verus!
