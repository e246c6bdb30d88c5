use crate::text::{clone_opt, opt_text};
use vstd::prelude::*;

verus! {

/// The nodes that the operator chose to talk to in this session, one for each role.
#[derive(Debug)]
pub struct HostSelection {
    pub fe: Option<String>,
    pub be: Option<String>,
}

/// What a `HostSelection` holds, as plain values.
pub struct HostSelectionView {
    pub fe: Option<Seq<char>>,
    pub be: Option<Seq<char>>,
}

impl View for HostSelection {
    type V = HostSelectionView;

    open spec fn view(&self) -> HostSelectionView {
        HostSelectionView { fe: opt_text(self.fe), be: opt_text(self.be) }
    }
}

impl HostSelection {
    /// A session in which no node was chosen yet.
    pub fn new() -> (r: HostSelection)
        ensures
            r@ == (HostSelectionView { fe: None, be: None }),
    {
        HostSelection { fe: None, be: None }
    }
}

/// Notes the node that the operator chose for a role.
pub fn set_selected_host(selection: &mut HostSelection, is_be: bool, host: String)
    ensures
        final(selection)@ == if is_be {
            HostSelectionView { be: Some(host@), ..old(selection)@ }
        } else {
            HostSelectionView { fe: Some(host@), ..old(selection)@ }
        },
{
    if is_be {
        selection.be = Some(host);
    } else {
        selection.fe = Some(host);
    }
}

/// The node that the operator chose for a role.
pub fn get_selected_host(selection: &HostSelection, is_be: bool) -> (r: Option<String>)
    ensures
        opt_text(r) == if is_be {
            selection@.be
        } else {
            selection@.fe
        },
{
    if is_be {
        clone_opt(&selection.be)
    } else {
        clone_opt(&selection.fe)
    }
}

} // verus!
