use crate::config_loader::process_detector::{
    current_of, detect_current_process, opt_snapshot, roles_fit, ProcessDetectionResult,
};
use crate::config_loader::Environment;
use crate::error::{CliError, ErrorView};
use vstd::prelude::*;

verus! {

/// What tells the operator which role was found.
pub fn found_message(environment: Environment) -> (r: String)
    ensures
        r@ == if environment == Environment::FE {
            "Found FE process"@
        } else {
            "Found BE process"@
        },
{
    if environment == Environment::FE {
        "Found FE process".to_owned()
    } else {
        "Found BE process".to_owned()
    }
}

/// The process to work on where the record names none that runs: the current
/// process of a detection pass. It is a failure where no role runs.
pub fn select_process_interactively(
    be: Option<ProcessDetectionResult>,
    fe: Option<ProcessDetectionResult>,
) -> (r: Result<u32, CliError>)
    requires
        roles_fit(opt_snapshot(be), opt_snapshot(fe)),
    ensures
        match current_of(opt_snapshot(be), opt_snapshot(fe)) {
            Some(p) => r == Ok::<u32, CliError>(p.pid),
            None => r is Err && r->Err_0@ == ErrorView::ProcessNotFound(
                "No Doris process found"@,
            ),
        },
{
    match detect_current_process(be, fe) {
        Ok(result) => Ok(result.pid),
        Err(_) => Err(CliError::ProcessNotFound("No Doris process found".to_owned())),
    }
}

} // verus!
