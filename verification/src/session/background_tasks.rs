use crate::config_loader::{DorisConfig};
use crate::error::{CliError, ErrorView};
use vstd::prelude::*;

verus! {

/// How often collecting is tried.
pub const MAX_RETRIES: u32 = 3;

/// How long to wait before trying again, in seconds.
pub const RETRY_DELAY_SECS: u64 = 2;

/// How long collecting may take in all, in seconds.
pub const TIMEOUT_SECS: u64 = 30;

/// What is known of the file in which the cluster is kept.
#[derive(Debug, Clone, Copy, PartialEq, Eq, Structural)]
pub enum ClusterFileState {
    /// The user has no home directory.
    NoHome,
    /// There is no such file.
    Missing,
    /// The file cannot be examined.
    Unreadable,
    /// The file has this many bytes and this age in seconds; no age where the
    /// system cannot tell it.
    Found { len: u64, age_secs: Option<u64> },
}

/// Whether what is kept of the cluster is out of date: there is no such file, it
/// cannot be examined, it has less than a hundred bytes, or it is older than five
/// minutes.
pub open spec fn is_outdated(file: ClusterFileState) -> bool {
    match file {
        ClusterFileState::Found { len, age_secs } => len < 100 || match age_secs {
            Some(age) => age > 300,
            None => true,
        },
        _ => true,
    }
}

/// Whether what is kept of the cluster is to be collected again.
pub fn should_update_cluster_info(file: ClusterFileState) -> (r: bool)
    ensures
        r == is_outdated(file),
{
    match file {
        ClusterFileState::Found { len, age_secs } => {
            if len < 100 {
                return true;
            }
            match age_secs {
                Some(age) => age > 300,
                None => true,
            }
        },
        _ => true,
    }
}

/// What to do after a try to collect.
#[derive(Debug, Clone, Copy, PartialEq, Eq, Structural)]
pub enum RetryStep {
    /// Collecting is over.
    Stop,
    /// Collecting is over, and failed for good after this many tries.
    GiveUp(u32),
    /// Wait this many seconds and try again.
    Wait(u64),
}

/// Whether a failure will not go away by trying again: the database refused the
/// credentials, or the configuration is wrong.
pub open spec fn is_final(error: ErrorView) -> bool {
    error is MySQLAccessDenied || error is ConfigError
}

/// What to do after the try number `tries` ended `elapsed_secs` seconds after
/// the first began. Success ends collecting, and so does a failure that will not
/// go away; after any other failure there is another try, unless this was the
/// third or the time is up.
pub open spec fn retry_step(tries: u32, elapsed_secs: u64, fault: Option<ErrorView>) -> RetryStep {
    match fault {
        None => RetryStep::Stop,
        Some(e) => if is_final(e) {
            RetryStep::Stop
        } else if tries >= MAX_RETRIES || elapsed_secs >= TIMEOUT_SECS {
            RetryStep::GiveUp(tries)
        } else {
            RetryStep::Wait(RETRY_DELAY_SECS)
        },
    }
}

/// What to do after a try to collect: `tries` counts the tries so far, this one
/// among them.
pub fn collect_cluster_info_with_retry(
    tries: u32,
    elapsed_secs: u64,
    result: &Result<(), CliError>,
) -> (r: RetryStep)
    ensures
        r == retry_step(tries, elapsed_secs, crate::error::failure(*result)),
{
    match result {
        Ok(_) => RetryStep::Stop,
        Err(e) => {
            match e {
                CliError::MySQLAccessDenied(_) => {
                    return RetryStep::Stop;
                },
                CliError::ConfigError(_) => {
                    return RetryStep::Stop;
                },
                _ => {},
            }
            if tries >= MAX_RETRIES || elapsed_secs >= TIMEOUT_SECS {
                RetryStep::GiveUp(tries)
            } else {
                RetryStep::Wait(RETRY_DELAY_SECS)
            }
        },
    }
}

/// Whether collecting is to start at all: a try is due while fewer than three
/// were made and the time is not up.
pub fn may_try(tries: u32, elapsed_secs: u64) -> (r: bool)
    ensures
        r == (tries < MAX_RETRIES && elapsed_secs < TIMEOUT_SECS),
{
    tries < MAX_RETRIES && elapsed_secs < TIMEOUT_SECS
}

/// Whether the cluster can be asked in the background: there must be credentials.
pub fn collect_cluster_info_background(doris_config: &DorisConfig) -> (r: bool)
    ensures
        r == doris_config@.mysql is Some,
{
    doris_config.mysql.is_some()
}

/// Whether the background collector is to be started: the coordination role
/// runs here and there are credentials.
pub fn spawn_cluster_info_collector(fe_process_exists: bool, doris_config: &DorisConfig) -> (r:
    bool)
    ensures
        r == (fe_process_exists && doris_config@.mysql is Some),
{
    fe_process_exists && doris_config.mysql.is_some()
}

} // verus!
