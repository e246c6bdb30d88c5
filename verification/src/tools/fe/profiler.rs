use crate::config_loader::DorisConfig;
use crate::error::{CliError, ErrorView};
use crate::text::{
    chars_of, concat3, decimal_text, join_path, opt_text, parse_u32, path_join, trim, trimmed,
    u64_to_string, unsigned_of,
};
use crate::tools::Tool;
use vstd::prelude::*;

verus! {

/// Profiles the coordination role for a while.
#[derive(Debug, Clone, Copy, PartialEq, Eq, Structural)]
pub struct FeProfilerTool;

impl Tool for FeProfilerTool {
    open spec fn name_text(&self) -> Seq<char> {
        "fe-profiler"@
    }

    open spec fn description_text(&self) -> Seq<char> {
        "Generate flame graph for FE performance analysis using async-profiler"@
    }

    open spec fn needs_pid(&self) -> bool {
        false
    }

    fn name(&self) -> (r: String) {
        "fe-profiler".to_owned()
    }

    fn description(&self) -> (r: String) {
        "Generate flame graph for FE performance analysis using async-profiler".to_owned()
    }

    fn requires_pid(&self) -> (r: bool) {
        false
    }
}

/// The time to profile for that an answer stands for: the number that it writes,
/// ten where it is blank; only a number from one to three hundred will do.
pub open spec fn duration_of(input: Seq<char>) -> Option<u32> {
    let text = if trimmed(input).len() == 0 {
        "10"@
    } else {
        trimmed(input)
    };
    match unsigned_of(text, 0xFFFF_FFFF) {
        Some(n) => if 0 < n <= 300 {
            Some(n as u32)
        } else {
            None
        },
        None => None,
    }
}

/// What the operator is warned of where an answer will not do as the time to
/// profile for.
pub open spec fn warning_of(input: Seq<char>) -> Option<Seq<char>> {
    let text = if trimmed(input).len() == 0 {
        "10"@
    } else {
        trimmed(input)
    };
    match unsigned_of(text, 0xFFFF_FFFF) {
        Some(n) => if 0 < n <= 300 {
            None
        } else {
            Some("Duration must be between 1 and 300 seconds!"@)
        },
        None => Some("Please enter a valid number!"@),
    }
}

impl FeProfilerTool {
    /// Reads the time to profile for from the operator's answer. An answer
    /// that will not do sends the operator back, without a failure.
    pub fn prompt_duration(input: &str) -> (r: Result<u32, CliError>)
        ensures
            match duration_of(input@) {
                Some(n) => r == Ok::<u32, CliError>(n),
                None => r is Err && r->Err_0@ == ErrorView::GracefulExit,
            },
    {
        let t = trim(input);
        let parsed = if chars_of(t.as_str()).len() == 0 {
            parse_u32("10")
        } else {
            parse_u32(t.as_str())
        };
        match parsed {
            Some(val) => {
                if val > 0 && val <= 300 {
                    Ok(val)
                } else {
                    Err(CliError::GracefulExit)
                }
            },
            None => Err(CliError::GracefulExit),
        }
    }

    /// What the operator is warned of where the answer will not do: that the
    /// number is out of range, or that the answer is no number; nothing where it
    /// will do.
    pub fn duration_warning(input: &str) -> (r: Option<String>)
        ensures
            opt_text(r) == warning_of(input@),
    {
        let t = trim(input);
        let parsed = if chars_of(t.as_str()).len() == 0 {
            parse_u32("10")
        } else {
            parse_u32(t.as_str())
        };
        match parsed {
            Some(val) => {
                if val > 0 && val <= 300 {
                    None
                } else {
                    Some("Duration must be between 1 and 300 seconds!".to_owned())
                }
            },
            None => Some("Please enter a valid number!".to_owned()),
        }
    }

    /// The install directory of the coordination role by a record: the one that
    /// the record keeps for that role, or else the install directory of the record.
    pub fn install_dir(record: &DorisConfig) -> (r: String)
        ensures
            r@ == match record@.fe_install_dir {
                Some(dir) => dir,
                None => record@.install_dir,
            },
    {
        match &record.fe_install_dir {
            Some(dir) => dir.clone(),
            None => record.install_dir.clone(),
        }
    }

    /// The time to profile for that the environment sets: the number that the
    /// variable writes, or ten.
    pub fn duration_from_env(value: &str) -> (r: u32)
        ensures
            r == match unsigned_of(value@, 0xFFFF_FFFF) {
                Some(n) => n as u32,
                None => 10u32,
            },
    {
        match parse_u32(value) {
            Some(n) => n,
            None => 10,
        }
    }

    /// Where the script of the profiler is, under the install directory of the
    /// coordination role.
    pub fn script_path(fe_install_dir: &str) -> (r: String)
        ensures
            r@ == path_join(path_join(fe_install_dir@, "bin"@), "profile_fe.sh"@),
    {
        let bin = join_path(fe_install_dir, "bin");
        join_path(bin.as_str(), "profile_fe.sh")
    }

    /// What profiling gives: what to tell the operator when it is done, or what
    /// is wrong where the script is not there.
    pub fn execute_with_duration(&self, script: &str, script_exists: bool, duration: u32) -> (r:
        Result<String, CliError>)
        ensures
            match r {
                Ok(said) => script_exists && said@ == "Flame graph generated successfully (duration: "@
                    + decimal_text(duration as nat) + "s)."@,
                Err(e) => !script_exists && e@ == ErrorView::ConfigError(
                    "profile_fe.sh not found at "@ + script@
                        + ". Please ensure Doris version is 2.1.4+"@,
                ),
            },
    {
        if !script_exists {
            return Err(
                CliError::ConfigError(
                    concat3(
                        "profile_fe.sh not found at ",
                        script,
                        ". Please ensure Doris version is 2.1.4+",
                    ),
                ),
            );
        }
        let n = u64_to_string(duration as u64);
        Ok(concat3("Flame graph generated successfully (duration: ", n.as_str(), "s)."))
    }
}

} // verus!
