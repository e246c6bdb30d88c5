use crate::config::{Config, ConfigView};
use crate::error::{CliError, ErrorView};
use crate::text::{contains, has_substring, same_text, texts};
use vstd::prelude::*;

verus! {

/// The dialogue that follows a tool that failed.
#[derive(Debug, Clone, Copy, PartialEq, Eq, Structural)]
pub enum ErrorDialog {
    /// A tool for routine load jobs ran before a job was chosen.
    NoJobId,
    /// No storage node answered.
    BeConnectivity,
    /// The script of the profiler is not there.
    ProfilerScriptMissing,
    /// Something is wrong with the settings; the operator may put right what is
    /// marked.
    Configuration { fix_jdk: bool, fix_output_dir: bool },
}

/// What the operator chose to do about a tool that failed.
#[derive(Debug, Clone, Copy, PartialEq, Eq, Structural)]
pub enum ErrorAction {
    /// Run the tool again with the same settings.
    Retry,
    /// Ask for the JDK directory, then run the tool again.
    FixJdkPath,
    /// Ask for the output directory, then run the tool again.
    FixOutputDirectory,
    /// Go back to the menu.
    ReturnToMenu,
}

/// Whether a failure tells that no storage node answered.
pub open spec fn tells_be_unreachable(said: Seq<char>) -> bool {
    has_substring(said, "Could not connect to any BE http port"@)
}

/// Whether a failure tells that the profiler's script is missing.
pub open spec fn tells_script_missing(tool_name: Seq<char>, said: Seq<char>) -> bool {
    has_substring(tool_name, "fe-profiler"@) && has_substring(said, "profile_fe.sh not found"@)
}

/// Whether the JDK is to be put right: the failure speaks of it, or its tools
/// are not where the settings say.
pub open spec fn jdk_missing(said: Seq<char>, jdk_tools_exist: bool) -> bool {
    has_substring(said, "JDK path does not exist"@) || has_substring(said, "jmap"@)
        || has_substring(said, "jstack"@) || !jdk_tools_exist
}

/// Whether the output directory is to be put right.
pub open spec fn output_dir_invalid(said: Seq<char>, output_dir_exists: bool) -> bool {
    has_substring(said, "Cannot create directory"@) || has_substring(
        said,
        "Output dir input failed"@,
    ) || !output_dir_exists
}

/// The dialogue that follows a tool that failed with the message `said`.
pub open spec fn dialog_for(
    service_name: Seq<char>,
    tool_name: Seq<char>,
    said: Seq<char>,
    jdk_tools_exist: bool,
    output_dir_exists: bool,
) -> ErrorDialog {
    if service_name == "FE"@ && has_substring(tool_name, "routine_load"@) && has_substring(
        said,
        "No Job ID in memory"@,
    ) {
        ErrorDialog::NoJobId
    } else if service_name == "BE"@ && tells_be_unreachable(said) {
        ErrorDialog::BeConnectivity
    } else if service_name == "FE"@ && tells_script_missing(tool_name, said) {
        ErrorDialog::ProfilerScriptMissing
    } else {
        ErrorDialog::Configuration {
            fix_jdk: jdk_missing(said, jdk_tools_exist),
            fix_output_dir: output_dir_invalid(said, output_dir_exists),
        }
    }
}

/// Whether a failure tells that no storage node answered.
pub fn is_be_connectivity_error(error: &CliError) -> (b: bool)
    ensures
        b == tells_be_unreachable(error.text()),
{
    let s = error.message();
    contains(s.as_str(), "Could not connect to any BE http port")
}

/// Whether a failure tells that the profiler's script is missing.
pub fn is_fe_profiler_script_missing(tool_name: &str, error: &CliError) -> (b: bool)
    ensures
        b == tells_script_missing(tool_name@, error.text()),
{
    let s = error.message();
    contains(tool_name, "fe-profiler") && contains(s.as_str(), "profile_fe.sh not found")
}

/// Whether the JDK is to be put right.
pub fn is_jdk_missing(error: &CliError, jdk_tools_exist: bool) -> (b: bool)
    ensures
        b == jdk_missing(error.text(), jdk_tools_exist),
{
    let s = error.message();
    if contains(s.as_str(), "JDK path does not exist") || contains(s.as_str(), "jmap") || contains(
        s.as_str(),
        "jstack",
    ) {
        return true;
    }
    !jdk_tools_exist
}

/// Whether the output directory is to be put right.
pub fn is_output_dir_invalid(error: &CliError, output_dir_exists: bool) -> (b: bool)
    ensures
        b == output_dir_invalid(error.text(), output_dir_exists),
{
    let s = error.message();
    if contains(s.as_str(), "Cannot create directory") || contains(
        s.as_str(),
        "Output dir input failed",
    ) {
        return true;
    }
    !output_dir_exists
}

/// The dialogue that follows a tool that failed: `jdk_tools_exist` says whether
/// the two JDK tools are where the settings say, and `output_dir_exists` whether
/// the output directory is there.
pub fn classify_tool_error(
    error: &CliError,
    service_name: &str,
    tool_name: &str,
    jdk_tools_exist: bool,
    output_dir_exists: bool,
) -> (r: ErrorDialog)
    ensures
        r == dialog_for(
            service_name@,
            tool_name@,
            error.text(),
            jdk_tools_exist,
            output_dir_exists,
        ),
{
    let s = error.message();
    if same_text(service_name, "FE") && contains(tool_name, "routine_load") && contains(
        s.as_str(),
        "No Job ID in memory",
    ) {
        return ErrorDialog::NoJobId;
    }
    if same_text(service_name, "BE") && is_be_connectivity_error(error) {
        return ErrorDialog::BeConnectivity;
    }
    if same_text(service_name, "FE") && is_fe_profiler_script_missing(tool_name, error) {
        return ErrorDialog::ProfilerScriptMissing;
    }
    ErrorDialog::Configuration {
        fix_jdk: is_jdk_missing(error, jdk_tools_exist),
        fix_output_dir: is_output_dir_invalid(error, output_dir_exists),
    }
}

/// The entries that a dialogue offers.
pub open spec fn options_of(dialog: ErrorDialog) -> Seq<Seq<char>> {
    match dialog {
        ErrorDialog::NoJobId => seq![
            "Go to Get Job ID"@,
            "Return to Routine Load menu"@,
            "Cancel and return to menu"@,
        ],
        ErrorDialog::BeConnectivity => seq!["Retry"@, "Return to menu"@],
        ErrorDialog::ProfilerScriptMissing => seq!["Return to menu"@],
        ErrorDialog::Configuration { fix_jdk, fix_output_dir } => (if fix_jdk {
            seq!["Fix JDK path and retry"@]
        } else {
            seq![]
        }) + (if fix_output_dir {
            seq!["Fix output directory and retry"@]
        } else {
            seq![]
        }) + seq!["Cancel and return to menu"@],
    }
}

/// The entries that a dialogue offers.
pub fn dialog_options(dialog: ErrorDialog) -> (r: Vec<String>)
    ensures
        texts(r@) == options_of(dialog),
{
    let mut options: Vec<String> = Vec::new();
    match dialog {
        ErrorDialog::NoJobId => {
            options.push("Go to Get Job ID".to_owned());
            options.push("Return to Routine Load menu".to_owned());
            options.push("Cancel and return to menu".to_owned());
        },
        ErrorDialog::BeConnectivity => {
            options.push("Retry".to_owned());
            options.push("Return to menu".to_owned());
        },
        ErrorDialog::ProfilerScriptMissing => {
            options.push("Return to menu".to_owned());
        },
        ErrorDialog::Configuration { fix_jdk, fix_output_dir } => {
            if fix_jdk {
                options.push("Fix JDK path and retry".to_owned());
            }
            if fix_output_dir {
                options.push("Fix output directory and retry".to_owned());
            }
            options.push("Cancel and return to menu".to_owned());
        },
    }
    assert(texts(options@) =~= options_of(dialog));
    options
}

/// What the entry number `selection` of a dialogue stands for. Without a job,
/// the first two entries leave the tool, and the third goes back to the menu;
/// any other number is no entry.
pub open spec fn action_of(dialog: ErrorDialog, selection: usize) -> Result<
    ErrorAction,
    ErrorView,
> {
    match dialog {
        ErrorDialog::NoJobId => if selection <= 1 {
            Err(ErrorView::GracefulExit)
        } else if selection == 2 {
            Ok(ErrorAction::ReturnToMenu)
        } else {
            Err(ErrorView::InvalidInput("Invalid selection"@))
        },
        ErrorDialog::BeConnectivity => if selection == 0 {
            Ok(ErrorAction::Retry)
        } else {
            Ok(ErrorAction::ReturnToMenu)
        },
        ErrorDialog::ProfilerScriptMissing => Ok(ErrorAction::ReturnToMenu),
        ErrorDialog::Configuration { fix_jdk, fix_output_dir } => if fix_jdk && selection == 0 {
            Ok(ErrorAction::FixJdkPath)
        } else if fix_output_dir && ((fix_jdk && selection == 1) || (!fix_jdk && selection == 0)) {
            Ok(ErrorAction::FixOutputDirectory)
        } else {
            Ok(ErrorAction::ReturnToMenu)
        },
    }
}

/// What the operator's choice in the dialogue after a failure stands for.
pub fn handle_tool_execution_error(dialog: ErrorDialog, selection: usize) -> (r: Result<
    ErrorAction,
    CliError,
>)
    ensures
        match r {
            Ok(a) => action_of(dialog, selection) == Ok::<_, ErrorView>(a),
            Err(e) => action_of(dialog, selection) == Err::<ErrorAction, _>(e@),
        },
{
    match dialog {
        ErrorDialog::NoJobId => {
            if selection <= 1 {
                Err(CliError::GracefulExit)
            } else if selection == 2 {
                Ok(ErrorAction::ReturnToMenu)
            } else {
                Err(CliError::InvalidInput("Invalid selection".to_owned()))
            }
        },
        ErrorDialog::BeConnectivity => {
            if selection == 0 {
                Ok(ErrorAction::Retry)
            } else {
                Ok(ErrorAction::ReturnToMenu)
            }
        },
        ErrorDialog::ProfilerScriptMissing => Ok(ErrorAction::ReturnToMenu),
        ErrorDialog::Configuration { fix_jdk, fix_output_dir } => {
            if fix_jdk && selection == 0 {
                Ok(ErrorAction::FixJdkPath)
            } else if fix_output_dir && ((fix_jdk && selection == 1) || (!fix_jdk && selection
                == 0)) {
                Ok(ErrorAction::FixOutputDirectory)
            } else {
                Ok(ErrorAction::ReturnToMenu)
            }
        },
    }
}

/// The settings with the JDK directory that the operator named, where the
/// directory and its two tools are there; else what is wrong with it.
pub fn fix_jdk_path(config: &Config, new_path: String, exists: bool, tools_exist: bool) -> (r:
    Result<Config, String>)
    ensures
        match r {
            Ok(c) => exists && tools_exist && c@ == (ConfigView { jdk_path: new_path@, ..config@ }),
            Err(said) => if !exists {
                said@ == "Path does not exist: "@ + new_path@
            } else {
                !tools_exist && said@
                    == "Required JDK tools (jmap/jstack) not found in the specified path"@
            },
        },
{
    if !exists {
        return Err(crate::text::concat("Path does not exist: ", new_path.as_str()));
    }
    if !tools_exist {
        return Err("Required JDK tools (jmap/jstack) not found in the specified path".to_owned());
    }
    Ok(config.clone().with_jdk_path(new_path))
}

/// The settings with the output directory that the operator named, where it
/// could be made; else what is wrong with it.
pub fn fix_output_directory(config: &Config, new_path: String, created: Result<(), String>) -> (r:
    Result<Config, String>)
    ensures
        match created {
            Ok(_) => r is Ok && r->Ok_0@ == (ConfigView { output_dir: new_path@, ..config@ }),
            Err(e) => r is Err && r->Err_0@ == "Cannot create directory: "@ + e@,
        },
{
    match created {
        Ok(_) => Ok(config.clone().with_output_dir(new_path)),
        Err(e) => Err(crate::text::concat("Cannot create directory: ", e.as_str())),
    }
}

} // verus!
