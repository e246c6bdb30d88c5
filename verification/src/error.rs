use crate::text::concat;
use vstd::prelude::*;

verus! {

/// What can go wrong in the console, by kind.
#[derive(Debug)]
pub enum CliError {
    /// No process of the wanted role runs on this host.
    ProcessNotFound(String),
    /// A process could not be run.
    ProcessExecutionFailed(String),
    /// A diagnostic tool failed.
    ToolExecutionFailed(String),
    /// A file or a pipe could not be read or written; the text is the system's message.
    IoError(String),
    /// The operator typed something that cannot be used.
    InvalidInput(String),
    /// The configuration is missing or cannot be used.
    ConfigError(String),
    /// The database refused the stored credentials.
    MySQLAccessDenied(String),
    /// The operator chose to leave; nothing failed.
    GracefulExit,
}

/// What a `CliError` holds, as plain values.
pub enum ErrorView {
    ProcessNotFound(Seq<char>),
    ProcessExecutionFailed(Seq<char>),
    ToolExecutionFailed(Seq<char>),
    IoError(Seq<char>),
    InvalidInput(Seq<char>),
    ConfigError(Seq<char>),
    MySQLAccessDenied(Seq<char>),
    GracefulExit,
}

impl View for CliError {
    type V = ErrorView;

    open spec fn view(&self) -> ErrorView {
        match self {
            CliError::ProcessNotFound(m) => ErrorView::ProcessNotFound(m@),
            CliError::ProcessExecutionFailed(m) => ErrorView::ProcessExecutionFailed(m@),
            CliError::ToolExecutionFailed(m) => ErrorView::ToolExecutionFailed(m@),
            CliError::IoError(m) => ErrorView::IoError(m@),
            CliError::InvalidInput(m) => ErrorView::InvalidInput(m@),
            CliError::ConfigError(m) => ErrorView::ConfigError(m@),
            CliError::MySQLAccessDenied(m) => ErrorView::MySQLAccessDenied(m@),
            CliError::GracefulExit => ErrorView::GracefulExit,
        }
    }
}

/// What a result holds where it failed.
pub open spec fn failure<T>(r: Result<T, CliError>) -> Option<ErrorView> {
    match r {
        Ok(_) => None,
        Err(e) => Some(e@),
    }
}

/// The text shown for an error.
pub open spec fn text_of(e: ErrorView) -> Seq<char> {
    match e {
        ErrorView::ProcessNotFound(m) => "Process not found: "@ + m,
        ErrorView::ProcessExecutionFailed(m) => "Process execution failed: "@ + m,
        ErrorView::ToolExecutionFailed(m) => "Tool execution failed: "@ + m,
        ErrorView::IoError(m) => "IO error: "@ + m,
        ErrorView::InvalidInput(m) => "Invalid input: "@ + m,
        ErrorView::ConfigError(m) => "Configuration error: "@ + m,
        ErrorView::MySQLAccessDenied(m) => "MySQL access denied: "@ + m,
        ErrorView::GracefulExit => "Graceful exit"@,
    }
}

impl CliError {
    /// The text shown for the error.
    pub open spec fn text(&self) -> Seq<char> {
        text_of(self@)
    }

    /// The text shown for the error.
    pub fn message(&self) -> (r: String)
        ensures
            r@ == self.text(),
    {
        match self {
            CliError::ProcessNotFound(m) => concat("Process not found: ", m.as_str()),
            CliError::ProcessExecutionFailed(m) => concat(
                "Process execution failed: ",
                m.as_str(),
            ),
            CliError::ToolExecutionFailed(m) => concat("Tool execution failed: ", m.as_str()),
            CliError::IoError(m) => concat("IO error: ", m.as_str()),
            CliError::InvalidInput(m) => concat("Invalid input: ", m.as_str()),
            CliError::ConfigError(m) => concat("Configuration error: ", m.as_str()),
            CliError::MySQLAccessDenied(m) => concat("MySQL access denied: ", m.as_str()),
            CliError::GracefulExit => "Graceful exit".to_owned(),
        }
    }

    /// Whether the error only says that the operator chose to leave.
    pub fn is_graceful_exit(&self) -> (b: bool)
        ensures
            b == (self is GracefulExit),
    {
        match self {
            CliError::GracefulExit => true,
            _ => false,
        }
    }

    /// A copy of the error.
    pub fn duplicate(&self) -> (r: CliError)
        ensures
            r == *self,
    {
        match self {
            CliError::ProcessNotFound(m) => CliError::ProcessNotFound(m.clone()),
            CliError::ProcessExecutionFailed(m) => CliError::ProcessExecutionFailed(m.clone()),
            CliError::ToolExecutionFailed(m) => CliError::ToolExecutionFailed(m.clone()),
            CliError::IoError(m) => CliError::IoError(m.clone()),
            CliError::InvalidInput(m) => CliError::InvalidInput(m.clone()),
            CliError::ConfigError(m) => CliError::ConfigError(m.clone()),
            CliError::MySQLAccessDenied(m) => CliError::MySQLAccessDenied(m.clone()),
            CliError::GracefulExit => CliError::GracefulExit,
        }
    }
}

} // verus!
