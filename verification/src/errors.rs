//! The library's error taxonomy. Every variant names the inputs it
//! came from, so a caller can tell a refused request (an unknown tool,
//! an unsupported install combination) from an environment failure (a
//! command that could not run) or a missing stored profile.

use vstd::prelude::*;
use vstd::string::StringExecFns;

verus! {

/// A failure of one library operation.
#[derive(Debug, PartialEq)]
pub enum AppError {
    /// The tool identifier is not one the library manages.
    UnknownTool { tool: String },
    /// The (tool, method) pair is not an enumerated install combination.
    UnsupportedCombination { tool: String, method: String },
    /// A command could not be spawned, or reported a failure that the
    /// operation treats as an error; the message carries the captured text.
    ShellCommand { message: String },
    /// No stored profile carries the requested identifier.
    ProfileNotFound { id: i64 },
}

/// The mathematical model of an error.
pub enum ErrorModel {
    UnknownTool { tool: Seq<char> },
    UnsupportedCombination { tool: Seq<char>, method: Seq<char> },
    ShellCommand { message: Seq<char> },
    ProfileNotFound { id: int },
}

impl View for AppError {
    type V = ErrorModel;

    open spec fn view(&self) -> ErrorModel {
        match self {
            AppError::UnknownTool { tool } => ErrorModel::UnknownTool { tool: tool@ },
            AppError::UnsupportedCombination { tool, method } => ErrorModel::UnsupportedCombination {
                tool: tool@,
                method: method@,
            },
            AppError::ShellCommand { message } => ErrorModel::ShellCommand { message: message@ },
            AppError::ProfileNotFound { id } => ErrorModel::ProfileNotFound { id: *id as int },
        }
    }
}

/// The display text of an error model.
pub open spec fn error_text(e: ErrorModel) -> Seq<char> {
    match e {
        ErrorModel::UnknownTool { tool } => "unknown tool: "@ + tool,
        ErrorModel::UnsupportedCombination { tool, method } => "unsupported install: "@ + tool
            + " via "@ + method,
        ErrorModel::ShellCommand { message } => "command failed: "@ + message,
        ErrorModel::ProfileNotFound { id: _ } => "profile not found"@,
    }
}

impl AppError {
    /// A human-readable account of the error.
    pub fn message(&self) -> (r: String)
        ensures
            r@ == error_text(self@),
    {
        match self {
            AppError::UnknownTool { tool } => {
                let s: String = "unknown tool: ".to_owned();
                s.concat(tool.as_str())
            },
            AppError::UnsupportedCombination { tool, method } => {
                let s: String = "unsupported install: ".to_owned();
                let s = s.concat(tool.as_str());
                let s = s.concat(" via ");
                s.concat(method.as_str())
            },
            AppError::ShellCommand { message } => {
                let s: String = "command failed: ".to_owned();
                s.concat(message.as_str())
            },
            AppError::ProfileNotFound { id: _ } => "profile not found".to_owned(),
        }
    }
}

} // verus!
