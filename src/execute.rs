//! Running a candidate script: the failure taxonomy, and the classification of
//! what the interpreter reports into a result or a failure.
use vstd::prelude::*;
use vstd::string::StringExecFns;
use crate::normalize::{normalized, normalize_result};

verus! {

/// Why a run of a candidate produced no result.
#[derive(Clone, Debug)]
pub enum ExecuteError {
    /// The script did not compile; the compiler's message.
    CompileError(String),
    /// The script raised; the interpreter's full rendering of the exception.
    ExecutionError(String),
    /// The script finished without binding `result`.
    ResultNotFound,
    /// `result` is bound to a value that is not text; the name of its type.
    ResultConversionError(String),
}

/// What the interpreter reports of one run, before classification.
#[derive(Clone, Debug)]
pub enum RunReport {
    /// Compilation failed with this message.
    CompileFailed(String),
    /// Running raised; the rendered exception.
    Raised(String),
    /// The run ended with no `result` in scope.
    Unbound,
    /// `result` holds a value of the named type, which is not text.
    NotText(String),
    /// `result` holds this text.
    Text(String),
}

impl ExecuteError {
    /// The message shown to the user for this failure.
    pub open spec fn message_spec(&self) -> Seq<char> {
        match self {
            ExecuteError::CompileError(m) => "Error compiling Python program: "@ + m@,
            ExecuteError::ExecutionError(m) => "Error executing Python program: "@ + m@,
            ExecuteError::ResultNotFound => "Error: 'result' variable not found"@,
            ExecuteError::ResultConversionError(t) =>
                "Error: Failed to convert 'result' PyObject to a Rust String; type is: "@ + t@,
        }
    }

    /// The message shown to the user for this failure.
    pub fn message(&self) -> (r: String)
        ensures
            r@ == self.message_spec(),
    {
        match self {
            ExecuteError::CompileError(m) => {
                let mut r = String::from_str("Error compiling Python program: ");
                r.append(m.as_str());
                r
            },
            ExecuteError::ExecutionError(m) => {
                let mut r = String::from_str("Error executing Python program: ");
                r.append(m.as_str());
                r
            },
            ExecuteError::ResultNotFound => String::from_str("Error: 'result' variable not found"),
            ExecuteError::ResultConversionError(t) => {
                let mut r = String::from_str(
                    "Error: Failed to convert 'result' PyObject to a Rust String; type is: ",
                );
                r.append(t.as_str());
                r
            },
        }
    }
}

/// The outcome a run report stands for: text in `result` succeeds, normalised;
/// every other report is the failure of the same kind, carrying its text.
pub open spec fn outcome_matches(report: RunReport, r: Result<String, ExecuteError>) -> bool {
    match report {
        RunReport::CompileFailed(m) => r matches Err(ExecuteError::CompileError(e)) && e@ == m@,
        RunReport::Raised(m) => r matches Err(ExecuteError::ExecutionError(e)) && e@ == m@,
        RunReport::Unbound => r matches Err(ExecuteError::ResultNotFound),
        RunReport::NotText(t) => r matches Err(ExecuteError::ResultConversionError(e)) && e@
            == t@,
        RunReport::Text(s) => r matches Ok(o) && o@ == normalized(s@),
    }
}

/// Turns what the interpreter reported of a run into the run's outcome.
pub fn classify(report: RunReport) -> (r: Result<String, ExecuteError>)
    ensures
        outcome_matches(report, r),
{
    match report {
        RunReport::CompileFailed(m) => Err(ExecuteError::CompileError(m)),
        RunReport::Raised(m) => Err(ExecuteError::ExecutionError(m)),
        RunReport::Unbound => Err(ExecuteError::ResultNotFound),
        RunReport::NotText(t) => Err(ExecuteError::ResultConversionError(t)),
        RunReport::Text(s) => Ok(normalize_result(s.as_str())),
    }
}

} // verus!
