//! What can go wrong in an evaluation.

use vstd::prelude::*;

verus! {

/// How an external tool ended.
#[derive(Clone, Copy, Debug, PartialEq, Eq, Structural)]
pub enum ToolExit {
    /// The process could not be started.
    NotStarted,
    /// The process ran and returned this exit code.
    Code(i32),
    /// The process ended without an exit code.
    NoCode,
}

impl ToolExit {
    /// Only exit code 0 is success.
    pub open spec fn is_success(&self) -> bool {
        *self == ToolExit::Code(0)
    }

    /// Whether the tool ended with exit code 0.
    pub fn succeeded(&self) -> (ok: bool)
        ensures
            ok == self.is_success(),
    {
        match self {
            ToolExit::Code(code) => *code == 0,
            _ => false,
        }
    }
}

/// The failures of an evaluation.
#[derive(Clone, Copy, Debug, PartialEq, Eq, Structural)]
pub enum EvalError {
    /// An input file is missing.
    InputNotFound,
    /// A line of the alignment records, or the header of a classifier's
    /// record, cannot be parsed.
    MalformedRecord,
    /// The classifier's output cannot be decoded.
    UnreadableRecord,
    /// A classifier's record has an empty header, so it carries no
    /// orientation symbol.
    MissingOrientationMarker,
    /// The external tool could not be started or did not exit with code 0.
    ExternalToolFailure(ToolExit),
    /// The configuration has no mapping to arguments of the tool asked for.
    UnsupportedConfiguration,
    /// A report could not be written.
    WriteFailure,
}

impl EvalError {
    /// Whether the failure ends a whole sweep. A missing input and a
    /// configuration without a mapping to arguments are failures of the
    /// setup, after which no cell can give a result; every other failure is
    /// that of one cell.
    pub open spec fn is_fatal(&self) -> bool {
        *self == EvalError::InputNotFound || *self == EvalError::UnsupportedConfiguration
    }

    /// Whether the failure ends a whole sweep.
    pub fn fatal(&self) -> (fatal: bool)
        ensures
            fatal == self.is_fatal(),
    {
        match self {
            EvalError::InputNotFound => true,
            EvalError::UnsupportedConfiguration => true,
            _ => false,
        }
    }

    /// The name under which a report shows this failure.
    pub open spec fn spec_name(&self) -> Seq<char> {
        match self {
            EvalError::InputNotFound => "InputNotFound"@,
            EvalError::MalformedRecord => "MalformedRecord"@,
            EvalError::UnreadableRecord => "UnreadableRecord"@,
            EvalError::MissingOrientationMarker => "MissingOrientationMarker"@,
            EvalError::ExternalToolFailure(_) => "ExternalToolFailure"@,
            EvalError::UnsupportedConfiguration => "UnsupportedConfiguration"@,
            EvalError::WriteFailure => "WriteFailure"@,
        }
    }

    /// The name under which a report shows this failure.
    pub fn name(&self) -> (name: &'static str)
        ensures
            name@ == self.spec_name(),
    {
        match self {
            EvalError::InputNotFound => "InputNotFound",
            EvalError::MalformedRecord => "MalformedRecord",
            EvalError::UnreadableRecord => "UnreadableRecord",
            EvalError::MissingOrientationMarker => "MissingOrientationMarker",
            EvalError::ExternalToolFailure(_) => "ExternalToolFailure",
            EvalError::UnsupportedConfiguration => "UnsupportedConfiguration",
            EvalError::WriteFailure => "WriteFailure",
        }
    }
}

} // verus!
