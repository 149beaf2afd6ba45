//! What can go wrong with a configuration.

use vstd::prelude::*;

verus! {

/// Why a configuration could not be read.
#[derive(Debug)]
pub enum ParseConfigurationError {
    ParseError { file_path: String, line: usize, column: usize, message: String },
    EmptyConnection { file_path: String },
    IoErrorButStringified(String),
    IoError(String),
    DidNotFindExpectedVersionTag(String),
    UnableToParseAnyVersions(String),
}

/// Why a configuration could not be written.
#[derive(Debug)]
pub enum WriteParsedConfigurationError {
    IoError(String),
}

/// Why a configuration could not be made ready to serve queries.
#[derive(Debug)]
pub enum MakeRuntimeConfigurationError {
    MissingEnvironmentVariable { file_path: String, message: String },
}

pub enum MakeRuntimeConfigurationErrorView {
    MissingEnvironmentVariable { file_path: Seq<char>, message: Seq<char> },
}

impl View for MakeRuntimeConfigurationError {
    type V = MakeRuntimeConfigurationErrorView;

    open spec fn view(&self) -> MakeRuntimeConfigurationErrorView {
        match self {
            MakeRuntimeConfigurationError::MissingEnvironmentVariable {
                file_path,
                message,
            } => MakeRuntimeConfigurationErrorView::MissingEnvironmentVariable {
                file_path: file_path@,
                message: message@,
            },
        }
    }
}

} // verus!
