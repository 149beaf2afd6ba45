//! The environment from which secrets are read.

use crate::metadata::entries::{find, lemma_position_first, lemma_position_none, lookup};
use vstd::prelude::*;

verus! {

/// The name of an environment variable.
#[derive(Debug)]
pub struct Variable(pub String);

impl View for Variable {
    type V = Seq<char>;

    open spec fn view(&self) -> Seq<char> {
        self.0@
    }
}

impl Clone for Variable {
    fn clone(&self) -> (copy: Self)
        ensures
            copy@ == self@,
    {
        Variable(self.0.clone())
    }
}

impl Variable {
    pub fn new(name: String) -> (variable: Variable)
        ensures
            variable@ == name@,
    {
        Variable(name)
    }
}

/// Why a variable could not be read.
#[derive(Debug)]
pub enum Error {
    /// The value of the variable is no text.
    NonUnicodeValue(String),
    VariableNotPresent(Variable),
}

pub enum ErrorView {
    NonUnicodeValue(Seq<char>),
    VariableNotPresent(Seq<char>),
}

impl View for Error {
    type V = ErrorView;

    open spec fn view(&self) -> ErrorView {
        match self {
            Error::NonUnicodeValue(value) => ErrorView::NonUnicodeValue(value@),
            Error::VariableNotPresent(variable) => ErrorView::VariableNotPresent(variable@),
        }
    }
}

/// What an error says.
pub open spec fn error_message(error: ErrorView) -> Seq<char> {
    match error {
        ErrorView::NonUnicodeValue(value) => "value is not valid unicode: "@ + value,
        ErrorView::VariableNotPresent(variable) => "missing environment variable: "@ + variable,
    }
}

impl Error {
    /// What the error says.
    pub fn message(&self) -> (text: String)
        ensures
            text@ == error_message(self@),
    {
        match self {
            Error::NonUnicodeValue(value) => String::from_str("value is not valid unicode: ").concat(
                value.as_str(),
            ),
            Error::VariableNotPresent(variable) => String::from_str(
                "missing environment variable: ",
            ).concat(variable.0.as_str()),
        }
    }
}

/// The view of what was read, or of an error.
pub open spec fn read_view(result: Result<String, Error>) -> Result<Seq<char>, ErrorView> {
    match result {
        Ok(value) => Ok(value@),
        Err(error) => Err(error@),
    }
}

/// Something that variables are read from.
pub trait Environment {
    /// What reading a variable gives.
    spec fn value(&self, variable: Seq<char>) -> Result<Seq<char>, ErrorView>;

    /// Reads a variable.
    fn read(&self, variable: &Variable) -> (result: Result<String, Error>)
        ensures
            read_view(result) == self.value(variable@),
    ;
}

/// An environment that holds no variable.
#[derive(Debug, Clone, Copy)]
pub struct EmptyEnvironment;

impl Environment for EmptyEnvironment {
    open spec fn value(&self, variable: Seq<char>) -> Result<Seq<char>, ErrorView> {
        Err(ErrorView::VariableNotPresent(variable))
    }

    fn read(&self, variable: &Variable) -> (result: Result<String, Error>) {
        Err(Error::VariableNotPresent(variable.clone()))
    }
}

/// An environment that holds the variables it was made with.
#[derive(Debug)]
pub struct FixedEnvironment(pub Vec<(String, String)>);

impl View for FixedEnvironment {
    type V = Seq<(Seq<char>, Seq<char>)>;

    open spec fn view(&self) -> Seq<(Seq<char>, Seq<char>)> {
        self.0@.map_values(|e: (String, String)| (e.0@, e.1@))
    }
}

impl FixedEnvironment {
    pub fn new(variables: Vec<(String, String)>) -> (environment: FixedEnvironment)
        ensures
            environment.0 == variables,
    {
        FixedEnvironment(variables)
    }
}

impl Environment for FixedEnvironment {
    open spec fn value(&self, variable: Seq<char>) -> Result<Seq<char>, ErrorView> {
        match lookup(self@, variable) {
            Some(value) => Ok(value),
            None => Err(ErrorView::VariableNotPresent(variable)),
        }
    }

    fn read(&self, variable: &Variable) -> (result: Result<String, Error>) {
        match find(&self.0, &variable.0) {
            Some(index) => {
                proof {
                    lemma_position_first(self@, variable@, index as int);
                }
                Ok(self.0[index].1.clone())
            },
            None => {
                proof {
                    lemma_position_none(self@, variable@);
                }
                Err(Error::VariableNotPresent(variable.clone()))
            },
        }
    }
}

} // verus!
