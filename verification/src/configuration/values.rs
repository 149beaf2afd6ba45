//! Values of the configuration that may be secrets.

use crate::configuration::environment::Variable;
use vstd::prelude::*;

verus! {

/// A value that is written in the configuration, or the name of the
/// environment variable that holds it.
#[derive(Debug)]
pub enum Secret {
    Plain(String),
    FromEnvironment { variable: Variable },
}

pub enum SecretView {
    Plain(Seq<char>),
    FromEnvironment { variable: Seq<char> },
}

impl View for Secret {
    type V = SecretView;

    open spec fn view(&self) -> SecretView {
        match self {
            Secret::Plain(value) => SecretView::Plain(value@),
            Secret::FromEnvironment { variable } => SecretView::FromEnvironment {
                variable: variable@,
            },
        }
    }
}

impl Clone for Secret {
    fn clone(&self) -> (copy: Self)
        ensures
            copy@ == self@,
    {
        match self {
            Secret::Plain(value) => Secret::Plain(value.clone()),
            Secret::FromEnvironment { variable } => Secret::FromEnvironment {
                variable: variable.clone(),
            },
        }
    }
}

impl Secret {
    /// A secret that is written out.
    pub fn plain(value: &str) -> (secret: Secret)
        ensures
            secret@ == SecretView::Plain(value@),
    {
        Secret::Plain(String::from_str(value))
    }

    /// A secret that is read from an environment variable.
    pub fn from_environment(variable: &str) -> (secret: Secret)
        ensures
            secret@ == (SecretView::FromEnvironment { variable: variable@ }),
    {
        Secret::FromEnvironment { variable: Variable::new(String::from_str(variable)) }
    }
}

/// The identifier of an access key.
#[derive(Debug, Clone)]
pub struct AccessKeyId(pub Secret);

/// The secret of an access key.
#[derive(Debug, Clone)]
pub struct SecretAccessKey(pub Secret);

/// The name of a provider of credentials.
#[derive(Debug, Clone)]
pub struct ProviderName(pub Secret);

/// The region of the database.
#[derive(Debug, Clone)]
pub struct Region(pub Secret);

/// The address of the database.
#[derive(Debug, Clone)]
pub struct Url(pub Secret);

impl View for AccessKeyId {
    type V = SecretView;

    open spec fn view(&self) -> SecretView {
        self.0@
    }
}

impl View for SecretAccessKey {
    type V = SecretView;

    open spec fn view(&self) -> SecretView {
        self.0@
    }
}

impl View for ProviderName {
    type V = SecretView;

    open spec fn view(&self) -> SecretView {
        self.0@
    }
}

impl View for Region {
    type V = SecretView;

    open spec fn view(&self) -> SecretView {
        self.0@
    }
}

impl View for Url {
    type V = SecretView;

    open spec fn view(&self) -> SecretView {
        self.0@
    }
}

impl AccessKeyId {
    /// An identifier that is written out.
    pub fn from(value: String) -> (id: Self)
        ensures
            id@ == SecretView::Plain(value@),
    {
        AccessKeyId(Secret::Plain(value))
    }
}

impl SecretAccessKey {
    /// A secret that is written out.
    pub fn from(value: String) -> (key: Self)
        ensures
            key@ == SecretView::Plain(value@),
    {
        SecretAccessKey(Secret::Plain(value))
    }
}

impl ProviderName {
    /// A name that is written out.
    pub fn from(value: String) -> (name: Self)
        ensures
            name@ == SecretView::Plain(value@),
    {
        ProviderName(Secret::Plain(value))
    }
}

impl Region {
    /// A region that is written out.
    pub fn from(value: String) -> (region: Self)
        ensures
            region@ == SecretView::Plain(value@),
    {
        Region(Secret::Plain(value))
    }
}

impl Url {
    /// An address that is written out.
    pub fn from(value: String) -> (url: Self)
        ensures
            url@ == SecretView::Plain(value@),
    {
        Url(Secret::Plain(value))
    }
}

} // verus!
