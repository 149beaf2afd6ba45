//! How the database is reached.

use crate::configuration::values::{
    AccessKeyId, Region, Secret, SecretAccessKey, SecretView, Url,
};
use vstd::prelude::*;

verus! {

pub const DEFAULT_ACCESS_KEY_ID_VARIABLE: &'static str = "HASURA_DYNAMODB_AWS_ACCESS_KEY_ID";

pub const DEFAULT_SECRET_ACCESS_KEY_VARIABLE: &'static str = "HASURA_DYNAMODB_AWS_SECRET_ACCESS_KEY";

pub const DEFAULT_URL_VARIABLE: &'static str = "HASURA_DYNAMODB_URL";

pub const DEFAULT_REGION_VARIABLE: &'static str = "HASURA_DYNAMODB_AWS_REGION";

/// The credentials and the place of the database.
#[derive(Debug, Clone)]
pub struct DatabaseConnectionSettings {
    pub access_key_id: AccessKeyId,
    pub secret_access_key: SecretAccessKey,
    pub url: Url,
    pub region: Region,
}

pub struct DatabaseConnectionSettingsView {
    pub access_key_id: SecretView,
    pub secret_access_key: SecretView,
    pub url: SecretView,
    pub region: SecretView,
}

impl View for DatabaseConnectionSettings {
    type V = DatabaseConnectionSettingsView;

    open spec fn view(&self) -> DatabaseConnectionSettingsView {
        DatabaseConnectionSettingsView {
            access_key_id: self.access_key_id@,
            secret_access_key: self.secret_access_key@,
            url: self.url@,
            region: self.region@,
        }
    }
}

impl DatabaseConnectionSettings {
    /// Settings that read everything from the environment, each value from
    /// the variable that is meant for it.
    pub fn empty() -> (settings: Self)
        ensures
            settings@ == (DatabaseConnectionSettingsView {
                access_key_id: SecretView::FromEnvironment {
                    variable: DEFAULT_ACCESS_KEY_ID_VARIABLE@,
                },
                secret_access_key: SecretView::FromEnvironment {
                    variable: DEFAULT_SECRET_ACCESS_KEY_VARIABLE@,
                },
                url: SecretView::FromEnvironment { variable: DEFAULT_URL_VARIABLE@ },
                region: SecretView::FromEnvironment { variable: DEFAULT_REGION_VARIABLE@ },
            }),
    {
        DatabaseConnectionSettings {
            access_key_id: AccessKeyId(Secret::from_environment(DEFAULT_ACCESS_KEY_ID_VARIABLE)),
            secret_access_key: SecretAccessKey(
                Secret::from_environment(DEFAULT_SECRET_ACCESS_KEY_VARIABLE),
            ),
            url: Url(Secret::from_environment(DEFAULT_URL_VARIABLE)),
            region: Region(Secret::from_environment(DEFAULT_REGION_VARIABLE)),
        }
    }
}

} // verus!
