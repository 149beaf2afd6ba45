//! The configuration of the connector: how to reach the database, and what
//! is known of it.

pub mod connection_settings;
pub mod environment;
pub mod error;
pub mod to_runtime_configuration;
pub mod values;
pub mod version1;

use crate::metadata::{Metadata, MetadataView};
use vstd::prelude::*;

verus! {

/// The name of the file that holds the configuration.
pub const CONFIGURATION_FILENAME: &'static str = "configuration.json";

/// The name of the file that holds the schema of the configuration.
pub const CONFIGURATION_JSONSCHEMA_FILENAME: &'static str = "schema.json";

/// The variable from which the address of the database is read where no
/// other is named.
pub const DEFAULT_CONNECTION_URI_VARIABLE: &'static str = "CONNECTION_URI";

/// All that is needed to serve queries: the metadata, and the credentials
/// with every secret resolved.
#[derive(Debug)]
pub struct Configuration {
    pub metadata: Metadata,
    pub access_key_id: String,
    pub secret_access_key: String,
    pub url: Option<String>,
    pub region: String,
}

pub struct ConfigurationView {
    pub metadata: MetadataView,
    pub access_key_id: Seq<char>,
    pub secret_access_key: Seq<char>,
    pub url: Option<Seq<char>>,
    pub region: Seq<char>,
}

impl View for Configuration {
    type V = ConfigurationView;

    open spec fn view(&self) -> ConfigurationView {
        ConfigurationView {
            metadata: self.metadata@,
            access_key_id: self.access_key_id@,
            secret_access_key: self.secret_access_key@,
            url: crate::metadata::database::optional_text(self.url),
            region: self.region@,
        }
    }
}

} // verus!
