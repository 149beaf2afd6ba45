//! Query translation for a DynamoDB data connector: a typed statement tree,
//! its rendering to PartiQL text, and the compilation of query requests into
//! such trees.

pub mod configuration;
pub mod execution;
pub mod json;
pub mod metadata;
pub mod models;
pub mod schema;
pub mod sql;
pub mod text;
pub mod translation;
