//! Translation of query requests into statement trees.

pub mod error;
pub mod helpers;
pub mod query;
