//! The description of the database that translation reads: tables, columns,
//! scalar types and their comparison operators.

pub mod database;
pub mod entries;

use crate::metadata::database::{ScalarTypeInfoView, ScalarTypes, TableInfoView, TablesInfo};
use vstd::prelude::*;

verus! {

/// All that is known of the database.
#[derive(Debug, Clone)]
pub struct Metadata {
    pub tables: TablesInfo,
    pub scalar_types: ScalarTypes,
}

pub struct MetadataView {
    pub tables: Seq<(Seq<char>, TableInfoView)>,
    pub scalar_types: Seq<(Seq<char>, ScalarTypeInfoView)>,
}

impl View for Metadata {
    type V = MetadataView;

    open spec fn view(&self) -> MetadataView {
        MetadataView { tables: self.tables@, scalar_types: self.scalar_types@ }
    }
}

impl MetadataView {
    /// No table and no scalar type is named twice, no table names a column
    /// or an index twice, and no scalar type names an operator twice.
    pub open spec fn wf(self) -> bool {
        crate::metadata::database::tables_wf(self.tables)
            && crate::metadata::database::scalar_types_wf(self.scalar_types)
    }
}

impl Metadata {
    /// No name occurs twice where names are looked up.
    pub open spec fn wf(&self) -> bool {
        self@.wf()
    }

    /// Metadata that describes nothing.
    pub fn empty() -> (metadata: Metadata)
        ensures
            metadata@.tables.len() == 0,
            metadata@.scalar_types.len() == 0,
            metadata.wf(),
    {
        Metadata { tables: TablesInfo::empty(), scalar_types: ScalarTypes::empty() }
    }
}

impl Default for Metadata {
    fn default() -> (metadata: Metadata)
        ensures
            metadata@.tables.len() == 0,
            metadata@.scalar_types.len() == 0,
    {
        Metadata::empty()
    }
}

} // verus!
