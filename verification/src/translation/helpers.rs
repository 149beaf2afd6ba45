//! What every step of a translation has at hand: the metadata to look
//! things up in, and the counter that table aliases are drawn from.

use crate::metadata::database::{
    ComparisonOperator, ComparisonOperatorView, ScalarType, TableInfo,
    TableInfoView, Type, TypeRepresentation, TypeRepresentationView, TypeView,
};
use crate::metadata::entries::{find, lemma_position_first, lemma_position_none, lookup};
use crate::metadata::{Metadata, MetadataView};
use crate::sql::ast::{ColumnName, Expression, NestedField, TableAlias, TableReference};
use crate::sql::model::{ExpressionView, TableAliasView, TableReferenceView};
use crate::translation::error::{Error, ErrorView};
use vstd::prelude::*;

verus! {

/// The metadata that a translation reads.
#[derive(Debug)]
pub struct Env<'request> {
    pub metadata: &'request Metadata,
}

impl<'request> View for Env<'request> {
    type V = MetadataView;

    open spec fn view(&self) -> MetadataView {
        self.metadata@
    }
}

/// The counter from which unique indices of table aliases are drawn.
#[derive(Debug)]
pub struct TableAliasIndex(pub u64);

/// What changes in the course of a translation.
#[derive(Debug)]
pub struct State {
    pub global_table_index: TableAliasIndex,
}

impl View for State {
    type V = nat;

    /// The index that the next table alias gets.
    open spec fn view(&self) -> nat {
        self.global_table_index.0 as nat
    }
}

/// A table of the query: its name in the metadata, by which its columns are
/// found, and the reference by which the statement addresses it.
#[derive(Debug)]
pub struct TableNameAndReference {
    pub name: String,
    pub reference: TableReference,
}

pub struct TableNameAndReferenceView {
    pub name: Seq<char>,
    pub reference: TableReferenceView,
}

impl View for TableNameAndReference {
    type V = TableNameAndReferenceView;

    open spec fn view(&self) -> TableNameAndReferenceView {
        TableNameAndReferenceView { name: self.name@, reference: self.reference@ }
    }
}

impl Clone for TableNameAndReference {
    fn clone(&self) -> (copy: Self)
        ensures
            copy@ == self@,
    {
        TableNameAndReference { name: self.name.clone(), reference: self.reference.clone() }
    }
}

/// The outermost table of a query and the table that is being processed.
#[derive(Debug)]
pub struct RootAndCurrentTables {
    pub root_table: TableNameAndReference,
    pub current_table: TableNameAndReference,
}

pub struct RootAndCurrentTablesView {
    pub root_table: TableNameAndReferenceView,
    pub current_table: TableNameAndReferenceView,
}

impl View for RootAndCurrentTables {
    type V = RootAndCurrentTablesView;

    open spec fn view(&self) -> RootAndCurrentTablesView {
        RootAndCurrentTablesView {
            root_table: self.root_table@,
            current_table: self.current_table@,
        }
    }
}

impl Clone for RootAndCurrentTables {
    fn clone(&self) -> (copy: Self)
        ensures
            copy@ == self@,
    {
        RootAndCurrentTables {
            root_table: self.root_table.clone(),
            current_table: self.current_table.clone(),
        }
    }
}

/// A column as translation needs it: its name in statements and its type.
#[derive(Debug)]
pub struct ColumnInfo {
    pub name: ColumnName,
    pub type_: Type,
}

pub struct ColumnView {
    pub name: Seq<char>,
    pub type_: TypeView,
}

impl View for ColumnInfo {
    type V = ColumnView;

    open spec fn view(&self) -> ColumnView {
        ColumnView { name: self.name@, type_: self.type_@ }
    }
}

/// A collection: something that can be queried at the top level.
#[derive(Debug)]
pub enum CollectionInfo<'env> {
    Table { name: &'env String, info: &'env TableInfo },
}

/// Something that has fields.
#[derive(Debug)]
pub enum FieldsInfo<'env> {
    Table { name: &'env String, info: &'env TableInfo },
}

/// A table under the name by which it was found.
pub struct NamedTableView {
    pub name: Seq<char>,
    pub info: TableInfoView,
}

impl<'env> View for CollectionInfo<'env> {
    type V = NamedTableView;

    open spec fn view(&self) -> NamedTableView {
        match self {
            CollectionInfo::Table { name, info } => NamedTableView { name: name@, info: info@ },
        }
    }
}

impl<'env> View for FieldsInfo<'env> {
    type V = NamedTableView;

    open spec fn view(&self) -> NamedTableView {
        match self {
            FieldsInfo::Table { name, info } => NamedTableView { name: name@, info: info@ },
        }
    }
}

/// The fields along which a nested value is reached.
#[derive(Debug)]
pub struct FieldPath(pub Vec<String>);

impl View for FieldPath {
    type V = Seq<Seq<char>>;

    open spec fn view(&self) -> Seq<Seq<char>> {
        crate::models::names_view(self.0@)
    }
}

// What the lookups find

/// The table of a collection, or the error that tells that there is none.
pub open spec fn collection_of(metadata: MetadataView, name: Seq<char>) -> Result<
    NamedTableView,
    ErrorView,
> {
    match lookup(metadata.tables, name) {
        Some(info) => Ok(NamedTableView { name, info }),
        None => Err(ErrorView::CollectionNotFound(name)),
    }
}

/// The column of a table under a field name, or the error that tells that
/// there is none.
pub open spec fn column_of(table: NamedTableView, column: Seq<char>) -> Result<
    ColumnView,
    ErrorView,
> {
    match lookup(table.info.columns, column) {
        Some(info) => Ok(ColumnView { name: info.name, type_: info.type_ }),
        None => Err(ErrorView::ColumnNotFoundInCollection(column, table.name)),
    }
}

/// The operator of a scalar type under a name, or the error that tells that
/// the type or the operator is not known.
pub open spec fn comparison_operator_of(
    metadata: MetadataView,
    scalar_type: Seq<char>,
    name: Seq<char>,
) -> Result<ComparisonOperatorView, ErrorView> {
    let missing = Err(ErrorView::OperatorNotFound { operator_name: name, scalar_type });
    match lookup(metadata.scalar_types, scalar_type) {
        Some(info) => match lookup(info.comparison_operators, name) {
            Some(operator) => Ok(operator),
            None => missing,
        },
        None => missing,
    }
}

/// The representation of a scalar type, where the type is known and has one.
pub open spec fn type_representation_of(metadata: MetadataView, scalar_type: Seq<char>) -> Option<
    TypeRepresentationView,
> {
    match lookup(metadata.scalar_types, scalar_type) {
        Some(info) => info.type_representation,
        None => None,
    }
}

/// An expression inside the accessors of a chain of nested fields, the first
/// field innermost: the first `count` fields of the path are applied.
pub open spec fn wrapped_in_field_path(
    field_path: Seq<Seq<char>>,
    count: nat,
    expression: ExpressionView,
) -> ExpressionView
    decreases count,
{
    if 0 < count <= field_path.len() {
        ExpressionView::NestedFieldSelect {
            expression: Box::new(
                wrapped_in_field_path(field_path, (count - 1) as nat, expression),
            ),
            nested_field: field_path[count - 1],
        }
    } else {
        expression
    }
}

/// The view of a result: the view of what it holds.
pub open spec fn result_view<T: View, E: View>(result: Result<T, E>) -> Result<T::V, E::V> {
    match result {
        Ok(value) => Ok(value@),
        Err(error) => Err(error@),
    }
}

impl<'a> FieldsInfo<'a> {
    /// A collection as something that has fields.
    pub fn from(value: &'a CollectionInfo<'a>) -> (fields_info: Self)
        ensures
            fields_info@ == value@,
    {
        match value {
            CollectionInfo::Table { name, info } => FieldsInfo::Table { name, info },
        }
    }
}

/// The metadata of an environment describes nothing.
pub open spec fn describes_nothing(env: Env) -> bool {
    env@.tables.len() == 0 && env@.scalar_types.len() == 0
}

impl<'request> Env<'request> {
    /// Runs a function with an environment whose metadata describes
    /// nothing. The environment borrows its metadata, which is gone when
    /// the function returns, so the environment cannot be handed out.
    pub fn with_empty<F, R>(f: F) -> (result: R) where F: FnOnce(Env) -> R
        requires
            forall|env: Env| #[trigger] describes_nothing(env) ==> f.requires((env,)),
        ensures
            exists|env: Env| #[trigger] describes_nothing(env) && f.ensures((env,), result),
    {
        let temp_metadata = Metadata::empty();
        let temp_env = Env { metadata: &temp_metadata };
        assert(describes_nothing(temp_env));
        let result = f(temp_env);
        assert(describes_nothing(temp_env) && f.ensures((temp_env,), result));
        result
    }

    /// An environment over the given metadata.
    pub fn new(metadata: &'request Metadata) -> (env: Self)
        ensures
            env@ == metadata@,
    {
        Env { metadata }
    }

    /// Looks up something that has fields, by name.
    pub fn lookup_fields_info(&self, name: &'request String) -> (result: Result<
        FieldsInfo<'request>,
        Error,
    >)
        ensures
            result_view(result) == collection_of(self@, name@),
    {
        let tables = &self.metadata.tables.0;
        match find(tables, name) {
            Some(index) => {
                proof {
                    lemma_position_first(self@.tables, name@, index as int);
                }
                Ok(FieldsInfo::Table { name, info: &tables[index].1 })
            },
            None => {
                proof {
                    lemma_position_none(self@.tables, name@);
                }
                Err(Error::CollectionNotFound(name.clone()))
            },
        }
    }

    /// Looks up a collection, by name.
    pub fn lookup_collection(&self, collection_name: &'request String) -> (result: Result<
        CollectionInfo<'request>,
        Error,
    >)
        ensures
            result_view(result) == collection_of(self@, collection_name@),
    {
        let tables = &self.metadata.tables.0;
        match find(tables, collection_name) {
            Some(index) => {
                proof {
                    lemma_position_first(self@.tables, collection_name@, index as int);
                }
                Ok(CollectionInfo::Table { name: collection_name, info: &tables[index].1 })
            },
            None => {
                proof {
                    lemma_position_none(self@.tables, collection_name@);
                }
                Err(Error::CollectionNotFound(collection_name.clone()))
            },
        }
    }

    /// Looks up a scalar type, by name.
    pub fn lookup_scalar_type(&self, t: &String) -> (result: Result<&'request ScalarType, Error>)
        ensures
            match result {
                Ok(info) => lookup(self@.scalar_types, t@) == Some(info@),
                Err(error) => lookup(self@.scalar_types, t@) is None && error@
                    == ErrorView::ScalarTypeNotFound(t@),
            },
    {
        let scalar_types = &self.metadata.scalar_types.0;
        match find(scalar_types, t) {
            Some(index) => {
                proof {
                    lemma_position_first(self@.scalar_types, t@, index as int);
                }
                Ok(&scalar_types[index].1)
            },
            None => {
                proof {
                    lemma_position_none(self@.scalar_types, t@);
                }
                Err(Error::ScalarTypeNotFound(t.clone()))
            },
        }
    }

    /// Looks up a comparison operator of a scalar type, by the names of
    /// both.
    pub fn lookup_comparison_operator(&self, scalar_type: &String, name: &String) -> (result:
        Result<&'request ComparisonOperator, Error>)
        ensures
            result_view(result) == comparison_operator_of(self@, scalar_type@, name@),
    {
        match self.lookup_scalar_type(scalar_type) {
            Ok(info) => {
                let operators = &info.comparison_operators;
                match find(operators, name) {
                    Some(index) => {
                        proof {
                            lemma_position_first(
                                info@.comparison_operators,
                                name@,
                                index as int,
                            );
                        }
                        Ok(&operators[index].1)
                    },
                    None => {
                        proof {
                            lemma_position_none(info@.comparison_operators, name@);
                        }
                        Err(
                            Error::OperatorNotFound {
                                operator_name: name.clone(),
                                scalar_type: scalar_type.clone(),
                            },
                        )
                    },
                }
            },
            Err(_) => Err(
                Error::OperatorNotFound {
                    operator_name: name.clone(),
                    scalar_type: scalar_type.clone(),
                },
            ),
        }
    }

    /// Looks up how the values of a scalar type are represented. That a type
    /// has no representation is no error.
    pub fn lookup_type_representation(&self, scalar_type: &String) -> (representation: Option<
        &'request TypeRepresentation,
    >)
        ensures
            match representation {
                Some(r) => type_representation_of(self@, scalar_type@) == Some(r@),
                None => type_representation_of(self@, scalar_type@) is None,
            },
    {
        match self.lookup_scalar_type(scalar_type) {
            Ok(info) => info.type_representation.as_ref(),
            Err(_) => None,
        }
    }
}

impl FieldsInfo<'_> {
    /// Looks up a column, by its field name.
    pub fn lookup_column(&self, column_name: &String) -> (result: Result<ColumnInfo, Error>)
        ensures
            result_view(result) == column_of(self@, column_name@),
    {
        match self {
            FieldsInfo::Table { name, info } => {
                match find(&info.columns, column_name) {
                    Some(index) => {
                        proof {
                            lemma_position_first(info@.columns, column_name@, index as int);
                        }
                        let column_info = &info.columns[index].1;
                        Ok(
                            ColumnInfo {
                                name: ColumnName(column_info.name.clone()),
                                type_: column_info.type_.clone(),
                            },
                        )
                    },
                    None => {
                        proof {
                            lemma_position_none(info@.columns, column_name@);
                        }
                        Err(
                            Error::ColumnNotFoundInCollection(
                                column_name.clone(),
                                (*name).clone(),
                            ),
                        )
                    },
                }
            },
        }
    }
}

impl CollectionInfo<'_> {
    /// Looks up a column, by its field name.
    pub fn lookup_column(&self, column_name: &String) -> (result: Result<ColumnInfo, Error>)
        ensures
            result_view(result) == column_of(self@, column_name@),
    {
        match self {
            CollectionInfo::Table { name, info } => {
                let fields_info = FieldsInfo::from(self);
                fields_info.lookup_column(column_name)
            },
        }
    }
}

impl TableAliasIndex {
    /// Hands out the current index and moves the counter one step on.
    pub fn next_global_table_index(&mut self) -> (index: TableAliasIndex)
        requires
            old(self).0 < u64::MAX,
        ensures
            index.0 == old(self).0,
            final(self).0 == old(self).0 + 1,
    {
        let index: u64 = self.0;
        self.0 = index + 1;
        TableAliasIndex(index)
    }

    /// Makes a table alias of the given name with the current index, and
    /// moves the counter one step on.
    pub fn make_table_alias(&mut self, name: String) -> (alias: TableAlias)
        requires
            old(self).0 < u64::MAX,
        ensures
            alias@ == (TableAliasView { unique_index: old(self).0, name: name@ }),
            final(self).0 == old(self).0 + 1,
    {
        TableAlias { unique_index: self.next_global_table_index().0, name }
    }
}

impl Default for State {
    fn default() -> (state: State)
        ensures
            state@ == 0,
    {
        State { global_table_index: TableAliasIndex(0) }
    }
}

/// The alias that a state at `index` makes of a name.
pub open spec fn alias_at(index: nat, name: Seq<char>) -> TableAliasView {
    TableAliasView { unique_index: index as u64, name }
}

impl State {
    /// A state from which no alias has been drawn.
    pub fn new() -> (state: State)
        ensures
            state@ == 0,
    {
        State { global_table_index: TableAliasIndex(0) }
    }

    /// Makes a table alias that no other alias drawn from this state equals:
    /// it has the state's index, and the state moves one step on.
    pub fn make_table_alias(&mut self, name: String) -> (alias: TableAlias)
        requires
            old(self)@ < u64::MAX,
        ensures
            alias@ == alias_at(old(self)@, name@),
            final(self)@ == old(self)@ + 1,
    {
        self.global_table_index.make_table_alias(name)
    }

    /// Makes a table alias for a part of the path to a sort key.
    pub fn make_order_path_part_table_alias(&mut self, table_name: &str) -> (alias: TableAlias)
        requires
            old(self)@ < u64::MAX,
        ensures
            alias@ == alias_at(old(self)@, "ORDER_PART_"@ + table_name@),
            final(self)@ == old(self)@ + 1,
    {
        self.make_table_alias(String::from_str("ORDER_PART_").concat(table_name))
    }

    /// Makes a table alias for the table that a sort key is taken from.
    pub fn make_order_by_table_alias(&mut self, source_table_name: &str) -> (alias: TableAlias)
        requires
            old(self)@ < u64::MAX,
        ensures
            alias@ == alias_at(old(self)@, "ORDER_FOR_"@ + source_table_name@),
            final(self)@ == old(self)@ + 1,
    {
        self.make_table_alias(String::from_str("ORDER_FOR_").concat(source_table_name))
    }

    /// Makes a table alias for a native query.
    pub fn make_native_query_table_alias(&mut self, name: &str) -> (alias: TableAlias)
        requires
            old(self)@ < u64::MAX,
        ensures
            alias@ == alias_at(old(self)@, "NATIVE_QUERY_"@ + name@),
            final(self)@ == old(self)@ + 1,
    {
        self.make_table_alias(String::from_str("NATIVE_QUERY_").concat(name))
    }

    /// Makes a table alias for the table that a boolean expression filters.
    pub fn make_boolean_expression_table_alias(&mut self, source_table_name: &str) -> (alias:
        TableAlias)
        requires
            old(self)@ < u64::MAX,
        ensures
            alias@ == alias_at(old(self)@, "BOOLEXP_"@ + source_table_name@),
            final(self)@ == old(self)@ + 1,
    {
        self.make_table_alias(String::from_str("BOOLEXP_").concat(source_table_name))
    }
}

impl FieldPath {
    /// The path that a request gives, which is empty where it gives none.
    pub fn from(field_path: &Option<Vec<String>>) -> (path: Self)
        ensures
            path@ == crate::models::field_path_view(*field_path),
    {
        FieldPath(
            match field_path {
                // Whether a path is absent or empty makes no difference.
                None => Vec::new(),
                Some(names) => copy_names(names),
            },
        )
    }
}

/// A copy of a list of names.
pub fn copy_names(names: &Vec<String>) -> (copy: Vec<String>)
    ensures
        crate::models::names_view(copy@) == crate::models::names_view(names@),
{
    let mut copy: Vec<String> = Vec::new();
    let mut index: usize = 0;
    while index < names.len()
        invariant
            index <= names.len(),
            copy.len() == index,
            forall|j: int| 0 <= j < index ==> copy[j]@ == names[j]@,
        decreases names.len() - index,
    {
        copy.push(names[index].clone());
        index += 1;
    }
    assert(crate::models::names_view(copy@) =~= crate::models::names_view(names@));
    copy
}

/// Puts an expression inside the accessors of a chain of nested fields, the
/// first field innermost: the path `[a, b]` gives `((e).a).b`.
pub fn wrap_in_field_path(field_path: &FieldPath, expression: Expression) -> (wrapped: Expression)
    ensures
        wrapped@ == wrapped_in_field_path(field_path@, field_path@.len(), expression@),
{
    let mut wrapped = expression;
    let mut index: usize = 0;
    while index < field_path.0.len()
        invariant
            index <= field_path.0.len(),
            wrapped@ == wrapped_in_field_path(field_path@, index as nat, expression@),
        decreases field_path.0.len() - index,
    {
        wrapped =
        Expression::NestedFieldSelect {
            expression: Box::new(wrapped),
            nested_field: NestedField(field_path.0[index].clone()),
        };
        index += 1;
    }
    wrapped
}

/// Two aliases that are drawn from one state, however many aliases are
/// drawn between them and whatever their names are, appear under different
/// names in a statement.
pub proof fn lemma_drawn_aliases_are_distinct(
    index: nat,
    later: nat,
    first: Seq<char>,
    second: Seq<char>,
)
    requires
        index < later <= u64::MAX,
    ensures
        crate::sql::render::aliased_string(alias_at(index, first))
            != crate::sql::render::aliased_string(alias_at(later, second)),
{
    crate::sql::render::lemma_aliases_are_distinct(alias_at(index, first), alias_at(later, second));
}

} // verus!
