//! The first version of the configuration format, and what introspection
//! of the database puts into it.

use crate::configuration::connection_settings::{
    DatabaseConnectionSettings, DatabaseConnectionSettingsView,
};
use crate::metadata::database::{
    entries_view, ColumnInfo, ColumnInfoView, ComparisonOperator, ComparisonOperatorView,
    GlobalSecondaryIndexInfo, GlobalSecondaryIndexInfoView, GlobalSecondaryIndexes, Nullable,
    OperatorKind, ProjectionTypeInfo, ProjectionTypeInfoView, ScalarType, ScalarTypeInfoView,
    ScalarTypes, TableInfo, TableInfoView, TablesInfo, Type, TypeView, scalar_types_wf,
    tables_wf,
};
use crate::metadata::entries::{
    distinct_names, find, inserted, lemma_inserted, lemma_inserted_values, names_of,
};
use crate::metadata::{Metadata, MetadataView};
use vstd::prelude::*;

verus! {

pub const CURRENT_VERSION: u32 = 1;

pub const CONFIGURATION_FILENAME: &'static str = "configuration.json";

/// The version of the configuration format.
#[derive(Debug, Clone, Copy, PartialEq, Eq, Structural)]
pub enum Version {
    This,
}

/// A configuration as it is written down: enough to reach the database,
/// and what introspection found there.
#[derive(Debug, Clone)]
pub struct ParsedConfiguration {
    /// The version of the configuration format.
    pub version: u32,
    pub connection_settings: DatabaseConnectionSettings,
    pub metadata: Metadata,
}

pub struct ParsedConfigurationView {
    pub version: u32,
    pub connection_settings: DatabaseConnectionSettingsView,
    pub metadata: MetadataView,
}

impl View for ParsedConfiguration {
    type V = ParsedConfigurationView;

    open spec fn view(&self) -> ParsedConfigurationView {
        ParsedConfigurationView {
            version: self.version,
            connection_settings: self.connection_settings@,
            metadata: self.metadata@,
        }
    }
}

impl ParsedConfiguration {
    /// The configuration to start from.
    pub fn initial() -> (configuration: Self)
        ensures
            configuration.version == CURRENT_VERSION,
            configuration@.metadata.tables.len() == 0,
            configuration@.metadata.scalar_types.len() == 0,
            configuration.metadata.wf(),
    {
        ParsedConfiguration::empty()
    }

    /// A configuration of the current version that knows nothing of the
    /// database and reads its credentials from the environment.
    pub fn empty() -> (configuration: Self)
        ensures
            configuration.version == CURRENT_VERSION,
            configuration@.metadata.tables.len() == 0,
            configuration@.metadata.scalar_types.len() == 0,
            configuration.metadata.wf(),
    {
        ParsedConfiguration {
            version: CURRENT_VERSION,
            connection_settings: DatabaseConnectionSettings::empty(),
            metadata: Metadata::empty(),
        }
    }
}

/// Whether a scalar type holds strings, which can be matched against
/// patterns.
pub open spec fn is_character_string(name: Seq<char>) -> bool {
    name == "character"@ || name == "text"@ || name == "string"@ || name == "nchar"@ || name
        == "ntext"@ || name == "nvarchar"@
}

/// Whether the values of a scalar type have no order.
pub open spec fn cannot_compare(name: Seq<char>) -> bool {
    name == "text"@ || name == "ntext"@ || name == "image"@
}

/// An infix operator on values of one scalar type.
pub open spec fn infix_operator(
    token: Seq<char>,
    kind: OperatorKind,
    scalar_type: Seq<char>,
) -> ComparisonOperatorView {
    ComparisonOperatorView {
        operator_name: token,
        operator_kind: kind,
        argument_type: scalar_type,
        is_infix: true,
    }
}

/// The comparison operators of a scalar type, by name: equality and
/// membership for every type, `LIKE` and `NOT LIKE` for strings, and
/// inequality and the order comparisons for every type whose values have an
/// order.
pub open spec fn comparison_operators_for(name: Seq<char>) -> Seq<
    (Seq<char>, ComparisonOperatorView),
> {
    let always = seq![
        ("_eq"@, infix_operator("="@, OperatorKind::Equal, name)),
        ("_in"@, infix_operator("IN"@, OperatorKind::In, name)),
    ];
    let patterns = if is_character_string(name) {
        seq![
            ("_like"@, infix_operator("LIKE"@, OperatorKind::Custom, name)),
            ("_nlike"@, infix_operator("NOT LIKE"@, OperatorKind::Custom, name)),
        ]
    } else {
        Seq::empty()
    };
    let order = if cannot_compare(name) {
        Seq::empty()
    } else {
        seq![
            ("_neq"@, infix_operator("!="@, OperatorKind::Custom, name)),
            ("_lt"@, infix_operator("<"@, OperatorKind::Custom, name)),
            ("_gt"@, infix_operator(">"@, OperatorKind::Custom, name)),
            ("_gte"@, infix_operator(">="@, OperatorKind::Custom, name)),
            ("_lte"@, infix_operator("<="@, OperatorKind::Custom, name)),
        ]
    };
    always + patterns + order
}

/// No scalar type gets two operators of one name.
pub proof fn lemma_operators_are_distinct(name: Seq<char>)
    ensures
        distinct_names(comparison_operators_for(name)),
{
    reveal_strlit("_eq");
    reveal_strlit("_in");
    reveal_strlit("_like");
    reveal_strlit("_nlike");
    reveal_strlit("_neq");
    reveal_strlit("_lt");
    reveal_strlit("_gt");
    reveal_strlit("_gte");
    reveal_strlit("_lte");
    let operators = comparison_operators_for(name);
    assert forall|i: int, j: int| 0 <= i < j < operators.len() implies (#[trigger] operators[i]).0
        != (#[trigger] operators[j]).0 by {
        let first = operators[i].0;
        let second = operators[j].0;
        if first == second {
            assert(first.len() == second.len());
            assert(first[1] == second[1]);
            assert(first[2] == second[2]);
        }
    }
}

/// Whether a name is the given word.
fn is_word(name: &String, word: &str) -> (same: bool)
    ensures
        same == (name@ == word@),
{
    *name == String::from_str(word)
}

/// An operator under its name.
fn named_operator(name: &str, token: &str, kind: OperatorKind, scalar_type: &String) -> (entry: (
    String,
    ComparisonOperator,
))
    ensures
        entry.0@ == name@,
        entry.1@ == infix_operator(token@, kind, scalar_type@),
{
    (
        String::from_str(name),
        ComparisonOperator {
            operator_name: String::from_str(token),
            operator_kind: kind,
            argument_type: scalar_type.clone(),
            is_infix: true,
        },
    )
}

/// The comparison operators that a scalar type gets at introspection.
pub fn get_comparison_operators_for_type(scalar_type: &String) -> (operators: Vec<
    (String, ComparisonOperator),
>)
    ensures
        entries_view(operators@, |o: ComparisonOperator| o@) == comparison_operators_for(
            scalar_type@,
        ),
        distinct_names(entries_view(operators@, |o: ComparisonOperator| o@)),
{
    proof {
        lemma_operators_are_distinct(scalar_type@);
    }
    let mut comparison_operators: Vec<(String, ComparisonOperator)> = Vec::new();
    // All things can be compared for equality.
    comparison_operators.push(named_operator("_eq", "=", OperatorKind::Equal, scalar_type));
    comparison_operators.push(named_operator("_in", "IN", OperatorKind::In, scalar_type));
    // include LIKE and NOT LIKE for string-ish types
    let character_string = is_word(scalar_type, "character") || is_word(scalar_type, "text")
        || is_word(scalar_type, "string") || is_word(scalar_type, "nchar") || is_word(
        scalar_type,
        "ntext",
    ) || is_word(scalar_type, "nvarchar");
    if character_string {
        comparison_operators.push(
            named_operator("_like", "LIKE", OperatorKind::Custom, scalar_type),
        );
        comparison_operators.push(
            named_operator("_nlike", "NOT LIKE", OperatorKind::Custom, scalar_type),
        );
    }
    // include comparison operators for types that are comparable
    let incomparable = is_word(scalar_type, "text") || is_word(scalar_type, "ntext") || is_word(
        scalar_type,
        "image",
    );
    if !incomparable {
        comparison_operators.push(named_operator("_neq", "!=", OperatorKind::Custom, scalar_type));
        comparison_operators.push(named_operator("_lt", "<", OperatorKind::Custom, scalar_type));
        comparison_operators.push(named_operator("_gt", ">", OperatorKind::Custom, scalar_type));
        comparison_operators.push(named_operator("_gte", ">=", OperatorKind::Custom, scalar_type));
        comparison_operators.push(named_operator("_lte", "<=", OperatorKind::Custom, scalar_type));
    }
    assert(entries_view(comparison_operators@, |o: ComparisonOperator| o@)
        =~= comparison_operators_for(scalar_type@));
    comparison_operators
}

// What introspection makes of the description of a table

/// The kind of a key of a table or of an index.
#[derive(Debug, Clone, Copy, PartialEq, Eq, Structural)]
pub enum KeyType {
    /// The partition key.
    Hash,
    /// The sort key.
    Range,
    Other,
}

/// An attribute that is part of a key.
#[derive(Debug)]
pub struct KeySchemaElement {
    pub attribute_name: String,
    pub key_type: KeyType,
}

/// An attribute that the table declares, with the letter of its type.
#[derive(Debug)]
pub struct AttributeDefinition {
    pub attribute_name: String,
    pub attribute_type: String,
}

/// The kind of the value of an attribute in a sample row.
#[derive(Debug, Clone, Copy, PartialEq, Eq, Structural)]
pub enum AttributeKind {
    S,
    N,
    Bool,
    Other,
}

/// A global secondary index as the database describes it.
#[derive(Debug)]
pub struct IndexDescription {
    pub index_name: String,
    pub key_schema: Vec<KeySchemaElement>,
    pub projection_type: String,
    pub non_key_attributes: Vec<String>,
}

/// A table as the database describes it, with some of its rows.
#[derive(Debug)]
pub struct TableDescription {
    pub table_name: String,
    pub attribute_definitions: Vec<AttributeDefinition>,
    /// Sample rows: for each, the names of its attributes and the kinds of
    /// their values.
    pub items: Vec<Vec<(String, AttributeKind)>>,
    pub key_schema: Vec<KeySchemaElement>,
    pub global_secondary_indexes: Vec<IndexDescription>,
}

/// The scalar type for the letter of an attribute type: `S` is a string,
/// `N` a number, `B` binary, and anything else can be anything.
pub open spec fn attribute_scalar_type(attribute_type: Seq<char>) -> Seq<char> {
    if attribute_type == "S"@ {
        "String"@
    } else if attribute_type == "N"@ {
        "Number"@
    } else if attribute_type == "B"@ {
        "Binary"@
    } else {
        "Any"@
    }
}

/// The scalar type for the kind of a sample value.
pub open spec fn sample_scalar_type(kind: AttributeKind) -> Seq<char> {
    match kind {
        AttributeKind::S => "String"@,
        AttributeKind::N => "Number"@,
        AttributeKind::Bool => "Boolean"@,
        AttributeKind::Other => "Any"@,
    }
}

/// A nullable column of a scalar type, without a description.
pub open spec fn scalar_column(name: Seq<char>, scalar_type: Seq<char>) -> ColumnInfoView {
    ColumnInfoView {
        name,
        type_: TypeView::ScalarType(scalar_type),
        nullable: Nullable::Nullable,
        description: None,
    }
}

/// The name of the last of the first `count` key attributes that has the
/// given kind.
pub open spec fn key_of(schema: Seq<(Seq<char>, KeyType)>, kind: KeyType, count: nat) -> Option<
    Seq<char>,
>
    decreases count,
{
    if 0 < count <= schema.len() {
        if schema[count - 1].1 == kind {
            Some(schema[count - 1].0)
        } else {
            key_of(schema, kind, (count - 1) as nat)
        }
    } else {
        None
    }
}

/// The view of a key schema.
pub open spec fn key_schema_view(schema: Seq<KeySchemaElement>) -> Seq<(Seq<char>, KeyType)> {
    schema.map_values(|k: KeySchemaElement| (k.attribute_name@, k.key_type))
}

/// The scalar type for the letter of an attribute type.
pub fn scalar_type_of_attribute(attribute_type: &String) -> (scalar_type: String)
    ensures
        scalar_type@ == attribute_scalar_type(attribute_type@),
{
    if is_word(attribute_type, "S") {
        String::from_str("String")
    } else if is_word(attribute_type, "N") {
        String::from_str("Number")
    } else if is_word(attribute_type, "B") {
        String::from_str("Binary")
    } else {
        String::from_str("Any")
    }
}

/// The scalar type for the kind of a sample value.
pub fn scalar_type_of_sample(kind: AttributeKind) -> (scalar_type: String)
    ensures
        scalar_type@ == sample_scalar_type(kind),
{
    match kind {
        AttributeKind::S => String::from_str("String"),
        AttributeKind::N => String::from_str("Number"),
        AttributeKind::Bool => String::from_str("Boolean"),
        AttributeKind::Other => String::from_str("Any"),
    }
}

/// The name of the key attribute of the given kind: the last one, where
/// there are several.
pub fn key_name(schema: &Vec<KeySchemaElement>, kind: KeyType) -> (name: Option<String>)
    ensures
        crate::metadata::database::optional_text(name) == key_of(
            key_schema_view(schema@),
            kind,
            schema@.len(),
        ),
{
    let ghost views = key_schema_view(schema@);
    let mut name: Option<String> = None;
    let mut index: usize = 0;
    while index < schema.len()
        invariant
            index <= schema.len(),
            views == key_schema_view(schema@),
            crate::metadata::database::optional_text(name) == key_of(views, kind, index as nat),
        decreases schema.len() - index,
    {
        if schema[index].key_type == kind {
            name = Some(schema[index].attribute_name.clone());
        }
        index += 1;
    }
    name
}

/// The names of scalar types with one more name, which is added at the end
/// unless it is there already.
pub open spec fn with_name(names: Seq<Seq<char>>, name: Seq<char>) -> Seq<Seq<char>> {
    if names.contains(name) {
        names
    } else {
        names.push(name)
    }
}

/// Adds a name to a list of names, unless it is there already.
pub fn add_name(names: &mut Vec<String>, name: String)
    ensures
        crate::models::names_view(final(names)@) == with_name(
            crate::models::names_view(old(names)@),
            name@,
        ),
{
    let ghost before = crate::models::names_view(names@);
    let mut index: usize = 0;
    while index < names.len()
        invariant
            index <= names.len(),
            names@ == old(names)@,
            before == crate::models::names_view(names@),
            forall|i: int| 0 <= i < index ==> before[i] != name@,
        decreases names.len() - index,
    {
        if names[index] == name {
            assert(before[index as int] == name@);
            return ;
        }
        index += 1;
    }
    assert(!before.contains(name@));
    names.push(name);
    assert(crate::models::names_view(names@) =~= before.push(name@));
}

/// The columns and the names of scalar types after the first `count`
/// declared attributes: each attribute is a column of the scalar type of
/// its letter, and the scalar type is noted.
pub open spec fn declared_columns(
    columns: Seq<(Seq<char>, ColumnInfoView)>,
    scalars: Seq<Seq<char>>,
    definitions: Seq<(Seq<char>, Seq<char>)>,
    count: nat,
) -> (Seq<(Seq<char>, ColumnInfoView)>, Seq<Seq<char>>)
    decreases count,
{
    if 0 < count <= definitions.len() {
        let before = declared_columns(columns, scalars, definitions, (count - 1) as nat);
        let name = definitions[count - 1].0;
        let scalar_type = attribute_scalar_type(definitions[count - 1].1);
        (
            inserted(before.0, name, scalar_column(name, scalar_type)),
            with_name(before.1, scalar_type),
        )
    } else {
        (columns, scalars)
    }
}

/// The columns and the names of scalar types after the first `count`
/// attributes of a sample row: each attribute is a column of the scalar
/// type of the kind of its value, and the scalar type is noted unless the
/// value can be anything.
pub open spec fn sampled_columns(
    columns: Seq<(Seq<char>, ColumnInfoView)>,
    scalars: Seq<Seq<char>>,
    item: Seq<(Seq<char>, AttributeKind)>,
    count: nat,
) -> (Seq<(Seq<char>, ColumnInfoView)>, Seq<Seq<char>>)
    decreases count,
{
    if 0 < count <= item.len() {
        let before = sampled_columns(columns, scalars, item, (count - 1) as nat);
        let name = item[count - 1].0;
        let kind = item[count - 1].1;
        (
            inserted(before.0, name, scalar_column(name, sample_scalar_type(kind))),
            if kind == AttributeKind::Other {
                before.1
            } else {
                with_name(before.1, sample_scalar_type(kind))
            },
        )
    } else {
        (columns, scalars)
    }
}

/// The columns and the names of scalar types after the first `count`
/// sample rows.
pub open spec fn all_sampled_columns(
    columns: Seq<(Seq<char>, ColumnInfoView)>,
    scalars: Seq<Seq<char>>,
    items: Seq<Seq<(Seq<char>, AttributeKind)>>,
    count: nat,
) -> (Seq<(Seq<char>, ColumnInfoView)>, Seq<Seq<char>>)
    decreases count,
{
    if 0 < count <= items.len() {
        let before = all_sampled_columns(columns, scalars, items, (count - 1) as nat);
        sampled_columns(before.0, before.1, items[count - 1], items[count - 1].len())
    } else {
        (columns, scalars)
    }
}

/// What introspection makes of an index, where the index has a partition
/// key.
pub open spec fn index_info(index: IndexDescriptionView) -> Option<GlobalSecondaryIndexInfoView> {
    match key_of(index.key_schema, KeyType::Hash, index.key_schema.len()) {
        None => None,
        Some(partition_key) => Some(
            GlobalSecondaryIndexInfoView {
                partition_key,
                sort_key: key_of(index.key_schema, KeyType::Range, index.key_schema.len()),
                projection_type: ProjectionTypeInfoView {
                    projection_type: index.projection_type,
                    non_key_attributes: index.non_key_attributes,
                },
            },
        ),
    }
}

pub struct IndexDescriptionView {
    pub index_name: Seq<char>,
    pub key_schema: Seq<(Seq<char>, KeyType)>,
    pub projection_type: Seq<char>,
    pub non_key_attributes: Seq<Seq<char>>,
}

impl View for IndexDescription {
    type V = IndexDescriptionView;

    open spec fn view(&self) -> IndexDescriptionView {
        IndexDescriptionView {
            index_name: self.index_name@,
            key_schema: key_schema_view(self.key_schema@),
            projection_type: self.projection_type@,
            non_key_attributes: crate::models::names_view(self.non_key_attributes@),
        }
    }
}

/// The indexes of a table by name, after the first `count` indexes; none
/// where one of them has no partition key.
pub open spec fn indexes_info(indexes: Seq<IndexDescriptionView>, count: nat) -> Option<
    Seq<(Seq<char>, GlobalSecondaryIndexInfoView)>,
>
    decreases count,
{
    if 0 < count <= indexes.len() {
        match indexes_info(indexes, (count - 1) as nat) {
            None => None,
            Some(before) => match index_info(indexes[count - 1]) {
                None => None,
                Some(info) => Some(inserted(before, indexes[count - 1].index_name, info)),
            },
        }
    } else {
        Some(Seq::empty())
    }
}

pub struct TableDescriptionView {
    pub table_name: Seq<char>,
    pub attribute_definitions: Seq<(Seq<char>, Seq<char>)>,
    pub items: Seq<Seq<(Seq<char>, AttributeKind)>>,
    pub key_schema: Seq<(Seq<char>, KeyType)>,
    pub global_secondary_indexes: Seq<IndexDescriptionView>,
}

impl View for TableDescription {
    type V = TableDescriptionView;

    open spec fn view(&self) -> TableDescriptionView {
        TableDescriptionView {
            table_name: self.table_name@,
            attribute_definitions: self.attribute_definitions@.map_values(
                |d: AttributeDefinition| (d.attribute_name@, d.attribute_type@),
            ),
            items: self.items@.map_values(|i: Vec<(String, AttributeKind)>| names_of(i@)),
            key_schema: key_schema_view(self.key_schema@),
            global_secondary_indexes: self.global_secondary_indexes@.map_values(
                |i: IndexDescription| i@,
            ),
        }
    }
}

/// The columns of a table and the names of scalar types after the table
/// was looked at: first its declared attributes, then its sample rows.
pub open spec fn table_columns(
    table: TableDescriptionView,
    scalars: Seq<Seq<char>>,
) -> (Seq<(Seq<char>, ColumnInfoView)>, Seq<Seq<char>>) {
    let declared = declared_columns(
        Seq::empty(),
        scalars,
        table.attribute_definitions,
        table.attribute_definitions.len(),
    );
    all_sampled_columns(declared.0, declared.1, table.items, table.items.len())
}

/// What introspection makes of a table; nothing where the table has no
/// partition key or no sort key, or where one of its indexes has no
/// partition key.
pub open spec fn table_info_of(
    table: TableDescriptionView,
    scalars: Seq<Seq<char>>,
) -> Option<TableInfoView> {
    match key_of(table.key_schema, KeyType::Hash, table.key_schema.len()) {
        None => None,
        Some(partition_key) => match key_of(
            table.key_schema,
            KeyType::Range,
            table.key_schema.len(),
        ) {
            None => None,
            Some(sort_key) => match indexes_info(
                table.global_secondary_indexes,
                table.global_secondary_indexes.len(),
            ) {
                None => None,
                Some(gsi) => Some(
                    TableInfoView {
                        table_name: table.table_name,
                        columns: table_columns(table, scalars).0,
                        partition_key,
                        sort_key,
                        gsi,
                        description: None,
                    },
                ),
            },
        },
    }
}

/// A nullable column of a scalar type.
fn make_scalar_column(name: &String, scalar_type: String) -> (column: ColumnInfo)
    ensures
        column@ == scalar_column(name@, scalar_type@),
{
    ColumnInfo {
        name: name.clone(),
        type_: Type::ScalarType(scalar_type),
        nullable: Nullable::Nullable,
        description: None,
    }
}

/// The view of columns by name.
pub open spec fn columns_view(columns: Seq<(String, ColumnInfo)>) -> Seq<
    (Seq<char>, ColumnInfoView),
> {
    entries_view(columns, |c: ColumnInfo| c@)
}

/// Puts a column under a name.
fn insert_column(columns: &mut Vec<(String, ColumnInfo)>, name: String, column: ColumnInfo)
    ensures
        columns_view(final(columns)@) == inserted(columns_view(old(columns)@), name@, column@),
{
    let ghost before = columns_view(columns@);
    match find(columns, &name) {
        Some(index) => {
            proof {
                crate::metadata::entries::lemma_position_first(before, name@, index as int);
            }
            columns[index] = (name, column);
            assert(columns_view(columns@) =~= inserted(before, name@, column@));
        },
        None => {
            proof {
                crate::metadata::entries::lemma_position_none(before, name@);
            }
            columns.push((name, column));
            assert(columns_view(columns@) =~= inserted(before, name@, column@));
        },
    }
}

/// Looks at a table: its declared attributes and its sample rows give its
/// columns, and the scalar types that occur are noted.
pub fn introspect_columns(table: &TableDescription, scalars_list: &mut Vec<String>) -> (columns:
    Vec<(String, ColumnInfo)>)
    ensures
        (columns_view(columns@), crate::models::names_view(final(scalars_list)@)) == table_columns(
            table@,
            crate::models::names_view(old(scalars_list)@),
        ),
{
    let ghost start = crate::models::names_view(scalars_list@);
    let ghost definitions = table@.attribute_definitions;
    let ghost items = table@.items;
    let mut columns_info: Vec<(String, ColumnInfo)> = Vec::new();
    assert(columns_view(columns_info@) =~= Seq::empty());
    let mut index: usize = 0;
    while index < table.attribute_definitions.len()
        invariant
            index <= table.attribute_definitions.len(),
            definitions == table@.attribute_definitions,
            (columns_view(columns_info@), crate::models::names_view(scalars_list@))
                == declared_columns(Seq::empty(), start, definitions, index as nat),
        decreases table.attribute_definitions.len() - index,
    {
        let definition = &table.attribute_definitions[index];
        assert(definitions[index as int] == (
            definition.attribute_name@,
            definition.attribute_type@,
        ));
        let scalar_type_name = scalar_type_of_attribute(&definition.attribute_type);
        add_name(scalars_list, scalar_type_name.clone());
        let column_info = make_scalar_column(&definition.attribute_name, scalar_type_name);
        insert_column(&mut columns_info, definition.attribute_name.clone(), column_info);
        index += 1;
    }
    let ghost declared = (columns_view(columns_info@), crate::models::names_view(scalars_list@));
    let mut index: usize = 0;
    while index < table.items.len()
        invariant
            index <= table.items.len(),
            items == table@.items,
            (columns_view(columns_info@), crate::models::names_view(scalars_list@))
                == all_sampled_columns(declared.0, declared.1, items, index as nat),
        decreases table.items.len() - index,
    {
        let item = &table.items[index];
        assert(items[index as int] == names_of(item@));
        let ghost before = (columns_view(columns_info@), crate::models::names_view(scalars_list@));
        let mut position: usize = 0;
        while position < item.len()
            invariant
                position <= item.len(),
                (columns_view(columns_info@), crate::models::names_view(scalars_list@))
                    == sampled_columns(before.0, before.1, names_of(item@), position as nat),
            decreases item.len() - position,
        {
            let key = &item[position].0;
            let kind = item[position].1;
            let scalar_type_name = scalar_type_of_sample(kind);
            match kind {
                AttributeKind::Other => {},
                _ => {
                    add_name(scalars_list, scalar_type_name.clone());
                },
            }
            let column_info = make_scalar_column(key, scalar_type_name);
            insert_column(&mut columns_info, key.clone(), column_info);
            position += 1;
        }
        index += 1;
    }
    columns_info
}

/// The view of indexes by name.
pub open spec fn gsi_view(indexes: Seq<(String, GlobalSecondaryIndexInfo)>) -> Seq<
    (Seq<char>, GlobalSecondaryIndexInfoView),
> {
    entries_view(indexes, |i: GlobalSecondaryIndexInfo| i@)
}

/// Looks at the indexes of a table.
pub fn introspect_indexes(indexes: &Vec<IndexDescription>) -> (result: Option<
    Vec<(String, GlobalSecondaryIndexInfo)>,
>)
    ensures
        match result {
            Some(found) => Some(gsi_view(found@)),
            None => None,
        } == indexes_info(indexes@.map_values(|i: IndexDescription| i@), indexes@.len()),
{
    let ghost views = indexes@.map_values(|i: IndexDescription| i@);
    let mut gsi_indexes: Vec<(String, GlobalSecondaryIndexInfo)> = Vec::new();
    assert(gsi_view(gsi_indexes@) =~= Seq::empty());
    let mut index: usize = 0;
    while index < indexes.len()
        invariant
            index <= indexes.len(),
            views == indexes@.map_values(|i: IndexDescription| i@),
            indexes_info(views, index as nat) == Some(gsi_view(gsi_indexes@)),
        decreases indexes.len() - index,
    {
        let gsi = &indexes[index];
        assert(views[index as int] == gsi@);
        let partition_key = match key_name(&gsi.key_schema, KeyType::Hash) {
            Some(partition_key) => partition_key,
            None => {
                proof {
                    lemma_indexes_info_none(views, (index + 1) as nat, views.len());
                }
                return None;
            },
        };
        let sort_key = key_name(&gsi.key_schema, KeyType::Range);
        let info = GlobalSecondaryIndexInfo {
            partition_key,
            sort_key,
            projection_type: ProjectionTypeInfo {
                projection_type: gsi.projection_type.clone(),
                non_key_attributes: crate::translation::helpers::copy_names(
                    &gsi.non_key_attributes,
                ),
            },
        };
        assert(info@.projection_type.non_key_attributes == gsi@.non_key_attributes);
        let ghost before = gsi_view(gsi_indexes@);
        let name = gsi.index_name.clone();
        match find(&gsi_indexes, &name) {
            Some(position) => {
                proof {
                    crate::metadata::entries::lemma_position_first(before, name@, position as int);
                }
                gsi_indexes[position] = (name, info);
                assert(gsi_view(gsi_indexes@) =~= inserted(before, name@, info@));
            },
            None => {
                proof {
                    crate::metadata::entries::lemma_position_none(before, name@);
                }
                gsi_indexes.push((name, info));
                assert(gsi_view(gsi_indexes@) =~= inserted(before, name@, info@));
            },
        }
        index += 1;
    }
    Some(gsi_indexes)
}

/// Once an index has no partition key, the indexes give nothing however
/// many are read.
proof fn lemma_indexes_info_none(indexes: Seq<IndexDescriptionView>, count: nat, more: nat)
    requires
        indexes_info(indexes, count) is None,
        count <= more <= indexes.len(),
    ensures
        indexes_info(indexes, more) is None,
    decreases more,
{
    if count < more {
        lemma_indexes_info_none(indexes, count, (more - 1) as nat);
    }
}

/// Makes of the description of a table what the metadata holds of it, and
/// notes the scalar types that occur in it. A table without a partition
/// key or a sort key gives nothing, and so does a table with an index
/// without a partition key.
pub fn introspect_table(table: &TableDescription, scalars_list: &mut Vec<String>) -> (result:
    Option<TableInfo>)
    ensures
        match result {
            Some(info) => Some(info@),
            None => None,
        } == table_info_of(table@, crate::models::names_view(old(scalars_list)@)),
        crate::models::names_view(final(scalars_list)@) == table_columns(
            table@,
            crate::models::names_view(old(scalars_list)@),
        ).1,
        result is Some ==> result->0@.wf(),
{
    proof {
        lemma_table_columns_are_distinct(table@, crate::models::names_view(scalars_list@));
        lemma_indexes_are_distinct(
            table@.global_secondary_indexes,
            table@.global_secondary_indexes.len(),
        );
    }
    let columns = introspect_columns(table, scalars_list);
    let partition_key = match key_name(&table.key_schema, KeyType::Hash) {
        Some(partition_key) => partition_key,
        None => {
            return None;
        },
    };
    let sort_key = match key_name(&table.key_schema, KeyType::Range) {
        Some(sort_key) => sort_key,
        None => {
            return None;
        },
    };
    let gsi = match introspect_indexes(&table.global_secondary_indexes) {
        Some(gsi) => gsi,
        None => {
            return None;
        },
    };
    Some(
        TableInfo {
            table_name: table.table_name.clone(),
            columns,
            partition_key,
            sort_key,
            gsi: GlobalSecondaryIndexes(gsi),
            description: None,
        },
    )
}

/// The scalar type that introspection makes of a name: without a
/// description and without a representation, with the comparison operators
/// of the name.
pub open spec fn introspected_scalar_type(name: Seq<char>) -> ScalarTypeInfoView {
    ScalarTypeInfoView {
        name,
        description: None,
        comparison_operators: comparison_operators_for(name),
        type_representation: None,
    }
}

/// The scalar types that introspection makes of the names that were noted,
/// by name.
pub fn introspect_scalar_types(scalars_list: &Vec<String>) -> (scalar_types: ScalarTypes)
    ensures
        scalar_types@ == crate::models::names_view(scalars_list@).map_values(
            |name: Seq<char>| (name, introspected_scalar_type(name)),
        ),
{
    let mut scalars: Vec<(String, ScalarType)> = Vec::new();
    let mut index: usize = 0;
    while index < scalars_list.len()
        invariant
            index <= scalars_list.len(),
            scalars@.len() == index,
            forall|i: int|
                0 <= i < index ==> (#[trigger] scalars@[i]).0@ == scalars_list@[i]@ && scalars@[i].1@
                    == introspected_scalar_type(scalars_list@[i]@),
        decreases scalars_list.len() - index,
    {
        let scalar = &scalars_list[index];
        let scalar_type = ScalarType {
            name: scalar.clone(),
            description: None,
            comparison_operators: get_comparison_operators_for_type(scalar),
            type_representation: None,
        };
        scalars.push((scalar.clone(), scalar_type));
        index += 1;
    }
    let scalar_types = ScalarTypes(scalars);
    assert(scalar_types@ =~= crate::models::names_view(scalars_list@).map_values(
        |name: Seq<char>| (name, introspected_scalar_type(name)),
    ));
    scalar_types
}

/// The tables by name and the names of scalar types after the first
/// `count` tables were looked at; nothing where one of them gives nothing.
pub open spec fn introspected_tables(tables: Seq<TableDescriptionView>, count: nat) -> Option<
    (Seq<(Seq<char>, TableInfoView)>, Seq<Seq<char>>),
>
    decreases count,
{
    if 0 < count <= tables.len() {
        match introspected_tables(tables, (count - 1) as nat) {
            None => None,
            Some(before) => match table_info_of(tables[count - 1], before.1) {
                None => None,
                Some(info) => Some(
                    (
                        inserted(before.0, tables[count - 1].table_name, info),
                        table_columns(tables[count - 1], before.1).1,
                    ),
                ),
            },
        }
    } else {
        Some((Seq::empty(), Seq::empty()))
    }
}

/// The metadata that introspection makes of the tables of a database:
/// every table under its name, and every scalar type that occurs in one of
/// them.
pub open spec fn introspected_metadata(tables: Seq<TableDescriptionView>) -> Option<MetadataView> {
    match introspected_tables(tables, tables.len()) {
        None => None,
        Some(found) => Some(
            MetadataView {
                tables: found.0,
                scalar_types: found.1.map_values(
                    |name: Seq<char>| (name, introspected_scalar_type(name)),
                ),
            },
        ),
    }
}

/// A list of names without repetitions has none after one more name was
/// noted.
pub proof fn lemma_with_name(names: Seq<Seq<char>>, name: Seq<char>)
    requires
        names.no_duplicates(),
    ensures
        with_name(names, name).no_duplicates(),
{
}

/// Declared attributes leave no column named twice and no scalar type
/// noted twice.
pub proof fn lemma_declared_columns_are_distinct(
    columns: Seq<(Seq<char>, ColumnInfoView)>,
    scalars: Seq<Seq<char>>,
    definitions: Seq<(Seq<char>, Seq<char>)>,
    count: nat,
)
    ensures
        distinct_names(columns) ==> distinct_names(
            declared_columns(columns, scalars, definitions, count).0,
        ),
        scalars.no_duplicates() ==> declared_columns(
            columns,
            scalars,
            definitions,
            count,
        ).1.no_duplicates(),
    decreases count,
{
    if 0 < count <= definitions.len() {
        lemma_declared_columns_are_distinct(columns, scalars, definitions, (count - 1) as nat);
        let before = declared_columns(columns, scalars, definitions, (count - 1) as nat);
        let name = definitions[count - 1].0;
        let scalar_type = attribute_scalar_type(definitions[count - 1].1);
        lemma_inserted(before.0, name, scalar_column(name, scalar_type), name);
        if scalars.no_duplicates() {
            lemma_with_name(before.1, scalar_type);
        }
    }
}

/// A sample row leaves no column named twice and no scalar type noted
/// twice.
pub proof fn lemma_sampled_columns_are_distinct(
    columns: Seq<(Seq<char>, ColumnInfoView)>,
    scalars: Seq<Seq<char>>,
    item: Seq<(Seq<char>, AttributeKind)>,
    count: nat,
)
    ensures
        distinct_names(columns) ==> distinct_names(
            sampled_columns(columns, scalars, item, count).0,
        ),
        scalars.no_duplicates() ==> sampled_columns(
            columns,
            scalars,
            item,
            count,
        ).1.no_duplicates(),
    decreases count,
{
    if 0 < count <= item.len() {
        lemma_sampled_columns_are_distinct(columns, scalars, item, (count - 1) as nat);
        let before = sampled_columns(columns, scalars, item, (count - 1) as nat);
        let name = item[count - 1].0;
        let kind = item[count - 1].1;
        lemma_inserted(before.0, name, scalar_column(name, sample_scalar_type(kind)), name);
        if scalars.no_duplicates() {
            lemma_with_name(before.1, sample_scalar_type(kind));
        }
    }
}

/// Sample rows leave no column named twice and no scalar type noted twice.
pub proof fn lemma_all_sampled_columns_are_distinct(
    columns: Seq<(Seq<char>, ColumnInfoView)>,
    scalars: Seq<Seq<char>>,
    items: Seq<Seq<(Seq<char>, AttributeKind)>>,
    count: nat,
)
    ensures
        distinct_names(columns) ==> distinct_names(
            all_sampled_columns(columns, scalars, items, count).0,
        ),
        scalars.no_duplicates() ==> all_sampled_columns(
            columns,
            scalars,
            items,
            count,
        ).1.no_duplicates(),
    decreases count,
{
    if 0 < count <= items.len() {
        lemma_all_sampled_columns_are_distinct(columns, scalars, items, (count - 1) as nat);
        let before = all_sampled_columns(columns, scalars, items, (count - 1) as nat);
        lemma_sampled_columns_are_distinct(
            before.0,
            before.1,
            items[count - 1],
            items[count - 1].len(),
        );
    }
}

/// A table names no column twice, and looking at it leaves no scalar type
/// noted twice.
pub proof fn lemma_table_columns_are_distinct(table: TableDescriptionView, scalars: Seq<Seq<char>>)
    ensures
        distinct_names(table_columns(table, scalars).0),
        scalars.no_duplicates() ==> table_columns(table, scalars).1.no_duplicates(),
{
    let declared = declared_columns(
        Seq::empty(),
        scalars,
        table.attribute_definitions,
        table.attribute_definitions.len(),
    );
    lemma_declared_columns_are_distinct(
        Seq::empty(),
        scalars,
        table.attribute_definitions,
        table.attribute_definitions.len(),
    );
    lemma_all_sampled_columns_are_distinct(
        declared.0,
        declared.1,
        table.items,
        table.items.len(),
    );
}

/// A table names no index twice.
pub proof fn lemma_indexes_are_distinct(indexes: Seq<IndexDescriptionView>, count: nat)
    ensures
        indexes_info(indexes, count) is Some ==> distinct_names(indexes_info(indexes, count)->0),
    decreases count,
{
    if 0 < count <= indexes.len() {
        lemma_indexes_are_distinct(indexes, (count - 1) as nat);
        if indexes_info(indexes, count) is Some {
            lemma_inserted(
                indexes_info(indexes, (count - 1) as nat)->0,
                indexes[count - 1].index_name,
                index_info(indexes[count - 1])->0,
                indexes[count - 1].index_name,
            );
        }
    }
}

/// The tables that introspection makes are well formed, and no scalar type
/// is noted twice.
pub proof fn lemma_introspected_tables_are_well_formed(
    tables: Seq<TableDescriptionView>,
    count: nat,
)
    ensures
        match introspected_tables(tables, count) {
            Some(found) => tables_wf(found.0) && found.1.no_duplicates(),
            None => true,
        },
    decreases count,
{
    if 0 < count <= tables.len() {
        lemma_introspected_tables_are_well_formed(tables, (count - 1) as nat);
        if introspected_tables(tables, count) is Some {
            let before = introspected_tables(tables, (count - 1) as nat)->0;
            let table = tables[count - 1];
            let info = table_info_of(table, before.1)->0;
            lemma_table_columns_are_distinct(table, before.1);
            lemma_indexes_are_distinct(
                table.global_secondary_indexes,
                table.global_secondary_indexes.len(),
            );
            assert(info.wf());
            lemma_inserted(before.0, table.table_name, info, table.table_name);
            lemma_inserted_values(before.0, table.table_name, info, |t: TableInfoView| t.wf());
        }
    }
}

/// The metadata that introspection makes is well formed: no table and no
/// scalar type is named twice, no table names a column or an index twice,
/// and no scalar type names an operator twice.
pub proof fn lemma_introspection_is_well_formed(tables: Seq<TableDescriptionView>)
    ensures
        introspected_metadata(tables) is Some ==> introspected_metadata(tables)->0.wf(),
{
    lemma_introspected_tables_are_well_formed(tables, tables.len());
    if introspected_metadata(tables) is Some {
        let found = introspected_tables(tables, tables.len())->0;
        let scalar_types = found.1.map_values(
            |name: Seq<char>| (name, introspected_scalar_type(name)),
        );
        assert forall|i: int| 0 <= i < scalar_types.len() implies (#[trigger] scalar_types[i].1).wf() by {
            lemma_operators_are_distinct(found.1[i]);
        }
        assert(scalar_types_wf(scalar_types));
    }
}

/// Once a table gives nothing, the tables give nothing however many are
/// read.
proof fn lemma_introspected_tables_none(tables: Seq<TableDescriptionView>, count: nat, more: nat)
    requires
        introspected_tables(tables, count) is None,
        count <= more <= tables.len(),
    ensures
        introspected_tables(tables, more) is None,
    decreases more,
{
    if count < more {
        lemma_introspected_tables_none(tables, count, (more - 1) as nat);
    }
}

/// Makes the metadata of a database from the descriptions of its tables.
pub fn introspect_metadata(tables: &Vec<TableDescription>) -> (result: Option<Metadata>)
    ensures
        match result {
            Some(metadata) => Some(metadata@),
            None => None,
        } == introspected_metadata(tables@.map_values(|t: TableDescription| t@)),
        result is Some ==> result->0.wf(),
{
    proof {
        lemma_introspection_is_well_formed(tables@.map_values(|t: TableDescription| t@));
    }
    let ghost views = tables@.map_values(|t: TableDescription| t@);
    let mut scalars_list: Vec<String> = Vec::new();
    let mut tables_info: Vec<(String, TableInfo)> = Vec::new();
    assert(entries_view(tables_info@, |t: TableInfo| t@) =~= Seq::empty());
    assert(crate::models::names_view(scalars_list@) =~= Seq::empty());
    let mut index: usize = 0;
    while index < tables.len()
        invariant
            index <= tables.len(),
            views == tables@.map_values(|t: TableDescription| t@),
            introspected_tables(views, index as nat) == Some(
                (
                    entries_view(tables_info@, |t: TableInfo| t@),
                    crate::models::names_view(scalars_list@),
                ),
            ),
        decreases tables.len() - index,
    {
        let table = &tables[index];
        assert(views[index as int] == table@);
        let table_info = match introspect_table(table, &mut scalars_list) {
            Some(table_info) => table_info,
            None => {
                proof {
                    lemma_introspected_tables_none(views, (index + 1) as nat, views.len());
                }
                return None;
            },
        };
        let ghost before = entries_view(tables_info@, |t: TableInfo| t@);
        let name = table.table_name.clone();
        match find(&tables_info, &name) {
            Some(position) => {
                proof {
                    crate::metadata::entries::lemma_position_first(before, name@, position as int);
                }
                tables_info[position] = (name, table_info);
                assert(entries_view(tables_info@, |t: TableInfo| t@) =~= inserted(
                    before,
                    name@,
                    table_info@,
                ));
            },
            None => {
                proof {
                    crate::metadata::entries::lemma_position_none(before, name@);
                }
                tables_info.push((name, table_info));
                assert(entries_view(tables_info@, |t: TableInfo| t@) =~= inserted(
                    before,
                    name@,
                    table_info@,
                ));
            },
        }
        index += 1;
    }
    Some(
        Metadata {
            tables: TablesInfo(tables_info),
            scalar_types: introspect_scalar_types(&scalars_list),
        },
    )
}

} // verus!
