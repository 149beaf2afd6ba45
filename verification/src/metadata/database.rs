//! Tables, columns, scalar types and operators of the database.

use crate::metadata::entries::{
    distinct_names, find, inserted, lemma_merged, lemma_merged_values, lemma_position_first,
    lemma_position_none, merged,
};
use vstd::prelude::*;

verus! {

/// The name of a scalar type of the engine.
#[derive(Debug, Clone)]
pub struct ScalarTypeTypeName(pub String);

/// The type of the values of a column, a field or an argument.
#[derive(Debug)]
pub enum Type {
    ScalarType(String),
    ArrayType(Box<Type>),
}

pub enum TypeView {
    ScalarType(Seq<char>),
    ArrayType(Box<TypeView>),
}

/// The model of a type.
pub open spec fn type_view(t: Type) -> TypeView
    decreases t,
{
    match t {
        Type::ScalarType(name) => TypeView::ScalarType(name@),
        Type::ArrayType(inner) => TypeView::ArrayType(Box::new(type_view(*inner))),
    }
}

impl View for Type {
    type V = TypeView;

    open spec fn view(&self) -> TypeView {
        type_view(*self)
    }
}

impl Clone for Type {
    fn clone(&self) -> (copy: Self)
        ensures
            copy@ == self@,
        decreases self,
    {
        match self {
            Type::ScalarType(name) => Type::ScalarType(name.clone()),
            Type::ArrayType(inner) => {
                let copy: Type = (**inner).clone();
                Type::ArrayType(Box::new(copy))
            },
        }
    }
}

/// Whether an operator is the equality, the membership in a set, or another
/// one.
#[derive(Debug, Clone, Copy, PartialEq, Eq, Structural)]
pub enum OperatorKind {
    Equal,
    In,
    Custom,
}

/// A binary comparison operator of a scalar type.
#[derive(Debug)]
pub struct ComparisonOperator {
    /// The operator's token, or the name of the function that stands for it.
    pub operator_name: String,
    pub operator_kind: OperatorKind,
    /// The scalar type of the right-hand side.
    pub argument_type: String,
    /// Whether the operator stands between its operands; otherwise it is
    /// called as a function.
    pub is_infix: bool,
}

pub struct ComparisonOperatorView {
    pub operator_name: Seq<char>,
    pub operator_kind: OperatorKind,
    pub argument_type: Seq<char>,
    pub is_infix: bool,
}

impl View for ComparisonOperator {
    type V = ComparisonOperatorView;

    open spec fn view(&self) -> ComparisonOperatorView {
        ComparisonOperatorView {
            operator_name: self.operator_name@,
            operator_kind: self.operator_kind,
            argument_type: self.argument_type@,
            is_infix: self.is_infix,
        }
    }
}

impl Clone for ComparisonOperator {
    fn clone(&self) -> (copy: Self)
        ensures
            copy@ == self@,
    {
        ComparisonOperator {
            operator_name: self.operator_name.clone(),
            operator_kind: self.operator_kind,
            argument_type: self.argument_type.clone(),
            is_infix: self.is_infix,
        }
    }
}

/// How the values of a scalar type are written in a response.
#[derive(Debug, Clone)]
pub enum TypeRepresentation {
    /// JSON booleans
    Boolean,
    /// Any JSON string
    String,
    /// float4
    Float32,
    /// float8
    Float64,
    /// int2
    Int16,
    /// int4
    Int32,
    /// int8 as integer
    Int64,
    /// int8 as string
    Int64AsString,
    /// numeric
    BigDecimal,
    /// numeric as string
    BigDecimalAsString,
    /// timestamp
    Timestamp,
    /// timestamp with timezone
    Timestamptz,
    /// time
    Time,
    /// time with timezone
    Timetz,
    /// date
    Date,
    /// uuid
    UUID,
    /// geography
    Geography,
    /// geometry
    Geometry,
    /// An arbitrary json.
    Json,
    /// One of the specified string values
    Enum(Vec<String>),
}

pub enum TypeRepresentationView {
    Boolean,
    String,
    Float32,
    Float64,
    Int16,
    Int32,
    Int64,
    Int64AsString,
    BigDecimal,
    BigDecimalAsString,
    Timestamp,
    Timestamptz,
    Time,
    Timetz,
    Date,
    UUID,
    Geography,
    Geometry,
    Json,
    Enum(Seq<Seq<char>>),
}

impl View for TypeRepresentation {
    type V = TypeRepresentationView;

    open spec fn view(&self) -> TypeRepresentationView {
        match self {
            TypeRepresentation::Boolean => TypeRepresentationView::Boolean,
            TypeRepresentation::String => TypeRepresentationView::String,
            TypeRepresentation::Float32 => TypeRepresentationView::Float32,
            TypeRepresentation::Float64 => TypeRepresentationView::Float64,
            TypeRepresentation::Int16 => TypeRepresentationView::Int16,
            TypeRepresentation::Int32 => TypeRepresentationView::Int32,
            TypeRepresentation::Int64 => TypeRepresentationView::Int64,
            TypeRepresentation::Int64AsString => TypeRepresentationView::Int64AsString,
            TypeRepresentation::BigDecimal => TypeRepresentationView::BigDecimal,
            TypeRepresentation::BigDecimalAsString => TypeRepresentationView::BigDecimalAsString,
            TypeRepresentation::Timestamp => TypeRepresentationView::Timestamp,
            TypeRepresentation::Timestamptz => TypeRepresentationView::Timestamptz,
            TypeRepresentation::Time => TypeRepresentationView::Time,
            TypeRepresentation::Timetz => TypeRepresentationView::Timetz,
            TypeRepresentation::Date => TypeRepresentationView::Date,
            TypeRepresentation::UUID => TypeRepresentationView::UUID,
            TypeRepresentation::Geography => TypeRepresentationView::Geography,
            TypeRepresentation::Geometry => TypeRepresentationView::Geometry,
            TypeRepresentation::Json => TypeRepresentationView::Json,
            TypeRepresentation::Enum(variants) => TypeRepresentationView::Enum(
                variants@.map_values(|v: String| v@),
            ),
        }
    }
}

/// The model of a list of named values, given the model of a value.
pub open spec fn entries_view<T, V>(entries: Seq<(String, T)>, value_view: spec_fn(T) -> V) -> Seq<
    (Seq<char>, V),
> {
    entries.map_values(|e: (String, T)| (e.0@, value_view(e.1)))
}

/// The model of an optional string.
pub open spec fn optional_text(text: Option<String>) -> Option<Seq<char>> {
    match text {
        Some(text) => Some(text@),
        None => None,
    }
}

/// The comparison operators of the scalar types, by type and then by name.
#[derive(Debug, Clone)]
pub struct ComparisonOperators(pub Vec<(String, Vec<(String, ComparisonOperator)>)>);

impl ComparisonOperators {
    pub fn empty() -> (operators: ComparisonOperators)
        ensures
            operators.0@.len() == 0,
    {
        ComparisonOperators(Vec::new())
    }
}

/// A scalar type: its name and what can be done with its values.
#[derive(Debug, Clone)]
pub struct ScalarType {
    pub name: String,
    pub description: Option<String>,
    /// The comparison operators of the type, by name.
    pub comparison_operators: Vec<(String, ComparisonOperator)>,
    pub type_representation: Option<TypeRepresentation>,
}

pub struct ScalarTypeInfoView {
    pub name: Seq<char>,
    pub description: Option<Seq<char>>,
    pub comparison_operators: Seq<(Seq<char>, ComparisonOperatorView)>,
    pub type_representation: Option<TypeRepresentationView>,
}

impl ScalarTypeInfoView {
    /// No operator is named twice.
    pub open spec fn wf(self) -> bool {
        distinct_names(self.comparison_operators)
    }
}

/// No scalar type is named twice, and none names an operator twice.
pub open spec fn scalar_types_wf(scalar_types: Seq<(Seq<char>, ScalarTypeInfoView)>) -> bool {
    &&& distinct_names(scalar_types)
    &&& forall|i: int| 0 <= i < scalar_types.len() ==> (#[trigger] scalar_types[i].1).wf()
}

impl View for ScalarType {
    type V = ScalarTypeInfoView;

    open spec fn view(&self) -> ScalarTypeInfoView {
        ScalarTypeInfoView {
            name: self.name@,
            description: optional_text(self.description),
            comparison_operators: entries_view(
                self.comparison_operators@,
                |o: ComparisonOperator| o@,
            ),
            type_representation: match self.type_representation {
                Some(representation) => Some(representation@),
                None => None,
            },
        }
    }
}

/// All scalar types that are known, by name.
#[derive(Debug, Clone)]
pub struct ScalarTypes(pub Vec<(String, ScalarType)>);

impl View for ScalarTypes {
    type V = Seq<(Seq<char>, ScalarTypeInfoView)>;

    open spec fn view(&self) -> Seq<(Seq<char>, ScalarTypeInfoView)> {
        entries_view(self.0@, |t: ScalarType| t@)
    }
}

impl ScalarTypes {
    /// No scalar type is named twice, and none names an operator twice.
    pub open spec fn wf(&self) -> bool {
        scalar_types_wf(self@)
    }

    pub fn empty() -> (scalar_types: ScalarTypes)
        ensures
            scalar_types@.len() == 0,
            scalar_types.wf(),
    {
        ScalarTypes(Vec::new())
    }
}

/// A field of a composite type.
#[derive(Debug, Clone)]
pub struct FieldInfo {
    pub field_name: String,
    pub type_: Type,
    pub description: Option<String>,
}

/// Whether a column can hold null.
#[derive(Debug, Clone, Copy, PartialEq, Eq, Structural)]
pub enum Nullable {
    Nullable,
    NonNullable,
}

impl Default for Nullable {
    fn default() -> (nullable: Nullable)
        ensures
            nullable == Nullable::Nullable,
    {
        Nullable::Nullable
    }
}

/// Whether a column has a default value.
#[derive(Debug, Clone, Copy, PartialEq, Eq, Structural)]
pub enum HasDefault {
    NoDefault,
    HasDefault,
}

impl Default for HasDefault {
    fn default() -> (has_default: HasDefault)
        ensures
            has_default == HasDefault::NoDefault,
    {
        HasDefault::NoDefault
    }
}

/// Whether a column is an identity column.
#[derive(Debug, Clone, Copy, PartialEq, Eq, Structural)]
pub enum IsIdentity {
    NotIdentity,
    IdentityByDefault,
    IdentityAlways,
}

impl Default for IsIdentity {
    fn default() -> (is_identity: IsIdentity)
        ensures
            is_identity == IsIdentity::NotIdentity,
    {
        IsIdentity::NotIdentity
    }
}

/// Whether a column is generated.
#[derive(Debug, Clone, Copy, PartialEq, Eq, Structural)]
pub enum IsGenerated {
    NotGenerated,
    Stored,
}

impl Default for IsGenerated {
    fn default() -> (is_generated: IsGenerated)
        ensures
            is_generated == IsGenerated::NotGenerated,
    {
        IsGenerated::NotGenerated
    }
}

/// A column of a table.
#[derive(Debug, Clone)]
pub struct ColumnInfo {
    pub name: String,
    pub type_: Type,
    pub nullable: Nullable,
    pub description: Option<String>,
}

pub struct ColumnInfoView {
    pub name: Seq<char>,
    pub type_: TypeView,
    pub nullable: Nullable,
    pub description: Option<Seq<char>>,
}

impl View for ColumnInfo {
    type V = ColumnInfoView;

    open spec fn view(&self) -> ColumnInfoView {
        ColumnInfoView {
            name: self.name@,
            type_: self.type_@,
            nullable: self.nullable,
            description: optional_text(self.description),
        }
    }
}

/// The uniqueness constraints of a table, by name.
#[derive(Debug, Clone)]
pub struct UniquenessConstraints(pub Vec<(String, UniquenessConstraint)>);

/// The columns that make up a uniqueness constraint.
#[derive(Debug, Clone)]
pub struct UniquenessConstraint(pub Vec<String>);

/// The foreign key constraints of a table, by name.
#[derive(Debug, Clone)]
pub struct ForeignRelations(pub Vec<(String, ForeignRelation)>);

/// A foreign key constraint.
#[derive(Debug, Clone)]
pub struct ForeignRelation {
    pub foreign_schema: Option<String>,
    pub foreign_table: String,
    pub column_mapping: Vec<(String, String)>,
}

/// What a secondary index projects.
#[derive(Debug, Clone)]
pub struct ProjectionTypeInfo {
    pub projection_type: String,
    pub non_key_attributes: Vec<String>,
}

pub struct ProjectionTypeInfoView {
    pub projection_type: Seq<char>,
    pub non_key_attributes: Seq<Seq<char>>,
}

impl View for ProjectionTypeInfo {
    type V = ProjectionTypeInfoView;

    open spec fn view(&self) -> ProjectionTypeInfoView {
        ProjectionTypeInfoView {
            projection_type: self.projection_type@,
            non_key_attributes: self.non_key_attributes@.map_values(|a: String| a@),
        }
    }
}

/// A global secondary index.
#[derive(Debug, Clone)]
pub struct GlobalSecondaryIndexInfo {
    pub partition_key: String,
    pub sort_key: Option<String>,
    pub projection_type: ProjectionTypeInfo,
}

pub struct GlobalSecondaryIndexInfoView {
    pub partition_key: Seq<char>,
    pub sort_key: Option<Seq<char>>,
    pub projection_type: ProjectionTypeInfoView,
}

impl View for GlobalSecondaryIndexInfo {
    type V = GlobalSecondaryIndexInfoView;

    open spec fn view(&self) -> GlobalSecondaryIndexInfoView {
        GlobalSecondaryIndexInfoView {
            partition_key: self.partition_key@,
            sort_key: optional_text(self.sort_key),
            projection_type: self.projection_type@,
        }
    }
}

/// The global secondary indexes of a table, by name.
#[derive(Debug, Clone)]
pub struct GlobalSecondaryIndexes(pub Vec<(String, GlobalSecondaryIndexInfo)>);

impl View for GlobalSecondaryIndexes {
    type V = Seq<(Seq<char>, GlobalSecondaryIndexInfoView)>;

    open spec fn view(&self) -> Seq<(Seq<char>, GlobalSecondaryIndexInfoView)> {
        entries_view(self.0@, |i: GlobalSecondaryIndexInfo| i@)
    }
}

/// A table of the database.
#[derive(Debug, Clone)]
pub struct TableInfo {
    pub table_name: String,
    /// The columns of the table, by field name.
    pub columns: Vec<(String, ColumnInfo)>,
    pub partition_key: String,
    pub sort_key: String,
    pub gsi: GlobalSecondaryIndexes,
    pub description: Option<String>,
}

pub struct TableInfoView {
    pub table_name: Seq<char>,
    pub columns: Seq<(Seq<char>, ColumnInfoView)>,
    pub partition_key: Seq<char>,
    pub sort_key: Seq<char>,
    pub gsi: Seq<(Seq<char>, GlobalSecondaryIndexInfoView)>,
    pub description: Option<Seq<char>>,
}

impl TableInfoView {
    /// No column and no index is named twice.
    pub open spec fn wf(self) -> bool {
        distinct_names(self.columns) && distinct_names(self.gsi)
    }
}

/// No table is named twice, and none names a column or an index twice.
pub open spec fn tables_wf(tables: Seq<(Seq<char>, TableInfoView)>) -> bool {
    &&& distinct_names(tables)
    &&& forall|i: int| 0 <= i < tables.len() ==> (#[trigger] tables[i].1).wf()
}

impl View for TableInfo {
    type V = TableInfoView;

    open spec fn view(&self) -> TableInfoView {
        TableInfoView {
            table_name: self.table_name@,
            columns: entries_view(self.columns@, |c: ColumnInfo| c@),
            partition_key: self.partition_key@,
            sort_key: self.sort_key@,
            gsi: self.gsi@,
            description: optional_text(self.description),
        }
    }
}

/// The tables of the database, by collection name.
#[derive(Debug, Clone)]
pub struct TablesInfo(pub Vec<(String, TableInfo)>);

impl View for TablesInfo {
    type V = Seq<(Seq<char>, TableInfoView)>;

    open spec fn view(&self) -> Seq<(Seq<char>, TableInfoView)> {
        entries_view(self.0@, |t: TableInfo| t@)
    }
}

impl TablesInfo {
    /// No table is named twice, and none names a column or an index twice.
    pub open spec fn wf(&self) -> bool {
        tables_wf(self@)
    }

    pub fn empty() -> (tables: TablesInfo)
        ensures
            tables@.len() == 0,
            tables.wf(),
    {
        TablesInfo(Vec::new())
    }

    /// Takes every table of `other`: one whose name is known already takes
    /// the place of the table of that name, the others are added. Tables
    /// that were well formed stay so.
    pub fn merge(&mut self, other: TablesInfo)
        ensures
            final(self)@ == merged(old(self)@, other@, other@.len()),
            old(self).wf() && other.wf() ==> final(self).wf(),
    {
        proof {
            if self.wf() && other.wf() {
                lemma_merged(self@, other@, other@.len(), Seq::empty());
                lemma_merged_values(self@, other@, other@.len(), |t: TableInfoView| t.wf());
            }
        }
        let mut other = other;
        let ghost all = other@;
        let ghost start = self@;
        let mut rest: Vec<(String, TableInfo)> = Vec::new();
        // Take the tables out from the back, then insert them front to back.
        while other.0.len() > 0
            invariant
                other@ + entries_view(rest@, |t: TableInfo| t@).reverse() == all,
            decreases other.0.len(),
        {
            let ghost before = other@;
            let ghost rest_before = entries_view(rest@, |t: TableInfo| t@);
            let last = other.0.pop().unwrap();
            rest.push(last);
            proof {
                let rest_now = entries_view(rest@, |t: TableInfo| t@);
                assert(rest_now =~= rest_before.push((last.0@, last.1@)));
                assert(other@ =~= before.drop_last());
                assert(other@ + rest_now.reverse() =~= before + rest_before.reverse());
            }
        }
        assert(entries_view(rest@, |t: TableInfo| t@).reverse() =~= all);
        let ghost total = rest.len();
        while rest.len() > 0
            invariant
                total == all.len(),
                rest.len() <= total,
                entries_view(rest@, |t: TableInfo| t@) =~= all.reverse().take(rest.len() as int),
                self@ == merged(start, all, (total - rest.len()) as nat),
            decreases rest.len(),
        {
            let ghost done = (total - rest.len()) as nat;
            let ghost rest_before = entries_view(rest@, |t: TableInfo| t@);
            let (table_name, table_info) = rest.pop().unwrap();
            proof {
                assert(rest_before.last() == all.reverse()[rest_before.len() - 1]);
                assert((table_name@, table_info@) == all[done as int]);
            }
            let ghost before = self@;
            match find(&self.0, &table_name) {
                Some(index) => {
                    self.0[index] = (table_name, table_info);
                    proof {
                        lemma_position_first(before, table_name@, index as int);
                        assert(self@ =~= inserted(before, table_name@, table_info@));
                    }
                },
                None => {
                    self.0.push((table_name, table_info));
                    proof {
                        lemma_position_none(before, table_name@);
                        assert(self@ =~= inserted(before, table_name@, table_info@));
                    }
                },
            }
        }
    }
}

/// An aggregate function of a scalar type.
#[derive(Debug, Clone)]
pub struct AggregateFunction {
    pub return_type: String,
}

/// The aggregate functions of the scalar types, by type and then by name.
#[derive(Debug, Clone)]
pub struct AggregateFunctions(pub Vec<(String, Vec<(String, AggregateFunction)>)>);

impl AggregateFunctions {
    pub fn empty() -> (functions: AggregateFunctions)
        ensures
            functions.0@.len() == 0,
    {
        AggregateFunctions(Vec::new())
    }
}

/// The representations of the scalar types, by type.
#[derive(Debug, Clone)]
pub struct TypeRepresentations(pub Vec<(String, TypeRepresentation)>);

impl TypeRepresentations {
    pub fn empty() -> (representations: TypeRepresentations)
        ensures
            representations.0@.len() == 0,
    {
        TypeRepresentations(Vec::new())
    }
}

} // verus!
