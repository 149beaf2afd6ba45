//! Query requests as translation takes them: the collection, the fields
//! asked for, the predicate, the ordering and the limit. The model of a
//! request, written `request@`, keeps what translation reads of it.

use crate::json::{JsonValue, JsonValueView};
use vstd::prelude::*;

verus! {

/// A request for the rows of a collection.
#[derive(Debug)]
pub struct QueryRequest {
    /// The name of a collection, or a name, a colon and the name of one of
    /// its secondary indexes.
    pub collection: String,
    pub query: Query,
    /// Arguments of the collection, by name.
    pub arguments: Vec<(String, Argument)>,
    /// Sets of variables for which the query is to be run once each.
    pub variables: Option<Vec<Vec<(String, JsonValue)>>>,
}

/// What is asked of a collection.
#[derive(Debug)]
pub struct Query {
    /// The fields to return, by the alias under which each is returned, in
    /// the order they were asked for.
    pub fields: Option<Vec<(String, Field)>>,
    pub limit: Option<u32>,
    pub offset: Option<u32>,
    pub order_by: Option<OrderBy>,
    pub predicate: Option<Expression>,
}

/// An argument of a collection or of a field.
#[derive(Debug)]
pub enum Argument {
    Variable { name: String },
    Literal { value: JsonValue },
}

/// An argument of a relationship.
#[derive(Debug)]
pub enum RelationshipArgument {
    Variable { name: String },
    Literal { value: JsonValue },
    Column { name: String },
}

/// A field that a query asks for.
#[derive(Debug)]
pub enum Field {
    Column { column: String, fields: Option<NestedField>, arguments: Vec<(String, Argument)> },
    Relationship {
        query: Box<Query>,
        relationship: String,
        arguments: Vec<(String, RelationshipArgument)>,
    },
}

/// A selection inside the value of a field.
#[derive(Debug)]
pub enum NestedField {
    Object { fields: Vec<(String, Field)> },
    Array { fields: Box<NestedField> },
}

/// One hop along a relationship.
#[derive(Debug)]
pub struct PathElement {
    pub relationship: String,
    pub arguments: Vec<(String, RelationshipArgument)>,
    pub predicate: Option<Box<Expression>>,
}

/// The column that a comparison is about.
#[derive(Debug)]
pub enum ComparisonTarget {
    Column { name: String, path: Vec<PathElement>, field_path: Option<Vec<String>> },
    RootCollectionColumn { name: String, field_path: Option<Vec<String>> },
}

/// The value that a column is compared with.
#[derive(Debug)]
pub enum ComparisonValue {
    Column { column: ComparisonTarget },
    Scalar { value: JsonValue },
    Variable { name: String },
}

#[derive(Debug, Clone, Copy, PartialEq, Eq, Structural)]
pub enum UnaryComparisonOperator {
    IsNull,
}

/// The collection in which a row is to exist.
#[derive(Debug)]
pub enum ExistsInCollection {
    Related { relationship: String, arguments: Vec<(String, RelationshipArgument)> },
    Unrelated { collection: String, arguments: Vec<(String, RelationshipArgument)> },
    NestedCollection {
        column_name: String,
        arguments: Vec<(String, Argument)>,
        field_path: Vec<String>,
    },
}

/// A predicate on the rows of a collection.
#[derive(Debug)]
pub enum Expression {
    And { expressions: Vec<Expression> },
    Or { expressions: Vec<Expression> },
    Not { expression: Box<Expression> },
    UnaryComparisonOperator { column: ComparisonTarget, operator: UnaryComparisonOperator },
    BinaryComparisonOperator { column: ComparisonTarget, operator: String, value: ComparisonValue },
    Exists { in_collection: ExistsInCollection, predicate: Option<Box<Expression>> },
}

#[derive(Debug, Clone, Copy, PartialEq, Eq, Structural)]
pub enum OrderDirection {
    Asc,
    Desc,
}

/// What rows are ordered by.
#[derive(Debug)]
pub enum OrderByTarget {
    Column { name: String, path: Vec<PathElement>, field_path: Option<Vec<String>> },
    SingleColumnAggregate {
        column: String,
        function: String,
        path: Vec<PathElement>,
        field_path: Option<Vec<String>>,
    },
    StarCountAggregate { path: Vec<PathElement> },
}

#[derive(Debug)]
pub struct OrderByElement {
    pub order_direction: OrderDirection,
    pub target: OrderByTarget,
}

#[derive(Debug)]
pub struct OrderBy {
    pub elements: Vec<OrderByElement>,
}

// Models

/// The names of a list of names.
pub open spec fn names_view(names: Seq<String>) -> Seq<Seq<char>> {
    names.map_values(|n: String| n@)
}

/// The fields along which a nested value is reached; none where no path is
/// given.
pub open spec fn field_path_view(field_path: Option<Vec<String>>) -> Seq<Seq<char>> {
    match field_path {
        Some(names) => names_view(names@),
        None => Seq::empty(),
    }
}

/// A comparison target: the column's name, how many relationships lead to
/// it, and the nested fields selected in it.
pub enum ComparisonTargetView {
    Column { name: Seq<char>, path_len: nat, field_path: Seq<Seq<char>> },
    RootCollectionColumn { name: Seq<char>, field_path: Seq<Seq<char>> },
}

impl View for ComparisonTarget {
    type V = ComparisonTargetView;

    open spec fn view(&self) -> ComparisonTargetView {
        match self {
            ComparisonTarget::Column { name, path, field_path } => ComparisonTargetView::Column {
                name: name@,
                path_len: path@.len(),
                field_path: field_path_view(*field_path),
            },
            ComparisonTarget::RootCollectionColumn {
                name,
                field_path,
            } => ComparisonTargetView::RootCollectionColumn {
                name: name@,
                field_path: field_path_view(*field_path),
            },
        }
    }
}

pub enum ComparisonValueView {
    Column { column: ComparisonTargetView },
    Scalar { value: JsonValueView },
    Variable { name: Seq<char> },
}

impl View for ComparisonValue {
    type V = ComparisonValueView;

    open spec fn view(&self) -> ComparisonValueView {
        match self {
            ComparisonValue::Column { column } => ComparisonValueView::Column { column: column@ },
            ComparisonValue::Scalar { value } => ComparisonValueView::Scalar { value: value@ },
            ComparisonValue::Variable { name } => ComparisonValueView::Variable { name: name@ },
        }
    }
}

pub enum ExistsInCollectionView {
    Related,
    Unrelated { collection: Seq<char> },
    NestedCollection,
}

impl View for ExistsInCollection {
    type V = ExistsInCollectionView;

    open spec fn view(&self) -> ExistsInCollectionView {
        match self {
            ExistsInCollection::Related { relationship, arguments } => ExistsInCollectionView::Related,
            ExistsInCollection::Unrelated {
                collection,
                arguments,
            } => ExistsInCollectionView::Unrelated { collection: collection@ },
            ExistsInCollection::NestedCollection {
                column_name,
                arguments,
                field_path,
            } => ExistsInCollectionView::NestedCollection,
        }
    }
}

pub enum PredicateView {
    And { expressions: Seq<PredicateView> },
    Or { expressions: Seq<PredicateView> },
    Not { expression: Box<PredicateView> },
    UnaryComparisonOperator { column: ComparisonTargetView, operator: UnaryComparisonOperator },
    BinaryComparisonOperator {
        column: ComparisonTargetView,
        operator: Seq<char>,
        value: ComparisonValueView,
    },
    Exists { in_collection: ExistsInCollectionView, predicate: Option<Box<PredicateView>> },
}

/// The model of a predicate.
pub open spec fn predicate_view(predicate: Expression) -> PredicateView
    decreases predicate,
{
    match predicate {
        Expression::And { expressions } => PredicateView::And {
            expressions: predicate_list_view(expressions@),
        },
        Expression::Or { expressions } => PredicateView::Or {
            expressions: predicate_list_view(expressions@),
        },
        Expression::Not { expression } => PredicateView::Not {
            expression: Box::new(predicate_view(*expression)),
        },
        Expression::UnaryComparisonOperator {
            column,
            operator,
        } => PredicateView::UnaryComparisonOperator { column: column@, operator },
        Expression::BinaryComparisonOperator {
            column,
            operator,
            value,
        } => PredicateView::BinaryComparisonOperator {
            column: column@,
            operator: operator@,
            value: value@,
        },
        Expression::Exists { in_collection, predicate } => PredicateView::Exists {
            in_collection: in_collection@,
            predicate: match predicate {
                Some(inner) => Some(Box::new(predicate_view(*inner))),
                None => None,
            },
        },
    }
}

/// The models of a list of predicates, in order.
pub open spec fn predicate_list_view(predicates: Seq<Expression>) -> Seq<PredicateView>
    decreases predicates,
{
    Seq::new(
        predicates.len(),
        |i: int|
            if 0 <= i < predicates.len() {
                predicate_view(predicates[i])
            } else {
                arbitrary()
            },
    )
}

impl View for Expression {
    type V = PredicateView;

    open spec fn view(&self) -> PredicateView {
        predicate_view(*self)
    }
}

/// What rows are ordered by: a column of the collection or an aggregate, and
/// how many relationships lead to it.
pub enum OrderByTargetView {
    Column { name: Seq<char>, path_len: nat, field_path: Seq<Seq<char>> },
    SingleColumnAggregate { column: Seq<char>, path_len: nat },
    StarCountAggregate { path_len: nat },
}

impl View for OrderByTarget {
    type V = OrderByTargetView;

    open spec fn view(&self) -> OrderByTargetView {
        match self {
            OrderByTarget::Column { name, path, field_path } => OrderByTargetView::Column {
                name: name@,
                path_len: path@.len(),
                field_path: field_path_view(*field_path),
            },
            OrderByTarget::SingleColumnAggregate {
                column,
                function,
                path,
                field_path,
            } => OrderByTargetView::SingleColumnAggregate { column: column@, path_len: path@.len() },
            OrderByTarget::StarCountAggregate { path } => OrderByTargetView::StarCountAggregate {
                path_len: path@.len(),
            },
        }
    }
}

impl OrderByTargetView {
    /// How many relationships lead to the target.
    pub open spec fn path_len(self) -> nat {
        match self {
            OrderByTargetView::Column { name, path_len, field_path } => path_len,
            OrderByTargetView::SingleColumnAggregate { column, path_len } => path_len,
            OrderByTargetView::StarCountAggregate { path_len } => path_len,
        }
    }
}

pub struct OrderByElementView {
    pub order_direction: OrderDirection,
    pub target: OrderByTargetView,
}

impl View for OrderByElement {
    type V = OrderByElementView;

    open spec fn view(&self) -> OrderByElementView {
        OrderByElementView { order_direction: self.order_direction, target: self.target@ }
    }
}

impl View for OrderBy {
    type V = Seq<OrderByElementView>;

    open spec fn view(&self) -> Seq<OrderByElementView> {
        self.elements@.map_values(|e: OrderByElement| e@)
    }
}

/// A field: a column, with whether a selection inside its value or
/// arguments come with it, or a relationship.
pub enum FieldView {
    Column { column: Seq<char>, has_fields: bool, has_arguments: bool },
    Relationship,
}

impl View for Field {
    type V = FieldView;

    open spec fn view(&self) -> FieldView {
        match self {
            Field::Column { column, fields, arguments } => FieldView::Column {
                column: column@,
                has_fields: fields is Some,
                has_arguments: arguments@.len() > 0,
            },
            Field::Relationship { query, relationship, arguments } => FieldView::Relationship,
        }
    }
}

/// The fields of a list of fields under aliases, in order.
pub open spec fn fields_view(fields: Seq<(String, Field)>) -> Seq<(Seq<char>, FieldView)> {
    fields.map_values(|f: (String, Field)| (f.0@, f.1@))
}

pub struct QueryView {
    /// The fields asked for; none where the request names none.
    pub fields: Seq<(Seq<char>, FieldView)>,
    pub limit: Option<u32>,
    pub order_by: Option<Seq<OrderByElementView>>,
    pub predicate: Option<PredicateView>,
}

impl View for Query {
    type V = QueryView;

    open spec fn view(&self) -> QueryView {
        QueryView {
            fields: match self.fields {
                Some(fields) => fields_view(fields@),
                None => Seq::empty(),
            },
            limit: self.limit,
            order_by: match self.order_by {
                Some(order_by) => Some(order_by@),
                None => None,
            },
            predicate: match self.predicate {
                Some(predicate) => Some(predicate@),
                None => None,
            },
        }
    }
}

pub struct QueryRequestView {
    pub collection: Seq<char>,
    pub query: QueryView,
    pub has_variables: bool,
}

impl View for QueryRequest {
    type V = QueryRequestView;

    open spec fn view(&self) -> QueryRequestView {
        QueryRequestView {
            collection: self.collection@,
            query: self.query@,
            has_variables: self.variables is Some,
        }
    }
}

} // verus!
