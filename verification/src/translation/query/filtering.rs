//! Translation of predicates into conditions.

use crate::json::{json_list_view, JsonValue, JsonValueView};
use crate::metadata::database::{OperatorKind, Type, TypeView};
use crate::metadata::MetadataView;
use crate::models;
use crate::models::{
    ComparisonTargetView, ComparisonValueView, ExistsInCollectionView, PredicateView,
};
use crate::sql::ast::{
    BinaryArrayOperator, BinaryOperator, ColumnAlias, ColumnName, ColumnReference, Expression,
    From, Function, Join, TableReference, UnaryOperator, Value, Where,
};
use crate::sql::helpers::{
    false_expr, make_column, make_column_alias, simple_select, simple_select_view, true_expr,
    where_exists_select,
};
use crate::sql::model::{
    aliased_expressions_view, expression_list_view, ColumnReferenceView, ExpressionView,
    FromView, FunctionView, SelectListView, SelectView, TableReferenceView, ValueView,
};
use crate::sql::render::{false_expression, true_expression};
use crate::translation::error::{Error, ErrorView, UnsupportedCapabilities};
use crate::translation::helpers::{
    alias_at, collection_of, column_of, comparison_operator_of, result_view, wrap_in_field_path,
    wrapped_in_field_path, Env, FieldPath, RootAndCurrentTables,
    RootAndCurrentTablesView, State, TableNameAndReference, TableNameAndReferenceView,
};
use crate::translation::query::fields::column_expression;
use crate::translation::query::root::{
    from_clause_and_reference, make_from_clause_and_reference,
};
use crate::translation::query::values::{
    json_literal, json_literals, translate_json_value, translate_json_values,
};
use vstd::prelude::*;

verus! {

// What a predicate translates to

/// The scalar type that a type has at the end of a path of nested fields:
/// a scalar type has itself and no fields, and an array is no scalar.
pub open spec fn column_scalar_type_name(column_type: TypeView, field_path: Seq<Seq<char>>) -> Result<
    Seq<char>,
    ErrorView,
> {
    match column_type {
        TypeView::ScalarType(scalar_type) => if field_path.len() == 0 {
            Ok(scalar_type)
        } else {
            Err(ErrorView::ColumnNotFoundInCollection(field_path[0], scalar_type))
        },
        TypeView::ArrayType(_) => Err(ErrorView::NonScalarTypeUsedInOperator { type_: column_type }),
    }
}

/// The scalar type of the column of a table.
pub open spec fn column_type_in(
    metadata: MetadataView,
    table: TableNameAndReferenceView,
    name: Seq<char>,
    field_path: Seq<Seq<char>>,
) -> Result<Seq<char>, ErrorView> {
    match collection_of(metadata, table.name) {
        Err(error) => Err(error),
        Ok(collection) => match column_of(collection, name) {
            Err(error) => Err(error),
            Ok(column) => column_scalar_type_name(column.type_, field_path),
        },
    }
}

/// The scalar type of a comparison target: that of the column in the root
/// table for a column of the root collection, in the current table
/// otherwise. A column that is reached through a relationship has none.
pub open spec fn comparison_target_type(
    metadata: MetadataView,
    tables: RootAndCurrentTablesView,
    target: ComparisonTargetView,
) -> Result<Seq<char>, ErrorView> {
    match target {
        ComparisonTargetView::RootCollectionColumn { name, field_path } => column_type_in(
            metadata,
            tables.root_table,
            name,
            field_path,
        ),
        ComparisonTargetView::Column { name, path_len, field_path } => if path_len > 0 {
            Err(ErrorView::CapabilityNotSupported(UnsupportedCapabilities::Relationships))
        } else {
            column_type_in(metadata, tables.current_table, name, field_path)
        },
    }
}

/// The expression for a column of the root table, inside the accessors of
/// its nested fields.
pub open spec fn root_column(
    metadata: MetadataView,
    tables: RootAndCurrentTablesView,
    name: Seq<char>,
    field_path: Seq<Seq<char>>,
) -> Result<ExpressionView, ErrorView> {
    match collection_of(metadata, tables.root_table.name) {
        Err(error) => Err(error),
        Ok(collection) => match column_of(collection, name) {
            Err(error) => Err(error),
            Ok(column) => Ok(
                wrapped_in_field_path(
                    field_path,
                    field_path.len(),
                    column_expression(tables.root_table, column.name),
                ),
            ),
        },
    }
}

/// The expression for a comparison target. The column is always looked up
/// in the root table; one that is reached through a relationship is not
/// translated.
pub open spec fn comparison_target(
    metadata: MetadataView,
    tables: RootAndCurrentTablesView,
    target: ComparisonTargetView,
) -> Result<ExpressionView, ErrorView> {
    match target {
        ComparisonTargetView::Column { name, path_len, field_path } => if path_len > 0 {
            Err(ErrorView::CapabilityNotSupported(UnsupportedCapabilities::Relationships))
        } else {
            root_column(metadata, tables, name, field_path)
        },
        ComparisonTargetView::RootCollectionColumn { name, field_path } => root_column(
            metadata,
            tables,
            name,
            field_path,
        ),
    }
}

/// The expression for a comparison value that is to have the given type. A
/// variable is not translated.
pub open spec fn comparison_value(
    metadata: MetadataView,
    tables: RootAndCurrentTablesView,
    value: ComparisonValueView,
    expected: TypeView,
) -> Result<ExpressionView, ErrorView> {
    match value {
        ComparisonValueView::Column { column } => comparison_target(metadata, tables, column),
        ComparisonValueView::Scalar { value } => json_literal(metadata, value, expected),
        ComparisonValueView::Variable { name } => Err(
            ErrorView::CapabilityNotSupported(UnsupportedCapabilities::Variables),
        ),
    }
}

/// The subquery `(SELECT "value" FROM UNNEST(<expression>) AS <alias>("value"))`
/// with the alias `in_subquery` drawn at `index`.
pub open spec fn unnest_subquery(index: nat, expression: ExpressionView) -> ExpressionView {
    let alias = alias_at(index, "in_subquery"@);
    ExpressionView::CorrelatedSubSelect(
        Box::new(
            SelectView {
                from: Some(FromView::Unnest { expression, column: "value"@, alias }),
                ..simple_select_view(
                    SelectListView::SelectList(
                        seq![
                            (
                                "value"@,
                                ExpressionView::ColumnReference(
                                    ColumnReferenceView::TableColumn {
                                        table: TableReferenceView::AliasedTable(alias),
                                        name: "value"@,
                                    },
                                ),
                            ),
                        ],
                    ),
                )
            },
        ),
    )
}

/// `left IN (right...)`.
pub open spec fn in_expression(left: ExpressionView, right: Seq<ExpressionView>) -> ExpressionView {
    ExpressionView::BinaryArrayOperation {
        left: Box::new(left),
        operator: BinaryArrayOperator::In,
        right,
    }
}

/// The condition for a membership test whose left-hand side is `left` and
/// whose operator takes values of `argument_type`, and the index after it.
/// With a column on the
/// right, both sides are compared through a subquery over the column's
/// elements, for which an alias is drawn. With a literal on the right, the
/// literal has to be an array: an empty one gives `false`, since nothing is a
/// member of the empty set, and the items of another one are translated as
/// values of the argument type of the operator. A variable is not
/// translated.
pub open spec fn membership(
    metadata: MetadataView,
    tables: RootAndCurrentTablesView,
    index: nat,
    left: ExpressionView,
    argument_type: Seq<char>,
    value: ComparisonValueView,
) -> (Result<ExpressionView, ErrorView>, nat) {
    match value {
        ComparisonValueView::Column { column } => match comparison_target(
            metadata,
            tables,
            column,
        ) {
            Err(error) => (Err(error), index),
            Ok(right) => (Ok(in_expression(left, seq![unnest_subquery(index, right)])), index + 1),
        },
        ComparisonValueView::Scalar { value } => match value {
            JsonValueView::Array(values) => if values.len() == 0 {
                (Ok(false_expression()), index)
            } else {
                match json_literals(
                    metadata,
                    values,
                    TypeView::ScalarType(argument_type),
                    values.len(),
                ) {
                    Err(error) => (Err(error), index),
                    Ok(right) => (Ok(in_expression(left, right)), index),
                }
            },
            _ => (Err(ErrorView::TypeMismatch(value, argument_type)), index),
        },
        ComparisonValueView::Variable { name } => (
            Err(ErrorView::CapabilityNotSupported(UnsupportedCapabilities::Variables)),
            index,
        ),
    }
}

/// The condition for a comparison of a column with a value, and the index
/// after it. The operator is looked up for the scalar type of the column. A
/// membership test is translated as `membership` says. Any other operator
/// takes a value of its argument type and stands between its operands where
/// it is infix; otherwise it is called as a function of the two.
pub open spec fn binary_comparison(
    metadata: MetadataView,
    tables: RootAndCurrentTablesView,
    index: nat,
    column: ComparisonTargetView,
    operator: Seq<char>,
    value: ComparisonValueView,
) -> (Result<ExpressionView, ErrorView>, nat) {
    match comparison_target_type(metadata, tables, column) {
        Err(error) => (Err(error), index),
        Ok(left_type) => match comparison_operator_of(metadata, left_type, operator) {
            Err(error) => (Err(error), index),
            Ok(op) => match comparison_target(metadata, tables, column) {
                Err(error) => (Err(error), index),
                Ok(left) => if op.operator_kind == OperatorKind::In {
                    membership(metadata, tables, index, left, op.argument_type, value)
                } else {
                    match comparison_value(
                        metadata,
                        tables,
                        value,
                        TypeView::ScalarType(op.argument_type),
                    ) {
                        Err(error) => (Err(error), index),
                        Ok(right) => if op.is_infix {
                            (
                                Ok(
                                    ExpressionView::BinaryOperation {
                                        left: Box::new(left),
                                        operator: op.operator_name,
                                        right: Box::new(right),
                                    },
                                ),
                                index,
                            )
                        } else {
                            (
                                Ok(
                                    ExpressionView::FunctionCall {
                                        function: FunctionView::Unknown(op.operator_name),
                                        args: seq![left, right],
                                    },
                                ),
                                index,
                            )
                        },
                    }
                },
            },
        },
    }
}

/// `SELECT 1 FROM <from> WHERE <condition>`, the `1` under the alias `one`.
pub open spec fn exists_select(from: FromView, condition: ExpressionView) -> SelectView {
    SelectView {
        from: Some(from),
        where_: condition,
        ..simple_select_view(
            SelectListView::SelectList(seq![("one"@, ExpressionView::Value(ValueView::Int8(1)))]),
        )
    }
}

/// Two conditions under a connective.
pub open spec fn connected(conjunction: bool, left: ExpressionView, right: ExpressionView) -> ExpressionView {
    if conjunction {
        ExpressionView::And { left: Box::new(left), right: Box::new(right) }
    } else {
        ExpressionView::Or { left: Box::new(left), right: Box::new(right) }
    }
}

/// The condition that a predicate translates to when aliases are drawn from
/// `index` on, and the index after the translation.
pub open spec fn translated_predicate(
    metadata: MetadataView,
    tables: RootAndCurrentTablesView,
    index: nat,
    predicate: PredicateView,
) -> (Result<ExpressionView, ErrorView>, nat)
    decreases predicate, 0nat, 0nat,
{
    match predicate {
        PredicateView::And { expressions } => translated_connective(
            metadata,
            tables,
            index,
            expressions,
            expressions.len(),
            true,
        ),
        PredicateView::Or { expressions } => translated_connective(
            metadata,
            tables,
            index,
            expressions,
            expressions.len(),
            false,
        ),
        PredicateView::Not { expression } => {
            let inner = translated_predicate(metadata, tables, index, *expression);
            match inner.0 {
                Ok(condition) => (Ok(ExpressionView::Not(Box::new(condition))), inner.1),
                Err(error) => (Err(error), inner.1),
            }
        },
        PredicateView::UnaryComparisonOperator { column, operator } => match comparison_target(
            metadata,
            tables,
            column,
        ) {
            Ok(value) => (
                Ok(
                    ExpressionView::UnaryOperation {
                        expression: Box::new(value),
                        operator: UnaryOperator::IsNull,
                    },
                ),
                index,
            ),
            Err(error) => (Err(error), index),
        },
        PredicateView::BinaryComparisonOperator { column, operator, value } => binary_comparison(
            metadata,
            tables,
            index,
            column,
            operator,
            value,
        ),
        PredicateView::Exists { in_collection, predicate } => match predicate {
            None => (Ok(true_expression()), index),
            Some(inner) => translated_exists(metadata, tables, index, in_collection, *inner),
        },
    }
}

/// The first `count` of a list of predicates under `AND` or `OR`, folded
/// from the left: `true` for no conjunct, `false` for no disjunct. The
/// first predicate that has an error gives the error of the whole.
pub open spec fn translated_connective(
    metadata: MetadataView,
    tables: RootAndCurrentTablesView,
    index: nat,
    predicates: Seq<PredicateView>,
    count: nat,
    conjunction: bool,
) -> (Result<ExpressionView, ErrorView>, nat)
    decreases predicates, count, 0nat,
{
    if 0 < count <= predicates.len() {
        let before = translated_connective(
            metadata,
            tables,
            index,
            predicates,
            (count - 1) as nat,
            conjunction,
        );
        match before.0 {
            Err(error) => before,
            Ok(left) => {
                let next = translated_predicate(metadata, tables, before.1, predicates[count - 1]);
                match next.0 {
                    Err(error) => next,
                    Ok(right) => (Ok(connected(conjunction, left, right)), next.1),
                }
            },
        }
    } else {
        (
            Ok(
                if conjunction {
                    true_expression()
                } else {
                    false_expression()
                },
            ),
            index,
        )
    }
}

/// `EXISTS (SELECT 1 FROM <collection> WHERE <predicate>)` for a collection
/// that is named in the request. An alias is drawn for the collection, and
/// the predicate is translated with the collection as the current table. A
/// related or a nested collection is not translated.
pub open spec fn translated_exists(
    metadata: MetadataView,
    tables: RootAndCurrentTablesView,
    index: nat,
    in_collection: ExistsInCollectionView,
    predicate: PredicateView,
) -> (Result<ExpressionView, ErrorView>, nat)
    decreases predicate, 1nat, 0nat,
{
    match in_collection {
        ExistsInCollectionView::Unrelated { collection } => match from_clause_and_reference(
            metadata,
            index,
            collection,
            None,
        ) {
            Err(error) => (Err(error), index + 1),
            Ok(source) => {
                let inner = translated_predicate(
                    metadata,
                    RootAndCurrentTablesView {
                        root_table: tables.root_table,
                        current_table: source.0,
                    },
                    index + 1,
                    predicate,
                );
                match inner.0 {
                    Err(error) => (Err(error), inner.1),
                    Ok(condition) => (
                        Ok(
                            ExpressionView::Exists {
                                select: Box::new(exists_select(source.1, condition)),
                            },
                        ),
                        inner.1,
                    ),
                }
            },
        },
        ExistsInCollectionView::Related => (
            Err(ErrorView::CapabilityNotSupported(UnsupportedCapabilities::RelatedExists)),
            index,
        ),
        ExistsInCollectionView::NestedCollection => (
            Err(ErrorView::CapabilityNotSupported(UnsupportedCapabilities::NestedCollectionExists)),
            index,
        ),
    }
}

/// How many table aliases the translation of a predicate draws at most.
pub open spec fn aliases_needed(predicate: PredicateView) -> nat
    decreases predicate, 0nat,
{
    match predicate {
        PredicateView::And { expressions } => aliases_needed_by(expressions, expressions.len()),
        PredicateView::Or { expressions } => aliases_needed_by(expressions, expressions.len()),
        PredicateView::Not { expression } => aliases_needed(*expression),
        PredicateView::UnaryComparisonOperator { column, operator } => 0,
        PredicateView::BinaryComparisonOperator { column, operator, value } => match value {
            ComparisonValueView::Column { column } => 1,
            _ => 0,
        },
        PredicateView::Exists { in_collection, predicate } => match predicate {
            None => 0,
            Some(inner) => 1 + aliases_needed(*inner),
        },
    }
}

/// How many table aliases the translations of the first `count` of a list of
/// predicates draw at most.
pub open spec fn aliases_needed_by(predicates: Seq<PredicateView>, count: nat) -> nat
    decreases predicates, count,
{
    if 0 < count <= predicates.len() {
        aliases_needed_by(predicates, (count - 1) as nat) + aliases_needed(predicates[count - 1])
    } else {
        0
    }
}

/// More predicates need no fewer aliases.
pub proof fn lemma_aliases_needed_by_grows(predicates: Seq<PredicateView>, count: nat, more: nat)
    requires
        count <= more <= predicates.len(),
    ensures
        aliases_needed_by(predicates, count) <= aliases_needed_by(predicates, more),
    decreases more,
{
    if count < more {
        lemma_aliases_needed_by_grows(predicates, count, (more - 1) as nat);
    }
}

/// Once a predicate of a list has an error, the connective has that error
/// however many predicates are read.
pub proof fn lemma_connective_error(
    metadata: MetadataView,
    tables: RootAndCurrentTablesView,
    index: nat,
    predicates: Seq<PredicateView>,
    count: nat,
    more: nat,
    conjunction: bool,
)
    requires
        translated_connective(metadata, tables, index, predicates, count, conjunction).0 is Err,
        count <= more <= predicates.len(),
    ensures
        translated_connective(metadata, tables, index, predicates, more, conjunction)
            == translated_connective(metadata, tables, index, predicates, count, conjunction),
    decreases more,
{
    if count < more {
        lemma_connective_error(
            metadata,
            tables,
            index,
            predicates,
            count,
            (more - 1) as nat,
            conjunction,
        );
    }
}

/// The view of a condition with its joins, or of an error.
pub open spec fn condition_view(result: Result<(Expression, Vec<Join>), Error>) -> Result<
    ExpressionView,
    ErrorView,
> {
    match result {
        Ok(pair) => Ok(pair.0@),
        Err(error) => Err(error@),
    }
}

/// Whether a translation came back without joins.
pub open spec fn no_joins(result: Result<(Expression, Vec<Join>), Error>) -> bool {
    match result {
        Ok(pair) => pair.1@.len() == 0,
        Err(error) => true,
    }
}

// Translation

/// Translates a predicate into a condition. Joins that the condition needs
/// do not reach the caller: where there are any, the condition is put under
/// an `EXISTS` over the first of them.
pub fn translate_expression(
    env: &Env,
    state: &mut State,
    root_and_current_tables: &RootAndCurrentTables,
    predicate: &models::Expression,
) -> (result: Result<Expression, Error>)
    requires
        old(state)@ + aliases_needed(predicate@) <= u64::MAX,
    ensures
        (result_view(result), final(state)@) == translated_predicate(
            env@,
            root_and_current_tables@,
            old(state)@,
            predicate@,
        ),
        old(state)@ <= final(state)@ <= old(state)@ + aliases_needed(predicate@),
{
    // Fetch the filter expression and the relevant joins.
    let (filter_expression, joins) = match translate_expression_with_joins(
        env,
        state,
        root_and_current_tables,
        predicate,
    ) {
        Ok(translated) => translated,
        Err(error) => {
            return Err(error);
        },
    };
    let mut joins = joins;
    let filter = if joins.len() == 0 {
        // When there are no joins, the expression will suffice.
        filter_expression
    } else {
        // When there are joins, wrap in an EXISTS query.
        let first = joins.remove(0);
        let (select, alias) = first.get_select_and_alias();
        where_exists_select(From::Select { alias, select }, Where(filter_expression))
    };
    Ok(filter)
}

/// Translates a predicate into a condition and the joins that the enclosing
/// select needs for it. No predicate that is translated asks for a join.
pub fn translate_expression_with_joins(
    env: &Env,
    state: &mut State,
    root_and_current_tables: &RootAndCurrentTables,
    predicate: &models::Expression,
) -> (result: Result<(Expression, Vec<Join>), Error>)
    requires
        old(state)@ + aliases_needed(predicate@) <= u64::MAX,
    ensures
        (condition_view(result), final(state)@) == translated_predicate(
            env@,
            root_and_current_tables@,
            old(state)@,
            predicate@,
        ),
        no_joins(result),
        old(state)@ <= final(state)@ <= old(state)@ + aliases_needed(predicate@),
    decreases predicate, 0nat,
{
    match predicate {
        models::Expression::And { expressions } => translate_connective(
            env,
            state,
            root_and_current_tables,
            expressions,
            true,
        ),
        models::Expression::Or { expressions } => translate_connective(
            env,
            state,
            root_and_current_tables,
            expressions,
            false,
        ),
        models::Expression::Not { expression } => {
            match translate_expression_with_joins(env, state, root_and_current_tables, expression) {
                Ok((expr, joins)) => Ok((Expression::Not(Box::new(expr)), joins)),
                Err(error) => Err(error),
            }
        },
        models::Expression::BinaryComparisonOperator { column, operator, value } => {
            translate_binary_comparison(
                env,
                state,
                root_and_current_tables,
                column,
                operator,
                value,
            )
        },
        models::Expression::Exists { in_collection, predicate } => match predicate {
            None => Ok((true_expr(), Vec::new())),
            Some(predicate) => {
                match translate_exists_in_collection(
                    env,
                    state,
                    root_and_current_tables,
                    in_collection,
                    predicate,
                ) {
                    Ok(expression) => Ok((expression, Vec::new())),
                    Err(error) => Err(error),
                }
            },
        },
        models::Expression::UnaryComparisonOperator { column, operator } => match operator {
            models::UnaryComparisonOperator::IsNull => {
                match translate_comparison_target(env, state, root_and_current_tables, column) {
                    Ok((value, joins)) => Ok(
                        (
                            Expression::UnaryOperation {
                                expression: Box::new(value),
                                operator: UnaryOperator::IsNull,
                            },
                            joins,
                        ),
                    ),
                    Err(error) => Err(error),
                }
            },
        },
    }
}

/// Translates a list of predicates and folds their conditions from the left
/// under `AND` or `OR`, starting from `true` or `false`.
fn translate_connective(
    env: &Env,
    state: &mut State,
    root_and_current_tables: &RootAndCurrentTables,
    expressions: &Vec<models::Expression>,
    conjunction: bool,
) -> (result: Result<(Expression, Vec<Join>), Error>)
    requires
        old(state)@ + aliases_needed_by(
            models::predicate_list_view(expressions@),
            expressions@.len(),
        ) <= u64::MAX,
    ensures
        (condition_view(result), final(state)@) == translated_connective(
            env@,
            root_and_current_tables@,
            old(state)@,
            models::predicate_list_view(expressions@),
            expressions@.len(),
            conjunction,
        ),
        no_joins(result),
        old(state)@ <= final(state)@ <= old(state)@ + aliases_needed_by(
            models::predicate_list_view(expressions@),
            expressions@.len(),
        ),
    decreases expressions, 0nat,
{
    let ghost views = models::predicate_list_view(expressions@);
    let mut acc_joins: Vec<Join> = Vec::new();
    let mut acc = if conjunction {
        true_expr()
    } else {
        false_expr()
    };
    let mut index: usize = 0;
    while index < expressions.len()
        invariant
            index <= expressions.len(),
            views == models::predicate_list_view(expressions@),
            acc_joins@.len() == 0,
            old(state)@ + aliases_needed_by(views, views.len()) <= u64::MAX,
            old(state)@ <= state@ <= old(state)@ + aliases_needed_by(views, index as nat),
            translated_connective(
                env@,
                root_and_current_tables@,
                old(state)@,
                views,
                index as nat,
                conjunction,
            ) == (Ok::<ExpressionView, ErrorView>(acc@), state@),
        decreases expressions.len() - index,
    {
        proof {
            lemma_aliases_needed_by_grows(views, (index + 1) as nat, views.len());
        }
        match translate_expression_with_joins(
            env,
            state,
            root_and_current_tables,
            &expressions[index],
        ) {
            Ok((right, right_joins)) => {
                let mut right_joins = right_joins;
                acc_joins.append(&mut right_joins);
                acc =
                if conjunction {
                    Expression::And { left: Box::new(acc), right: Box::new(right) }
                } else {
                    Expression::Or { left: Box::new(acc), right: Box::new(right) }
                };
            },
            Err(error) => {
                proof {
                    lemma_connective_error(
                        env@,
                        root_and_current_tables@,
                        old(state)@,
                        views,
                        (index + 1) as nat,
                        views.len(),
                        conjunction,
                    );
                }
                return Err(error);
            },
        }
        index += 1;
    }
    Ok((acc, acc_joins))
}

/// Translates the comparison of a column with a value.
fn translate_binary_comparison(
    env: &Env,
    state: &mut State,
    root_and_current_tables: &RootAndCurrentTables,
    column: &models::ComparisonTarget,
    operator: &String,
    value: &models::ComparisonValue,
) -> (result: Result<(Expression, Vec<Join>), Error>)
    requires
        old(state)@ + (if value@ is Column {
            1nat
        } else {
            0nat
        }) <= u64::MAX,
    ensures
        (condition_view(result), final(state)@) == binary_comparison(
            env@,
            root_and_current_tables@,
            old(state)@,
            column@,
            operator@,
            value@,
        ),
        no_joins(result),
        old(state)@ <= final(state)@ <= old(state)@ + (if value@ is Column {
            1nat
        } else {
            0nat
        }),
{
    let left_typ = match get_comparison_target_type(env, root_and_current_tables, column) {
        Ok(left_typ) => left_typ,
        Err(error) => {
            return Err(error);
        },
    };
    let op = match env.lookup_comparison_operator(&left_typ, operator) {
        Ok(op) => op,
        Err(error) => {
            return Err(error);
        },
    };
    let mut joins: Vec<Join> = Vec::new();
    let (left, left_joins) = match translate_comparison_target(
        env,
        state,
        root_and_current_tables,
        column,
    ) {
        Ok(translated) => translated,
        Err(error) => {
            return Err(error);
        },
    };
    let mut left_joins = left_joins;
    joins.append(&mut left_joins);
    if op.operator_kind == OperatorKind::In {
        translate_membership(
            env,
            state,
            root_and_current_tables,
            left,
            op.argument_type.clone(),
            value,
            joins,
        )
    } else {
        let (right, right_joins) = match translate_comparison_value(
            env,
            state,
            root_and_current_tables,
            value,
            &Type::ScalarType(op.argument_type.clone()),
        ) {
            Ok(translated) => translated,
            Err(error) => {
                return Err(error);
            },
        };
        let mut right_joins = right_joins;
        joins.append(&mut right_joins);
        if op.is_infix {
            Ok(
                (
                    Expression::BinaryOperation {
                        left: Box::new(left),
                        operator: BinaryOperator(op.operator_name.clone()),
                        right: Box::new(right),
                    },
                    joins,
                ),
            )
        } else {
            let ghost left_view = left@;
            let ghost right_view = right@;
            let mut args: Vec<Expression> = Vec::new();
            args.push(left);
            args.push(right);
            assert(expression_list_view(args@) =~= seq![left_view, right_view]);
            Ok(
                (
                    Expression::FunctionCall {
                        function: Function::Unknown(op.operator_name.clone()),
                        args,
                    },
                    joins,
                ),
            )
        }
    }
}

/// Translates a membership test whose left-hand side is translated
/// already.
fn translate_membership(
    env: &Env,
    state: &mut State,
    root_and_current_tables: &RootAndCurrentTables,
    left: Expression,
    argument_type: String,
    value: &models::ComparisonValue,
    joins: Vec<Join>,
) -> (result: Result<(Expression, Vec<Join>), Error>)
    requires
        joins@.len() == 0,
        old(state)@ + (if value@ is Column {
            1nat
        } else {
            0nat
        }) <= u64::MAX,
    ensures
        (condition_view(result), final(state)@) == membership(
            env@,
            root_and_current_tables@,
            old(state)@,
            left@,
            argument_type@,
            value@,
        ),
        no_joins(result),
        old(state)@ <= final(state)@ <= old(state)@ + (if value@ is Column {
            1nat
        } else {
            0nat
        }),
{
    let mut joins = joins;
    match value {
        models::ComparisonValue::Column { column } => {
            let (right, right_joins) = match translate_comparison_target(
                env,
                state,
                root_and_current_tables,
                column,
            ) {
                Ok(translated) => translated,
                Err(error) => {
                    return Err(error);
                },
            };
            let mut right_joins = right_joins;
            joins.append(&mut right_joins);
            let subquery = make_unnest_subquery(state, right);
            let mut right: Vec<Expression> = Vec::new();
            right.push(subquery);
            assert(expression_list_view(right@) =~= seq![subquery@]);
            Ok(
                (
                    Expression::BinaryArrayOperation {
                        left: Box::new(left),
                        operator: BinaryArrayOperator::In,
                        right,
                    },
                    joins,
                ),
            )
        },
        models::ComparisonValue::Scalar { value: json_value } => match json_value {
            JsonValue::Array(values) => {
                // The expression on the left is definitely not IN an empty list of values
                if values.len() == 0 {
                    assert(json_list_view(values@).len() == 0);
                    Ok((false_expr(), joins))
                } else {
                    assert(json_list_view(values@).len() == values@.len());
                    let expected = Type::ScalarType(argument_type);
                    match translate_json_values(env, state, values, &expected) {
                        Ok(right) => Ok(
                            (
                                Expression::BinaryArrayOperation {
                                    left: Box::new(left),
                                    operator: BinaryArrayOperator::In,
                                    right,
                                },
                                joins,
                            ),
                        ),
                        Err(error) => Err(error),
                    }
                }
            },
            _ => Err(Error::TypeMismatch(json_value.clone(), argument_type)),
        },
        models::ComparisonValue::Variable { .. } => Err(
            Error::CapabilityNotSupported(UnsupportedCapabilities::Variables),
        ),
    }
}

/// Translates a comparison target into a reference to the column of the
/// root table, inside the accessors of its nested fields.
fn translate_comparison_target(
    env: &Env,
    _state: &mut State,
    root_and_current_tables: &RootAndCurrentTables,
    column: &models::ComparisonTarget,
) -> (result: Result<(Expression, Vec<Join>), Error>)
    ensures
        condition_view(result) == comparison_target(env@, root_and_current_tables@, column@),
        no_joins(result),
        final(_state)@ == old(_state)@,
{
    let (name, field_path) = match column {
        models::ComparisonTarget::Column { name, path, field_path } => {
            if path.len() > 0 {
                return Err(Error::CapabilityNotSupported(UnsupportedCapabilities::Relationships));
            }
            (name, field_path)
        },
        // Compare a column from the root table.
        models::ComparisonTarget::RootCollectionColumn { name, field_path } => (name, field_path),
    };
    let root_table = &root_and_current_tables.root_table;
    // get the unrelated table information from the metadata.
    let collection_info = match env.lookup_collection(&root_table.name) {
        Ok(collection_info) => collection_info,
        Err(error) => {
            return Err(error);
        },
    };
    // find the requested column in the tables columns.
    let column_info = match collection_info.lookup_column(name) {
        Ok(column_info) => column_info,
        Err(error) => {
            return Err(error);
        },
    };
    let reference = Expression::ColumnReference(
        ColumnReference::TableColumn {
            table: root_table.reference.clone(),
            name: column_info.name,
        },
    );
    Ok((wrap_in_field_path(&FieldPath::from(field_path), reference), Vec::new()))
}

/// Translates a comparison value that is to have the given type.
fn translate_comparison_value(
    env: &Env,
    state: &mut State,
    root_and_current_tables: &RootAndCurrentTables,
    value: &models::ComparisonValue,
    typ: &Type,
) -> (result: Result<(Expression, Vec<Join>), Error>)
    ensures
        condition_view(result) == comparison_value(
            env@,
            root_and_current_tables@,
            value@,
            typ@,
        ),
        no_joins(result),
        final(state)@ == old(state)@,
{
    match value {
        models::ComparisonValue::Column { column } => translate_comparison_target(
            env,
            state,
            root_and_current_tables,
            column,
        ),
        models::ComparisonValue::Scalar { value: json_value } => {
            match translate_json_value(env, state, json_value, typ) {
                Ok(expression) => Ok((expression, Vec::new())),
                Err(error) => Err(error),
            }
        },
        models::ComparisonValue::Variable { name: _ } => Err(
            Error::CapabilityNotSupported(UnsupportedCapabilities::Variables),
        ),
    }
}

/// Translates `EXISTS` in a collection into a subquery of the form
/// `EXISTS (SELECT 1 FROM <table> WHERE <predicate>)`.
pub fn translate_exists_in_collection(
    env: &Env,
    state: &mut State,
    root_and_current_tables: &RootAndCurrentTables,
    in_collection: &models::ExistsInCollection,
    predicate: &models::Expression,
) -> (result: Result<Expression, Error>)
    requires
        old(state)@ + 1 + aliases_needed(predicate@) <= u64::MAX,
    ensures
        (result_view(result), final(state)@) == translated_exists(
            env@,
            root_and_current_tables@,
            old(state)@,
            in_collection@,
            predicate@,
        ),
        old(state)@ <= final(state)@ <= old(state)@ + 1 + aliases_needed(predicate@),
    decreases predicate, 1nat,
{
    match in_collection {
        models::ExistsInCollection::Unrelated { collection, arguments: _ } => {
            // create a from clause and get a reference of inner query.
            let (table, from_clause) = match make_from_clause_and_reference(
                collection,
                None,
                env,
                state,
                None,
            ) {
                Ok(source) => source,
                Err(error) => {
                    return Err(error);
                },
            };
            // An empty select list is not accepted everywhere, so the
            // subquery selects the literal 1.
            let column_alias = make_column_alias(String::from_str("one"));
            let one = Expression::Value(Value::Int8(1));
            assert(one@ == ExpressionView::Value(ValueView::Int8(1)));
            let mut select_cols: Vec<(ColumnAlias, Expression)> = Vec::new();
            select_cols.push((column_alias, one));
            assert(aliased_expressions_view(select_cols@) =~= seq![("one"@, one@)]);
            // build a SELECT querying this table with the relevant predicate.
            let mut select = simple_select(select_cols);
            select.from = Some(from_clause);
            let new_root_and_current_tables = RootAndCurrentTables {
                root_table: root_and_current_tables.root_table.clone(),
                current_table: TableNameAndReference {
                    reference: table.reference,
                    name: table.name,
                },
            };
            let (expr, _expr_joins) = match translate_expression_with_joins(
                env,
                state,
                &new_root_and_current_tables,
                predicate,
            ) {
                Ok(translated) => translated,
                Err(error) => {
                    return Err(error);
                },
            };
            select.where_ = Where(expr);
            assert(select@ == exists_select(from_clause@, expr@));
            Ok(Expression::Exists { select: Box::new(select) })
        },
        models::ExistsInCollection::Related { relationship: _, arguments: _ } => Err(
            Error::CapabilityNotSupported(UnsupportedCapabilities::RelatedExists),
        ),
        models::ExistsInCollection::NestedCollection {
            column_name: _,
            arguments: _,
            field_path: _,
        } => Err(Error::CapabilityNotSupported(UnsupportedCapabilities::NestedCollectionExists)),
    }
}

/// The scalar type of a comparison target.
fn get_comparison_target_type(
    env: &Env,
    root_and_current_tables: &RootAndCurrentTables,
    column: &models::ComparisonTarget,
) -> (result: Result<String, Error>)
    ensures
        result_view(result) == comparison_target_type(env@, root_and_current_tables@, column@),
{
    let (table, name, field_path) = match column {
        models::ComparisonTarget::RootCollectionColumn { name, field_path } => (
            &root_and_current_tables.root_table,
            name,
            field_path,
        ),
        models::ComparisonTarget::Column { name, path, field_path } => {
            if path.len() > 0 {
                return Err(Error::CapabilityNotSupported(UnsupportedCapabilities::Relationships));
            }
            (&root_and_current_tables.current_table, name, field_path)
        },
    };
    let collection = match env.lookup_collection(&table.name) {
        Ok(collection) => collection,
        Err(error) => {
            return Err(error);
        },
    };
    let column = match collection.lookup_column(name) {
        Ok(column) => column,
        Err(error) => {
            return Err(error);
        },
    };
    get_column_scalar_type_name(&column.type_, &FieldPath::from(field_path))
}

/// The scalar type of a column at the end of a path of nested fields.
fn get_column_scalar_type_name(typ: &Type, field_path: &FieldPath) -> (result: Result<String, Error>)
    ensures
        result_view(result) == column_scalar_type_name(typ@, field_path@),
{
    match typ {
        Type::ScalarType(scalar_type) => if field_path.0.len() == 0 {
            Ok(scalar_type.clone())
        } else {
            Err(
                Error::ColumnNotFoundInCollection(field_path.0[0].clone(), scalar_type.clone()),
            )
        },
        Type::ArrayType(_) => Err(Error::NonScalarTypeUsedInOperator { type_: typ.clone() }),
    }
}

/// Makes the subquery that selects the elements of an array-valued
/// expression, under a fresh alias.
fn make_unnest_subquery(state: &mut State, expression: Expression) -> (subquery: Expression)
    requires
        old(state)@ < u64::MAX,
    ensures
        subquery@ == unnest_subquery(old(state)@, expression@),
        final(state)@ == old(state)@ + 1,
{
    let subquery_alias = state.make_table_alias(String::from_str("in_subquery"));
    let subquery_reference = TableReference::AliasedTable(subquery_alias.clone());
    let subquery_from = From::Unnest {
        expression,
        column: make_column_alias(String::from_str("value")),
        alias: subquery_alias,
    };
    let column = make_column(
        subquery_reference,
        ColumnName(String::from_str("value")),
        make_column_alias(String::from_str("value")),
    );
    let mut columns: Vec<(ColumnAlias, Expression)> = Vec::new();
    columns.push(column);
    assert(aliased_expressions_view(columns@) =~= seq![(column.0@, column.1@)]);
    let mut subquery = simple_select(columns);
    subquery.from = Some(subquery_from);
    assert(subquery_from@ == (FromView::Unnest {
        expression: expression@,
        column: "value"@,
        alias: subquery_alias@,
    }));
    assert(subquery@ == (SelectView {
        from: Some(subquery_from@),
        ..simple_select_view(SelectListView::SelectList(seq![(column.0@, column.1@)]))
    }));
    Expression::CorrelatedSubSelect(Box::new(subquery))
}

/// A membership test against an empty literal array is `false`, whatever
/// stands on its left, and draws no alias.
pub proof fn lemma_in_empty_array_is_false(
    metadata: MetadataView,
    tables: RootAndCurrentTablesView,
    index: nat,
    left: ExpressionView,
    argument_type: Seq<char>,
)
    ensures
        membership(
            metadata,
            tables,
            index,
            left,
            argument_type,
            ComparisonValueView::Scalar { value: JsonValueView::Array(Seq::empty()) },
        ) == (Ok::<ExpressionView, ErrorView>(false_expression()), index),
{
}

/// A comparison by a membership operator with an empty literal array is
/// `false` wherever its left-hand side can be translated.
pub proof fn lemma_comparison_in_empty_array_is_false(
    metadata: MetadataView,
    tables: RootAndCurrentTablesView,
    index: nat,
    column: ComparisonTargetView,
    operator: Seq<char>,
)
    requires
        comparison_target_type(metadata, tables, column) is Ok,
        comparison_operator_of(
            metadata,
            comparison_target_type(metadata, tables, column)->Ok_0,
            operator,
        ) is Ok,
        comparison_operator_of(
            metadata,
            comparison_target_type(metadata, tables, column)->Ok_0,
            operator,
        )->Ok_0.operator_kind == OperatorKind::In,
        comparison_target(metadata, tables, column) is Ok,
    ensures
        binary_comparison(
            metadata,
            tables,
            index,
            column,
            operator,
            ComparisonValueView::Scalar { value: JsonValueView::Array(Seq::empty()) },
        ) == (Ok::<ExpressionView, ErrorView>(false_expression()), index),
{
}

/// A double negation is translated as it stands: to the double negation of
/// what the predicate under it translates to.
pub proof fn lemma_double_negation_is_kept(
    metadata: MetadataView,
    tables: RootAndCurrentTablesView,
    index: nat,
    predicate: PredicateView,
)
    ensures
        ({
            let inner = translated_predicate(metadata, tables, index, predicate);
            let twice = translated_predicate(
                metadata,
                tables,
                index,
                PredicateView::Not {
                    expression: Box::new(PredicateView::Not { expression: Box::new(predicate) }),
                },
            );
            &&& twice.1 == inner.1
            &&& inner.0 is Err ==> twice.0 == inner.0
            &&& inner.0 is Ok ==> twice.0 == Ok::<ExpressionView, ErrorView>(
                ExpressionView::Not(Box::new(ExpressionView::Not(Box::new(inner.0->Ok_0)))),
            )
        }),
{
    let once = PredicateView::Not { expression: Box::new(predicate) };
    let inner = translated_predicate(metadata, tables, index, predicate);
    assert(translated_predicate(metadata, tables, index, once) == (
        match inner.0 {
            Ok(condition) => Ok(ExpressionView::Not(Box::new(condition))),
            Err(error) => Err(error),
        },
        inner.1,
    ));
}

/// An empty conjunction translates to `true`, which renders as no `WHERE`
/// clause: the same as a query without a predicate. An empty disjunction
/// translates to `false`.
pub proof fn lemma_empty_connectives(
    metadata: MetadataView,
    tables: RootAndCurrentTablesView,
    index: nat,
    out: crate::sql::string::SQLView,
)
    ensures
        translated_predicate(metadata, tables, index, PredicateView::And { expressions: Seq::empty() })
            == (Ok::<ExpressionView, ErrorView>(true_expression()), index),
        translated_predicate(metadata, tables, index, PredicateView::Or { expressions: Seq::empty() })
            == (Ok::<ExpressionView, ErrorView>(false_expression()), index),
        out.with_where(
            translated_predicate(
                metadata,
                tables,
                index,
                PredicateView::And { expressions: Seq::empty() },
            ).0->Ok_0,
        ) == out,
{
    let none = Seq::<PredicateView>::empty();
    assert(translated_connective(metadata, tables, index, none, 0, true) == (
        Ok::<ExpressionView, ErrorView>(true_expression()),
        index,
    ));
    assert(translated_connective(metadata, tables, index, none, 0, false) == (
        Ok::<ExpressionView, ErrorView>(false_expression()),
        index,
    ));
}

/// Counts the table aliases that the translation of a predicate draws at
/// most; nothing where they are more than a counter of 64 bits can hold.
pub fn count_aliases(predicate: &models::Expression) -> (count: Option<u64>)
    ensures
        match count {
            Some(count) => count == aliases_needed(predicate@),
            None => aliases_needed(predicate@) > u64::MAX,
        },
    decreases predicate, 0nat,
{
    match predicate {
        models::Expression::And { expressions } => count_aliases_of(expressions),
        models::Expression::Or { expressions } => count_aliases_of(expressions),
        models::Expression::Not { expression } => count_aliases(expression),
        models::Expression::UnaryComparisonOperator { .. } => Some(0),
        models::Expression::BinaryComparisonOperator { column: _, operator: _, value } => match value {
            models::ComparisonValue::Column { .. } => Some(1),
            _ => Some(0),
        },
        models::Expression::Exists { in_collection: _, predicate } => match predicate {
            None => Some(0),
            Some(inner) => match count_aliases(inner) {
                Some(count) => count.checked_add(1),
                None => None,
            },
        },
    }
}

/// Counts the table aliases that the translations of a list of predicates
/// draw at most.
fn count_aliases_of(predicates: &Vec<models::Expression>) -> (count: Option<u64>)
    ensures
        match count {
            Some(count) => count == aliases_needed_by(
                models::predicate_list_view(predicates@),
                predicates@.len(),
            ),
            None => aliases_needed_by(models::predicate_list_view(predicates@), predicates@.len())
                > u64::MAX,
        },
    decreases predicates, 0nat,
{
    let ghost views = models::predicate_list_view(predicates@);
    let mut total: u64 = 0;
    let mut index: usize = 0;
    while index < predicates.len()
        invariant
            index <= predicates.len(),
            views == models::predicate_list_view(predicates@),
            total == aliases_needed_by(views, index as nat),
        decreases predicates.len() - index,
    {
        proof {
            lemma_aliases_needed_by_grows(views, (index + 1) as nat, views.len());
        }
        let next = match count_aliases(&predicates[index]) {
            Some(next) => next,
            None => {
                return None;
            },
        };
        total = match total.checked_add(next) {
            Some(total) => total,
            None => {
                return None;
            },
        };
        index += 1;
    }
    Some(total)
}

} // verus!
