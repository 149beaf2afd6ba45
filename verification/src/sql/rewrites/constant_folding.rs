//! Folding of the boolean constants that translation leaves in conditions.

use crate::sql::ast::{Expression, From, Select, Value, Where};
use crate::sql::model::{ExpressionView, FromView, SelectView};
use crate::sql::render::{false_expression, true_expression};
use vstd::prelude::*;

verus! {

/// A conjunction of two conditions with its constants folded: `false`
/// where either is `false`, the other one where one is `true`.
pub open spec fn folded_and(left: ExpressionView, right: ExpressionView) -> ExpressionView {
    if left == false_expression() || right == false_expression() {
        false_expression()
    } else if left == true_expression() {
        right
    } else if right == true_expression() {
        left
    } else {
        ExpressionView::And { left: Box::new(left), right: Box::new(right) }
    }
}

/// A disjunction of two conditions with its constants folded: `true` where
/// either is `true`, the other one where one is `false`.
pub open spec fn folded_or(left: ExpressionView, right: ExpressionView) -> ExpressionView {
    if left == true_expression() || right == true_expression() {
        true_expression()
    } else if left == false_expression() {
        right
    } else if right == false_expression() {
        left
    } else {
        ExpressionView::Or { left: Box::new(left), right: Box::new(right) }
    }
}

/// An expression with the constants of its conjunctions and disjunctions
/// folded, also under negations and casts and in the conditions of its
/// subqueries. A negation is never folded.
pub open spec fn normalized_expression(expression: ExpressionView) -> ExpressionView
    decreases expression,
{
    match expression {
        ExpressionView::And { left, right } => folded_and(
            normalized_expression(*left),
            normalized_expression(*right),
        ),
        ExpressionView::Or { left, right } => folded_or(
            normalized_expression(*left),
            normalized_expression(*right),
        ),
        ExpressionView::Not(inner) => ExpressionView::Not(Box::new(normalized_expression(*inner))),
        ExpressionView::Cast { expression, type_ } => ExpressionView::Cast {
            expression: Box::new(normalized_expression(*expression)),
            type_,
        },
        ExpressionView::Exists { select } => ExpressionView::Exists {
            select: Box::new(normalized_select(*select)),
        },
        ExpressionView::CorrelatedSubSelect(select) => ExpressionView::CorrelatedSubSelect(
            Box::new(normalized_select(*select)),
        ),
        other => other,
    }
}

/// A `FROM` clause with the condition of its subquery normalized.
pub open spec fn normalized_from(from: FromView) -> FromView
    decreases from,
{
    match from {
        FromView::Select { select, alias } => FromView::Select {
            select: Box::new(normalized_select(*select)),
            alias,
        },
        other => other,
    }
}

/// A select with its condition normalized, and that of a subquery that it
/// selects from.
pub open spec fn normalized_select(select: SelectView) -> SelectView
    decreases select,
{
    SelectView {
        from: match select.from {
            Some(from) => Some(normalized_from(from)),
            None => None,
        },
        where_: normalized_expression(select.where_),
        ..select
    }
}

/// Whether an expression is the literal `false`.
fn is_false(expression: &Expression) -> (b: bool)
    ensures
        b == (expression@ == false_expression()),
{
    match expression {
        Expression::Value(Value::Bool(false)) => true,
        _ => false,
    }
}

/// Folds the constants of the conjunctions and disjunctions of an
/// expression.
pub fn normalize_expr(expr: Expression) -> (normalized: Expression)
    ensures
        normalized@ == normalized_expression(expr@),
    decreases expr,
{
    match expr {
        Expression::And { left, right } => {
            let left = normalize_expr(*left);
            let right = normalize_expr(*right);
            if is_false(&left) || is_false(&right) {
                Expression::Value(Value::Bool(false))
            } else if left.is_true() {
                right
            } else if right.is_true() {
                left
            } else {
                Expression::And { left: Box::new(left), right: Box::new(right) }
            }
        },
        Expression::Or { left, right } => {
            let left = normalize_expr(*left);
            let right = normalize_expr(*right);
            if left.is_true() || right.is_true() {
                Expression::Value(Value::Bool(true))
            } else if is_false(&left) {
                right
            } else if is_false(&right) {
                left
            } else {
                Expression::Or { left: Box::new(left), right: Box::new(right) }
            }
        },
        Expression::Not(inner) => Expression::Not(Box::new(normalize_expr(*inner))),
        Expression::Cast { expression, type_ } => Expression::Cast {
            expression: Box::new(normalize_expr(*expression)),
            type_,
        },
        Expression::Exists { select } => Expression::Exists {
            select: Box::new(normalize_select(*select)),
        },
        Expression::CorrelatedSubSelect(select) => Expression::CorrelatedSubSelect(
            Box::new(normalize_select(*select)),
        ),
        other => other,
    }
}

/// Normalizes the subquery of a `FROM` clause.
fn normalize_from(from: From) -> (normalized: From)
    ensures
        normalized@ == normalized_from(from@),
    decreases from,
{
    match from {
        From::Select { select, alias } => From::Select {
            select: Box::new(normalize_select(*select)),
            alias,
        },
        other => other,
    }
}

/// Normalizes the condition of a select and of a subquery that it selects
/// from.
pub fn normalize_select(select: Select) -> (normalized: Select)
    ensures
        normalized@ == normalized_select(select@),
    decreases select,
{
    let Select { with, select_list, from, where_, order_by } = select;
    let from = match from {
        Some(from) => Some(normalize_from(from)),
        None => None,
    };
    let Where(condition) = where_;
    Select { with, select_list, from, where_: Where(normalize_expr(condition)), order_by }
}

/// Normalization folds no negation: a double negation keeps both.
pub proof fn lemma_double_negation_is_not_folded(expression: ExpressionView)
    ensures
        normalized_expression(
            ExpressionView::Not(Box::new(ExpressionView::Not(Box::new(expression)))),
        ) == ExpressionView::Not(
            Box::new(ExpressionView::Not(Box::new(normalized_expression(expression)))),
        ),
{
    let single = ExpressionView::Not(Box::new(expression));
    assert(normalized_expression(single) == ExpressionView::Not(
        Box::new(normalized_expression(expression)),
    ));
}

/// Normalizing twice is normalizing once.
pub proof fn lemma_normalization_is_idempotent(expression: ExpressionView)
    ensures
        normalized_expression(normalized_expression(expression)) == normalized_expression(
            expression,
        ),
    decreases expression,
{
    match expression {
        ExpressionView::And { left, right } => {
            lemma_normalization_is_idempotent(*left);
            lemma_normalization_is_idempotent(*right);
        },
        ExpressionView::Or { left, right } => {
            lemma_normalization_is_idempotent(*left);
            lemma_normalization_is_idempotent(*right);
        },
        ExpressionView::Not(inner) => {
            lemma_normalization_is_idempotent(*inner);
        },
        ExpressionView::Cast { expression, type_ } => {
            lemma_normalization_is_idempotent(*expression);
        },
        ExpressionView::Exists { select } => {
            lemma_select_normalization_is_idempotent(*select);
        },
        ExpressionView::CorrelatedSubSelect(select) => {
            lemma_select_normalization_is_idempotent(*select);
        },
        _ => {},
    }
}

/// Normalizing a select twice is normalizing it once.
pub proof fn lemma_select_normalization_is_idempotent(select: SelectView)
    ensures
        normalized_select(normalized_select(select)) == normalized_select(select),
    decreases select,
{
    lemma_normalization_is_idempotent(select.where_);
    match select.from {
        Some(FromView::Select { select: inner, alias }) => {
            lemma_select_normalization_is_idempotent(*inner);
        },
        _ => {},
    }
}

/// A normalized conjunction or disjunction has no boolean constant for an
/// operand.
pub proof fn lemma_no_constant_operands(expression: ExpressionView)
    ensures
        match normalized_expression(expression) {
            ExpressionView::And { left, right } => *left != true_expression() && *left
                != false_expression() && *right != true_expression() && *right
                != false_expression(),
            ExpressionView::Or { left, right } => *left != true_expression() && *left
                != false_expression() && *right != true_expression() && *right
                != false_expression(),
            _ => true,
        },
    decreases expression,
{
    match expression {
        ExpressionView::And { left, right } => {
            lemma_no_constant_operands(*left);
            lemma_no_constant_operands(*right);
        },
        ExpressionView::Or { left, right } => {
            lemma_no_constant_operands(*left);
            lemma_no_constant_operands(*right);
        },
        _ => {},
    }
}

} // verus!
