//! The plan by which a query is run.

use crate::json::JsonValue;
use crate::sql::ast::{Explain, Select};
use crate::sql::model::SelectView;
use crate::sql::string::{SQLView, Statement, SQL};
use vstd::prelude::*;

verus! {

/// What is run against the database: statements before the query, the
/// query, and statements after it.
#[derive(Debug)]
pub struct ExecutionPlan<Q> {
    /// Run before the query.
    pub pre: Vec<Statement>,
    /// The query.
    pub query: Q,
    /// Run after the query.
    pub post: Vec<Statement>,
}

/// The query that is run, with what is known of the request.
#[derive(Debug)]
pub struct Query {
    /// The name of the collection that the request asked for.
    pub root_field: String,
    /// Sets of variables for which the query is run once each.
    pub variables: Option<Vec<Vec<(String, JsonValue)>>>,
    /// The query.
    pub query: Select,
    /// How many rows are returned at most.
    pub limit: Option<u32>,
}

pub struct QueryPlanView {
    pub root_field: Seq<char>,
    pub has_variables: bool,
    pub query: SelectView,
    pub limit: Option<u32>,
}

impl View for Query {
    type V = QueryPlanView;

    open spec fn view(&self) -> QueryPlanView {
        QueryPlanView {
            root_field: self.root_field@,
            has_variables: self.variables is Some,
            query: self.query@,
            limit: self.limit,
        }
    }
}

impl View for ExecutionPlan<Query> {
    type V = QueryPlanView;

    /// The query of the plan. The plans that are made have no statement
    /// before or after the query.
    open spec fn view(&self) -> QueryPlanView {
        self.query@
    }
}

impl Query {
    /// The statement of the query.
    pub fn query_sql(&self) -> (sql: SQL)
        ensures
            sql@ == SQLView::empty().with_select(self@.query),
    {
        select_to_sql(&self.query)
    }

    /// The statement that asks for the plan of the query.
    pub fn explain_query_sql(&self) -> (sql: SQL)
        ensures
            sql@ == SQLView::empty().with_explain(self@.query),
    {
        explain_to_sql(&Explain::Select(&self.query))
    }
}

/// Renders a select by itself.
pub fn select_to_sql(select: &Select) -> (sql: SQL)
    ensures
        sql@ == SQLView::empty().with_select(select@),
{
    let mut sql = SQL::new();
    select.to_sql(&mut sql);
    sql
}

/// Renders a request for the plan of a statement by itself.
pub fn explain_to_sql(explain: &Explain) -> (sql: SQL)
    ensures
        sql@ == SQLView::empty().with_explain(
            match explain {
                Explain::Select(select) => select@,
            },
        ),
{
    let mut sql = SQL::new();
    explain.to_sql(&mut sql);
    sql
}

/// A plan that holds a query and nothing to run before or after it.
pub fn simple_query_execution_plan(
    variables: Option<Vec<Vec<(String, JsonValue)>>>,
    root_field: String,
    query: Select,
    limit: Option<u32>,
) -> (plan: ExecutionPlan<Query>)
    ensures
        plan.pre@.len() == 0,
        plan.post@.len() == 0,
        plan@ == (QueryPlanView {
            root_field: root_field@,
            has_variables: variables is Some,
            query: query@,
            limit,
        }),
{
    ExecutionPlan {
        pre: Vec::new(),
        query: Query { root_field, variables, query, limit },
        post: Vec::new(),
    }
}

} // verus!
