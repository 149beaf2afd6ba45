//! Translation of the root of a query: its source, and the statement that
//! its fields, its predicate and its ordering make up.

use crate::metadata::MetadataView;
use crate::models;
use crate::models::{Argument, OrderByElementView, PredicateView, QueryView};
use crate::sql::ast::{
    From, Gsi, ReturnsFields, Select, SelectList, TableAlias, TableName, TableReference, Where,
};
use crate::sql::helpers::{empty_order_by, empty_where, empty_with, simple_select_view, true_expr, SelectSet};
use crate::sql::model::{ExpressionView, FromView, SelectListView, SelectView, TableReferenceView};
use crate::sql::render::true_expression;
use crate::translation::error::{Error, ErrorView, UnsupportedCapabilities};
use crate::translation::helpers::{
    alias_at, collection_of, CollectionInfo, Env, RootAndCurrentTables,
    RootAndCurrentTablesView, State, TableNameAndReference, TableNameAndReferenceView,
};
use crate::translation::query::fields::{fields_select, translate_fields};
use crate::translation::query::filtering::{
    aliases_needed, translate_expression, translated_predicate,
};
use crate::translation::query::sorting::{order_by_outcome, order_by_view, translate_order_by};
use vstd::prelude::*;

verus! {

/// What a `FROM` clause is made from.
#[derive(Debug)]
pub enum MakeFrom {
    /// A collection, optionally through one of its secondary indexes.
    Collection { name: String, gsi: Option<Gsi>, arguments: Vec<(String, Argument)> },
    /// A table that the statement addresses already.
    TableReference { name: String, reference: TableReference },
}

pub enum MakeFromView {
    Collection { name: Seq<char>, gsi: Option<Seq<char>> },
    TableReference { name: Seq<char>, reference: TableReferenceView },
}

impl View for MakeFrom {
    type V = MakeFromView;

    open spec fn view(&self) -> MakeFromView {
        match self {
            MakeFrom::Collection { name, gsi, arguments } => MakeFromView::Collection {
                name: name@,
                gsi: optional_gsi(*gsi),
            },
            MakeFrom::TableReference { name, reference } => MakeFromView::TableReference {
                name: name@,
                reference: reference@,
            },
        }
    }
}

/// The table with which the current table is joined, and the name of the
/// relationship that describes the join.
pub struct JoinPredicate<'a, 'b> {
    pub join_with: &'a TableNameAndReference,
    pub relationship: &'b String,
}

/// The model of an optional secondary index.
pub open spec fn optional_gsi(gsi: Option<Gsi>) -> Option<Seq<char>> {
    match gsi {
        Some(gsi) => Some(gsi@),
        None => None,
    }
}

/// The table of a collection under the alias drawn at `index`, and the
/// `FROM` clause that reads the collection's table, optionally through a
/// secondary index.
pub open spec fn from_clause_and_reference(
    metadata: MetadataView,
    index: nat,
    collection_name: Seq<char>,
    gsi: Option<Seq<char>>,
) -> Result<(TableNameAndReferenceView, FromView), ErrorView> {
    let alias = alias_at(index, collection_name);
    match collection_of(metadata, collection_name) {
        Err(error) => Err(error),
        Ok(collection) => Ok(
            (
                TableNameAndReferenceView {
                    name: collection_name,
                    reference: TableReferenceView::AliasedTable(alias),
                },
                FromView::Table {
                    reference: TableReferenceView::DBTable {
                        table: collection.info.table_name,
                        gsi,
                    },
                    alias,
                },
            ),
        ),
    }
}

/// The table and the `FROM` clause that a source makes, with the alias drawn
/// at `index`.
pub open spec fn reference_and_from_clause(
    metadata: MetadataView,
    index: nat,
    make_from: MakeFromView,
) -> Result<(TableNameAndReferenceView, FromView), ErrorView> {
    match make_from {
        MakeFromView::Collection { name, gsi } => from_clause_and_reference(
            metadata,
            index,
            name,
            gsi,
        ),
        MakeFromView::TableReference { name, reference } => Ok(
            (
                TableNameAndReferenceView {
                    name,
                    reference: TableReferenceView::AliasedTable(alias_at(index, name)),
                },
                FromView::Table { reference, alias: alias_at(index, name) },
            ),
        ),
    }
}

/// The view of a table and a `FROM` clause, or of an error.
pub open spec fn table_and_from_view(result: Result<(TableNameAndReference, From), Error>) -> Result<
    (TableNameAndReferenceView, FromView),
    ErrorView,
> {
    match result {
        Ok(pair) => Ok((pair.0@, pair.1@)),
        Err(error) => Err(error@),
    }
}

/// Makes the `FROM` clause that reads a collection, and the reference by
/// which the rest of the statement addresses it. An alias is drawn for the
/// collection before it is looked up. An alias that is handed in is not
/// supported: it gives an error, and no alias is drawn.
pub fn make_from_clause_and_reference(
    collection_name: &String,
    gsi_name: Option<Gsi>,
    env: &Env,
    state: &mut State,
    collection_alias: Option<TableAlias>,
) -> (result: Result<(TableNameAndReference, From), Error>)
    requires
        collection_alias is None ==> old(state)@ < u64::MAX,
    ensures
        collection_alias is Some ==> table_and_from_view(result) == Err::<
            (TableNameAndReferenceView, FromView),
            ErrorView,
        >(ErrorView::CapabilityNotSupported(UnsupportedCapabilities::CollectionAliases))
            && final(state)@ == old(state)@,
        collection_alias is None ==> table_and_from_view(result) == from_clause_and_reference(
            env@,
            old(state)@,
            collection_name@,
            optional_gsi(gsi_name),
        ) && final(state)@ == old(state)@ + 1,
{
    let collection_alias = match collection_alias {
        None => state.make_table_alias(collection_name.clone()),
        Some(_alias) => {
            return Err(Error::CapabilityNotSupported(UnsupportedCapabilities::CollectionAliases));
        },
    };
    // find the table according to the metadata.
    let collection_info = match env.lookup_collection(collection_name) {
        Ok(collection_info) => collection_info,
        Err(error) => {
            return Err(error);
        },
    };
    let from_clause = make_from_clause(state, &collection_alias, &collection_info, gsi_name);
    let collection_alias_name = TableReference::AliasedTable(collection_alias);
    let current_table = TableNameAndReference {
        name: collection_name.clone(),
        reference: collection_alias_name,
    };
    Ok((current_table, from_clause))
}

/// The `FROM` clause that reads the table of a collection.
fn make_from_clause(
    _state: &mut State,
    current_table_alias: &TableAlias,
    collection_info: &CollectionInfo,
    gsi_name: Option<Gsi>,
) -> (from: From)
    ensures
        from@ == (FromView::Table {
            reference: TableReferenceView::DBTable {
                table: collection_info@.info.table_name,
                gsi: optional_gsi(gsi_name),
            },
            alias: current_table_alias@,
        }),
        final(_state)@ == old(_state)@,
{
    match collection_info {
        CollectionInfo::Table { info, .. } => {
            let db_table = TableReference::DBTable {
                table: TableName(info.table_name.clone()),
                gsi: gsi_name,
            };
            From::Table { reference: db_table, alias: current_table_alias.clone() }
        },
    }
}

/// A copy of an optional secondary index.
pub fn copy_gsi(gsi: &Option<Gsi>) -> (copy: Option<Gsi>)
    ensures
        optional_gsi(copy) == optional_gsi(*gsi),
{
    match gsi {
        Some(gsi) => Some(gsi.clone()),
        None => None,
    }
}

/// Makes the `FROM` clause of a source, and the reference by which the rest
/// of the statement addresses it.
pub fn make_reference_and_from_clause(env: &Env, state: &mut State, make_from: &MakeFrom) -> (result:
    Result<(TableNameAndReference, From), Error>)
    requires
        old(state)@ < u64::MAX,
    ensures
        table_and_from_view(result) == reference_and_from_clause(env@, old(state)@, make_from@),
        final(state)@ == old(state)@ + 1,
{
    match make_from {
        MakeFrom::Collection { name, gsi, arguments: _ } => make_from_clause_and_reference(
            name,
            copy_gsi(gsi),
            env,
            state,
            None,
        ),
        MakeFrom::TableReference { name, reference } => {
            let table_alias = state.make_table_alias(name.clone());
            let from_clause = From::Table {
                reference: reference.clone(),
                alias: table_alias.clone(),
            };
            let reference = TableReference::AliasedTable(table_alias);
            Ok((TableNameAndReference { name: name.clone(), reference }, from_clause))
        },
    }
}

// What a query translates to

/// How many table aliases the translation of an optional predicate draws
/// at most.
pub open spec fn aliases_needed_by_filter(predicate: Option<PredicateView>) -> nat {
    match predicate {
        Some(predicate) => aliases_needed(predicate),
        None => 0,
    }
}

/// The condition for an optional predicate when aliases are drawn from
/// `index` on, and the index after it: `true` where there is no predicate.
pub open spec fn translated_filter(
    metadata: MetadataView,
    tables: RootAndCurrentTablesView,
    index: nat,
    predicate: Option<PredicateView>,
) -> (Result<ExpressionView, ErrorView>, nat) {
    match predicate {
        None => (Ok(true_expression()), index),
        Some(predicate) => translated_predicate(metadata, tables, index, predicate),
    }
}

/// The tables of a query whose root is the table that is being processed.
pub open spec fn at_root(table: TableNameAndReferenceView) -> RootAndCurrentTablesView {
    RootAndCurrentTablesView { root_table: table, current_table: table }
}

/// A select with the condition and the ordering of a query, given what the
/// ordering translated to, and the index after the translation. The
/// ordering is translated first, and its error comes back before the
/// predicate is looked at.
pub open spec fn query_part(
    metadata: MetadataView,
    index: nat,
    current_table: TableNameAndReferenceView,
    query: QueryView,
    select: SelectView,
    order: Result<Seq<crate::sql::model::OrderByElementView>, ErrorView>,
) -> (Result<SelectView, ErrorView>, nat) {
    match order {
        Err(error) => (Err(error), index),
        Ok(order_by) => {
            let filter = translated_filter(metadata, at_root(current_table), index, query.predicate);
            match filter.0 {
                Err(error) => (Err(error), filter.1),
                Ok(condition) => (Ok(SelectView { where_: condition, order_by, ..select }), filter.1),
            }
        },
    }
}

/// What holds of the translation of the condition and the ordering of a
/// query: it is what `query_part` says for an outcome of the translation of
/// the ordering.
pub open spec fn query_part_outcome(
    metadata: MetadataView,
    index: nat,
    current_table: TableNameAndReferenceView,
    query: QueryView,
    select: SelectView,
    result: Result<SelectView, ErrorView>,
    next: nat,
) -> bool {
    exists|order: Result<Seq<crate::sql::model::OrderByElementView>, ErrorView>|
        #![trigger query_part(metadata, index, current_table, query, select, order)]
        {
            &&& order_by_outcome(metadata, at_root(current_table), query.order_by, order)
            &&& (result, next) == query_part(metadata, index, current_table, query, select, order)
        }
}

/// The select for the rows of a query before its condition and its
/// ordering are put in: the fields of the query from its source, or the
/// literal `1` where the query asks for no fields.
pub open spec fn selected_rows(
    metadata: MetadataView,
    query: QueryView,
    source: (TableNameAndReferenceView, FromView),
) -> Result<SelectView, ErrorView> {
    if query.fields.len() == 0 {
        Ok(SelectView { from: Some(source.1), ..simple_select_view(SelectListView::Select1) })
    } else {
        fields_select(metadata, query.fields, source.0, source.1)
    }
}

/// What holds of the translation of the rows of a query. An alias is drawn
/// for the source. An error of the source or of the fields comes back as it
/// is; after that, the condition and the ordering are put in.
pub open spec fn rows_outcome(
    metadata: MetadataView,
    index: nat,
    make_from: MakeFromView,
    query: QueryView,
    result: Result<SelectView, ErrorView>,
    next: nat,
) -> bool {
    match reference_and_from_clause(metadata, index, make_from) {
        Err(error) => result == Err::<SelectView, ErrorView>(error) && next == index + 1,
        Ok(source) => match selected_rows(metadata, query, source) {
            Err(error) => result == Err::<SelectView, ErrorView>(error) && next == index + 1,
            Ok(select) => query_part_outcome(
                metadata,
                index + 1,
                source.0,
                query,
                select,
                result,
                next,
            ),
        },
    }
}

/// Whether a query asks for fields.
pub open spec fn returns_fields(query: QueryView) -> ReturnsFields {
    if query.fields.len() == 0 {
        ReturnsFields::NoFieldsWereRequested
    } else {
        ReturnsFields::FieldsWereRequested
    }
}

/// Translates what rows and aggregates have in common: the condition that
/// the predicate gives and the ordering. The root table and the current
/// table of the query are the same here. On an error the select is left as
/// it was.
pub fn translate_query_part(
    env: &Env,
    state: &mut State,
    current_table: &TableNameAndReference,
    _join_predicate: &Option<JoinPredicate<'_, '_>>,
    query: &models::Query,
    select: &mut Select,
) -> (result: Result<(), Error>)
    requires
        old(state)@ + aliases_needed_by_filter(query@.predicate) <= u64::MAX,
    ensures
        query_part_outcome(
            env@,
            old(state)@,
            current_table@,
            query@,
            old(select)@,
            match result {
                Ok(_) => Ok(final(select)@),
                Err(error) => Err(error@),
            },
            final(state)@,
        ),
        result is Err ==> final(select)@ == old(select)@,
        old(state)@ <= final(state)@ <= old(state)@ + aliases_needed_by_filter(query@.predicate),
{
    // the root table and the current table are the same at this point
    let root_and_current_tables = RootAndCurrentTables {
        root_table: current_table.clone(),
        current_table: current_table.clone(),
    };
    // translate order_by
    let translated = translate_order_by(env, state, &root_and_current_tables, &query.order_by);
    let ghost order = order_by_view(translated);
    let (order_by, _order_by_joins) = match translated {
        Ok(translated) => translated,
        Err(error) => {
            assert((Err::<SelectView, ErrorView>(error@), state@) == query_part(
                env@,
                old(state)@,
                current_table@,
                query@,
                old(select)@,
                order,
            ));
            return Err(error);
        },
    };
    // translate where
    let filter = match &query.predicate {
        None => true_expr(),
        Some(predicate) => {
            match translate_expression(env, state, &root_and_current_tables, predicate) {
                Ok(filter) => filter,
                Err(error) => {
                    assert((Err::<SelectView, ErrorView>(error@), state@) == query_part(
                        env@,
                        old(state)@,
                        current_table@,
                        query@,
                        old(select)@,
                        order,
                    ));
                    return Err(error);
                },
            }
        },
    };
    select.where_ = Where(filter);
    select.order_by = order_by;
    assert((Ok::<SelectView, ErrorView>(select@), state@) == query_part(
        env@,
        old(state)@,
        current_table@,
        query@,
        old(select)@,
        order,
    ));
    Ok(())
}

/// The view of the rows of a query, or of an error.
pub open spec fn rows_view(result: Result<(ReturnsFields, Select), Error>) -> Result<
    SelectView,
    ErrorView,
> {
    match result {
        Ok(pair) => Ok(pair.1@),
        Err(error) => Err(error@),
    }
}

/// Translates the rows of a query into a select.
fn translate_rows_select(
    env: &Env,
    state: &mut State,
    make_from: &MakeFrom,
    join_predicate: &Option<JoinPredicate<'_, '_>>,
    query: &models::Query,
) -> (result: Result<(ReturnsFields, Select), Error>)
    requires
        old(state)@ + 1 + aliases_needed_by_filter(query@.predicate) <= u64::MAX,
    ensures
        rows_outcome(env@, old(state)@, make_from@, query@, rows_view(result), final(state)@),
        result is Ok ==> result->Ok_0.0 == returns_fields(query@),
        old(state)@ <= final(state)@ <= old(state)@ + 1 + aliases_needed_by_filter(
            query@.predicate,
        ),
{
    let (current_table, from_clause) = match make_reference_and_from_clause(env, state, make_from) {
        Ok(source) => source,
        Err(error) => {
            return Err(error);
        },
    };
    // remember whether fields were requested or not.
    let no_fields = match &query.fields {
        Some(fields) => fields.len() == 0,
        None => true,
    };
    let returns_fields = if no_fields {
        ReturnsFields::NoFieldsWereRequested
    } else {
        ReturnsFields::FieldsWereRequested
    };
    // translate fields to select list
    let mut fields_select = match &query.fields {
        Some(fields) if fields.len() > 0 => {
            match translate_fields(env, state, fields, &current_table, from_clause) {
                Ok(select) => select,
                Err(error) => {
                    return Err(error);
                },
            }
        },
        _ => Select {
            with: empty_with(),
            select_list: SelectList::Select1,
            from: Some(from_clause),
            where_: Where(empty_where()),
            order_by: empty_order_by(),
        },
    };
    // Translate the common part of the query - where, order by, limit, etc.
    let result = translate_query_part(
        env,
        state,
        &current_table,
        join_predicate,
        query,
        &mut fields_select,
    );
    match result {
        Ok(_) => Ok((returns_fields, fields_select)),
        Err(error) => Err(error),
    }
}

/// The view of a selection set with its limit, or of an error.
pub open spec fn query_view(result: Result<(Option<u32>, ReturnsFields, SelectSet), Error>) -> Result<
    SelectView,
    ErrorView,
> {
    match result {
        Ok(triple) => Ok(triple.2@),
        Err(error) => Err(error@),
    }
}

/// Translates a query into its selection set, with the limit that the
/// query asks for and whether it asks for fields.
pub fn translate_query(
    env: &Env,
    state: &mut State,
    make_from: &MakeFrom,
    join_predicate: &Option<JoinPredicate<'_, '_>>,
    query_request: &models::Query,
) -> (result: Result<(Option<u32>, ReturnsFields, SelectSet), Error>)
    requires
        old(state)@ + 1 + aliases_needed_by_filter(query_request@.predicate) <= u64::MAX,
    ensures
        rows_outcome(
            env@,
            old(state)@,
            make_from@,
            query_request@,
            query_view(result),
            final(state)@,
        ),
        result is Ok ==> result->Ok_0.0 == query_request@.limit && result->Ok_0.1
            == returns_fields(query_request@),
        old(state)@ <= final(state)@ <= old(state)@ + 1 + aliases_needed_by_filter(
            query_request@.predicate,
        ),
{
    // translate rows selection.
    let (returns_field, row_select) = match translate_rows_select(
        env,
        state,
        make_from,
        join_predicate,
        query_request,
    ) {
        Ok(rows) => rows,
        Err(error) => {
            return Err(error);
        },
    };
    // Create a structure describing the selection set.
    Ok((query_request.limit, returns_field, SelectSet::Rows(row_select)))
}

} // verus!
