//! Translation of a query request: its fields, its predicate and its
//! ordering, and the statement they make up.

pub mod fields;
pub mod path_text;
pub mod filtering;
pub mod root;
pub mod sorting;
pub mod values;

use crate::metadata::{Metadata, MetadataView};
use crate::models::{QueryRequest, QueryRequestView};
use crate::sql::ast::Gsi;
use crate::sql::execution_plan::{simple_query_execution_plan, ExecutionPlan, Query, QueryPlanView};
use crate::sql::helpers::select_rowset;
use crate::sql::model::SelectView;
use crate::sql::rewrites::constant_folding::{normalize_select, normalized_select};
use crate::translation::error::{Error, ErrorView, UnsupportedCapabilities};
use crate::translation::helpers::{Env, State};
use crate::translation::query::root::{
    aliases_needed_by_filter, rows_outcome, translate_query, MakeFrom, MakeFromView,
};
use vstd::prelude::*;
use vstd::string::StrSliceExecFns;

verus! {

/// The position of the first colon at or after `from`, if there is one.
pub open spec fn colon_from(name: Seq<char>, from: int) -> Option<int>
    decreases name.len() - from,
{
    if from < 0 || from >= name.len() {
        None
    } else if name[from] == ':' {
        Some(from)
    } else {
        colon_from(name, from + 1)
    }
}

/// The collection that an identifier names, and the secondary index where
/// the identifier is a name, a colon and the name of an index. More than
/// one colon makes no identifier.
pub open spec fn parsed_collection(name: Seq<char>) -> Result<
    (Seq<char>, Option<Seq<char>>),
    ErrorView,
> {
    match colon_from(name, 0) {
        None => Ok((name, None)),
        Some(colon) => match colon_from(name, colon + 1) {
            Some(_) => Err(ErrorView::InvalidCollectionName(name)),
            None => Ok(
                (name.subrange(0, colon), Some(name.subrange(colon + 1, name.len() as int))),
            ),
        },
    }
}

/// What holds of the translation of a request. Sets of variables are not
/// run. The collection is parsed and becomes the source of the query, whose
/// aliases are drawn from zero on. The select of the rows is normalized,
/// and the plan holds it with the collection as it was asked for and with
/// the limit of the query.
pub open spec fn translation_outcome(
    metadata: MetadataView,
    request: QueryRequestView,
    result: Result<QueryPlanView, ErrorView>,
) -> bool {
    if request.has_variables {
        result == Err::<QueryPlanView, ErrorView>(
            ErrorView::CapabilityNotSupported(UnsupportedCapabilities::VariableSets),
        )
    } else {
        match parsed_collection(request.collection) {
            Err(error) => result == Err::<QueryPlanView, ErrorView>(error),
            Ok(collection) => exists|rows: Result<SelectView, ErrorView>, next: nat|
                #![trigger rows_outcome(
                    metadata,
                    0,
                    MakeFromView::Collection { name: collection.0, gsi: collection.1 },
                    request.query,
                    rows,
                    next,
                )]
                {
                    &&& rows_outcome(
                        metadata,
                        0,
                        MakeFromView::Collection { name: collection.0, gsi: collection.1 },
                        request.query,
                        rows,
                        next,
                    )
                    &&& result == planned(request, rows)
                },
        }
    }
}

/// The plan for the rows of a request, or the error of the rows.
pub open spec fn planned(request: QueryRequestView, rows: Result<SelectView, ErrorView>) -> Result<
    QueryPlanView,
    ErrorView,
> {
    match rows {
        Err(error) => Err(error),
        Ok(select) => Ok(
            QueryPlanView {
                root_field: request.collection,
                has_variables: false,
                query: normalized_select(select),
                limit: request.query.limit,
            },
        ),
    }
}

/// The position of the first colon of a name at or after `from`.
fn find_colon(name: &str, from: usize, len: usize) -> (found: Option<usize>)
    requires
        len == name@.len(),
        from <= len,
    ensures
        match found {
            Some(colon) => colon_from(name@, from as int) == Some(colon as int) && colon < len,
            None => colon_from(name@, from as int) is None,
        },
{
    let mut index: usize = from;
    while index < len
        invariant
            from <= index <= len,
            len == name@.len(),
            colon_from(name@, from as int) == colon_from(name@, index as int),
        decreases len - index,
    {
        if name.get_char(index) == ':' {
            return Some(index);
        }
        index += 1;
    }
    None
}

/// The view of a collection name with an optional secondary index, or of
/// an error.
pub open spec fn collection_view(result: Result<(String, Option<Gsi>), Error>) -> Result<
    (Seq<char>, Option<Seq<char>>),
    ErrorView,
> {
    match result {
        Ok(pair) => Ok((pair.0@, crate::translation::query::root::optional_gsi(pair.1))),
        Err(error) => Err(error@),
    }
}

/// Parses a collection identifier: a name, or a name, a colon and the name
/// of a secondary index.
pub fn parse_collection_name(collection: &String) -> (result: Result<(String, Option<Gsi>), Error>)
    ensures
        collection_view(result) == parsed_collection(collection@),
{
    let name = collection.as_str();
    let len = name.unicode_len();
    match find_colon(name, 0, len) {
        None => Ok((collection.clone(), None)),
        Some(colon) => match find_colon(name, colon + 1, len) {
            Some(_) => Err(Error::InvalidCollectionName(collection.clone())),
            None => {
                let collection_name = String::from_str(name.substring_char(0, colon));
                let gsi_name = String::from_str(name.substring_char(colon + 1, len));
                Ok((collection_name, Some(Gsi(gsi_name))))
            },
        },
    }
}

/// The view of a plan, or of an error.
pub open spec fn plan_view(result: Result<ExecutionPlan<Query>, Error>) -> Result<
    QueryPlanView,
    ErrorView,
> {
    match result {
        Ok(plan) => Ok(plan@),
        Err(error) => Err(error@),
    }
}

/// Translates a request into the plan of the statement that answers it.
pub fn translate(metadata: &Metadata, query_request: QueryRequest) -> (result: Result<
    ExecutionPlan<Query>,
    Error,
>)
    requires
        1 + aliases_needed_by_filter(query_request@.query.predicate) <= u64::MAX,
    ensures
        translation_outcome(metadata@, query_request@, plan_view(result)),
        result is Ok ==> result->Ok_0.pre@.len() == 0 && result->Ok_0.post@.len() == 0,
{
    let mut state = State::new();
    let env = Env::new(metadata);
    let QueryRequest { collection, query, arguments, variables } = query_request;
    if variables.is_some() {
        return Err(Error::CapabilityNotSupported(UnsupportedCapabilities::VariableSets));
    }
    let (collection_name, gsi) = match parse_collection_name(&collection) {
        Ok(parsed) => parsed,
        Err(error) => {
            return Err(error);
        },
    };
    let make_from = MakeFrom::Collection { name: collection_name, arguments, gsi };
    let translated = translate_query(&env, &mut state, &make_from, &None, &query);
    let ghost rows = crate::translation::query::root::query_view(translated);
    let (query_limit, returns_field, select_set) = match translated {
        Ok(translated) => translated,
        Err(error) => {
            assert(planned(query_request@, rows) == Err::<QueryPlanView, ErrorView>(error@));
            return Err(error);
        },
    };
    // Form the one select of the rows.
    let json_select = select_rowset(select_set, &returns_field);
    // normalize ast
    let json_select = normalize_select(json_select);
    let plan = simple_query_execution_plan(variables, collection, json_select, query_limit);
    assert(planned(query_request@, rows) == Ok::<QueryPlanView, ErrorView>(plan@));
    Ok(plan)
}

/// A request for a collection that the metadata does not know is answered
/// by the error that says so, never by a plan.
pub proof fn lemma_unknown_collection(
    metadata: MetadataView,
    request: QueryRequestView,
    result: Result<QueryPlanView, ErrorView>,
)
    requires
        !request.has_variables,
        parsed_collection(request.collection) is Ok,
        crate::metadata::entries::lookup(
            metadata.tables,
            parsed_collection(request.collection)->Ok_0.0,
        ) is None,
        translation_outcome(metadata, request, result),
    ensures
        result == Err::<QueryPlanView, ErrorView>(
            ErrorView::CollectionNotFound(parsed_collection(request.collection)->Ok_0.0),
        ),
{
}

/// The select that reads the literal `1` from a table, optionally through
/// a secondary index, under the first alias of a translation.
pub open spec fn select_one_from(
    collection: Seq<char>,
    table: Seq<char>,
    gsi: Option<Seq<char>>,
) -> SelectView {
    SelectView {
        from: Some(
            crate::sql::model::FromView::Table {
                reference: crate::sql::model::TableReferenceView::DBTable { table, gsi },
                alias: crate::translation::helpers::alias_at(0, collection),
            },
        ),
        ..crate::sql::helpers::simple_select_view(crate::sql::model::SelectListView::Select1)
    }
}

/// A request that asks for no fields, has no predicate and no ordering,
/// and names a collection that is known, is answered by a plan and not by
/// an error: the plan of `SELECT 1 FROM <table>`, with the limit of the
/// request.
pub proof fn lemma_query_without_fields(
    metadata: MetadataView,
    request: QueryRequestView,
    result: Result<QueryPlanView, ErrorView>,
)
    requires
        !request.has_variables,
        parsed_collection(request.collection) is Ok,
        crate::metadata::entries::lookup(
            metadata.tables,
            parsed_collection(request.collection)->Ok_0.0,
        ) is Some,
        request.query.fields.len() == 0,
        request.query.predicate is None,
        request.query.order_by is None,
        translation_outcome(metadata, request, result),
    ensures
        ({
            let collection = parsed_collection(request.collection)->Ok_0;
            let table = crate::metadata::entries::lookup(metadata.tables, collection.0)->0;
            let select = select_one_from(collection.0, table.table_name, collection.1);
            &&& result == Ok::<QueryPlanView, ErrorView>(
                QueryPlanView {
                    root_field: request.collection,
                    has_variables: false,
                    query: select,
                    limit: request.query.limit,
                },
            )
            &&& crate::sql::string::SQLView::empty().with_select(select)
                == crate::sql::string::SQLView::empty().with_text("SELECT "@).with_text(
                "1"@,
            ).with_text(" "@).with_text("FROM "@).with_table_reference(
                crate::sql::model::TableReferenceView::DBTable {
                    table: table.table_name,
                    gsi: collection.1,
                },
            )
        }),
{
    let collection = parsed_collection(request.collection)->Ok_0;
    let table = crate::metadata::entries::lookup(metadata.tables, collection.0)->0;
    let select = select_one_from(collection.0, table.table_name, collection.1);
    let make_from = MakeFromView::Collection { name: collection.0, gsi: collection.1 };
    let (rows, next) = choose|rows: Result<SelectView, ErrorView>, next: nat|
        #![trigger rows_outcome(metadata, 0, make_from, request.query, rows, next)]
        rows_outcome(metadata, 0, make_from, request.query, rows, next) && result == planned(
            request,
            rows,
        );
    assert(rows == Ok::<SelectView, ErrorView>(select));
    assert(normalized_select(select) == select) by {
        assert(crate::sql::rewrites::constant_folding::normalized_from(select.from->0)
            == select.from->0);
        assert(crate::sql::rewrites::constant_folding::normalized_expression(select.where_)
            == select.where_);
    }
    let out = crate::sql::string::SQLView::empty();
    assert(out.with_select(select) == out.with_with(select.with).with_text(
        "SELECT "@,
    ).with_select_list(select.select_list).with_text(" "@).with_optional_from(
        select.from,
    ).with_where(select.where_).with_order_by(select.order_by));
    assert(out.with_with(select.with) == out);
    let listed = out.with_text("SELECT "@).with_text("1"@).with_text(" "@);
    assert(out.with_text("SELECT "@).with_select_list(select.select_list).with_text(" "@)
        == listed);
    assert(listed.with_optional_from(select.from) == listed.with_from(select.from->0));
    assert(listed.with_from(select.from->0).with_where(select.where_) == listed.with_from(
        select.from->0,
    ));
    assert(listed.with_from(select.from->0).with_order_by(select.order_by) == listed.with_from(
        select.from->0,
    ));
}

/// Where a request is answered by a plan, the request has no sets of
/// variables and the plan has none, the plan has the limit of the query,
/// also where there is none, and it names the collection as the request
/// does.
pub proof fn lemma_plan_keeps_the_request(
    metadata: MetadataView,
    request: QueryRequestView,
    result: Result<QueryPlanView, ErrorView>,
)
    requires
        translation_outcome(metadata, request, result),
        result is Ok,
    ensures
        !request.has_variables,
        !result->Ok_0.has_variables,
        result->Ok_0.limit == request.query.limit,
        result->Ok_0.root_field == request.collection,
{
}

/// Where a request is answered by a plan, its collection is known under
/// the name that stands before the colon, never under the identifier as it
/// was written, and the statement reads the table of that collection
/// through the secondary index that stands behind the colon, or through
/// none where there is no colon.
pub proof fn lemma_plan_reads_the_parsed_collection(
    metadata: MetadataView,
    request: QueryRequestView,
    result: Result<QueryPlanView, ErrorView>,
)
    requires
        translation_outcome(metadata, request, result),
        result is Ok,
    ensures
        parsed_collection(request.collection) is Ok,
        ({
            let collection = parsed_collection(request.collection)->Ok_0;
            let table = crate::metadata::entries::lookup(metadata.tables, collection.0);
            &&& table is Some
            &&& result->Ok_0.query.from == Some(
                crate::sql::model::FromView::Table {
                    reference: crate::sql::model::TableReferenceView::DBTable {
                        table: table->0.table_name,
                        gsi: collection.1,
                    },
                    alias: crate::translation::helpers::alias_at(0, collection.0),
                },
            )
        }),
{
    let collection = parsed_collection(request.collection)->Ok_0;
    let make_from = MakeFromView::Collection { name: collection.0, gsi: collection.1 };
    let (rows, next) = choose|rows: Result<SelectView, ErrorView>, next: nat|
        #![trigger rows_outcome(metadata, 0, make_from, request.query, rows, next)]
        rows_outcome(metadata, 0, make_from, request.query, rows, next) && result == planned(
            request,
            rows,
        );
    let source = crate::translation::query::root::reference_and_from_clause(
        metadata,
        0,
        make_from,
    );
    assert(source is Ok);
    let select = crate::translation::query::root::selected_rows(
        metadata,
        request.query,
        source->Ok_0,
    );
    assert(select is Ok);
    assert(select->Ok_0.from == Some(source->Ok_0.1));
    assert(rows->Ok_0.from == select->Ok_0.from);
    assert(crate::sql::rewrites::constant_folding::normalized_from(source->Ok_0.1)
        == source->Ok_0.1);
}

/// Whether a request can be translated with a counter of 64 bits for its
/// table aliases: what `translate` asks of its caller.
pub fn fits_alias_counter(query_request: &QueryRequest) -> (fits: bool)
    ensures
        fits == (1 + aliases_needed_by_filter(query_request@.query.predicate) <= u64::MAX),
{
    match &query_request.query.predicate {
        None => true,
        Some(predicate) => match crate::translation::query::filtering::count_aliases(predicate) {
            Some(count) => count < u64::MAX,
            None => false,
        },
    }
}

/// What `colon_from` finds: the first colon at or after a position.
pub proof fn lemma_colon_from(name: Seq<char>, from: int)
    requires
        0 <= from <= name.len(),
    ensures
        match colon_from(name, from) {
            Some(colon) => from <= colon < name.len() && name[colon] == ':' && forall|i: int|
                from <= i < colon ==> name[i] != ':',
            None => forall|i: int| from <= i < name.len() ==> name[i] != ':',
        },
    decreases name.len() - from,
{
    if from < name.len() && name[from] != ':' {
        lemma_colon_from(name, from + 1);
    }
}

/// What a collection identifier is parsed to. Without a colon it is the
/// name of the collection. With one colon it is the name of the collection,
/// the colon and the name of the index, neither of which holds a colon.
/// With more than one colon it names nothing.
pub proof fn lemma_parsed_collection(name: Seq<char>)
    ensures
        match parsed_collection(name) {
            Ok((collection, None)) => collection == name && !name.contains(':'),
            Ok((collection, Some(index))) => name == collection + seq![':'] + index
                && !collection.contains(':') && !index.contains(':'),
            Err(error) => error == ErrorView::InvalidCollectionName(name) && exists|
                i: int,
                j: int,
            |
                0 <= i < j < name.len() && name[i] == ':' && name[j] == ':',
        },
{
    lemma_colon_from(name, 0);
    match colon_from(name, 0) {
        None => {},
        Some(colon) => {
            lemma_colon_from(name, colon + 1);
            let collection = name.subrange(0, colon);
            let index = name.subrange(colon + 1, name.len() as int);
            match colon_from(name, colon + 1) {
                Some(second) => {
                    assert(0 <= colon < second < name.len() && name[colon] == ':' && name[second]
                        == ':');
                },
                None => {
                    assert(name =~= collection + seq![':'] + index);
                    assert forall|i: int| 0 <= i < index.len() implies index[i] != ':' by {
                        assert(index[i] == name[colon + 1 + i]);
                    }
                },
            }
        },
    }
}

} // verus!
