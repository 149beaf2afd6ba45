use ndc_dynamodb::metadata::database::{
    ColumnInfo, GlobalSecondaryIndexes, Nullable, ScalarTypes, TableInfo, TablesInfo, Type,
};
use ndc_dynamodb::metadata::Metadata;
use ndc_dynamodb::models::{OrderBy, OrderByElement, OrderByTarget, OrderDirection, PathElement};
use ndc_dynamodb::sql::ast::{TableAlias, TableReference};
use ndc_dynamodb::sql::string::SQL;
use ndc_dynamodb::translation::error::{Error, UnsupportedCapabilities};
use ndc_dynamodb::translation::helpers::{
    Env, RootAndCurrentTables, State, TableNameAndReference,
};
use ndc_dynamodb::translation::query::sorting::{
    group_by_keys, group_elements, path_keys, translate_order_by, translate_order_by_groups,
    OrderByElementGroups,
};

fn tracks() -> Metadata {
    let column = |name: &str| {
        (
            name.to_string(),
            ColumnInfo {
                name: name.to_uppercase(),
                type_: Type::ScalarType("String".to_string()),
                nullable: Nullable::NonNullable,
                description: None,
            },
        )
    };
    Metadata {
        tables: TablesInfo(vec![(
            "Tracks".to_string(),
            TableInfo {
                table_name: "tracks".to_string(),
                columns: vec![column("a"), column("b"), column("c")],
                partition_key: "a".to_string(),
                sort_key: "b".to_string(),
                gsi: GlobalSecondaryIndexes(vec![]),
                description: None,
            },
        )]),
        scalar_types: ScalarTypes(vec![]),
    }
}

fn tables(name: &str) -> RootAndCurrentTables {
    let table = || TableNameAndReference {
        name: name.to_string(),
        reference: TableReference::AliasedTable(TableAlias {
            unique_index: 0,
            name: name.to_string(),
        }),
    };
    RootAndCurrentTables { root_table: table(), current_table: table() }
}

fn related() -> Vec<PathElement> {
    vec![PathElement { relationship: "album".to_string(), arguments: vec![], predicate: None }]
}

fn column_on(name: &str, direction: OrderDirection, path: Vec<PathElement>) -> OrderByElement {
    OrderByElement {
        order_direction: direction,
        target: OrderByTarget::Column { name: name.to_string(), path, field_path: None },
    }
}

fn column(name: &str, direction: OrderDirection) -> OrderByElement {
    column_on(name, direction, vec![])
}

fn count(path: Vec<PathElement>) -> OrderByElement {
    OrderByElement {
        order_direction: OrderDirection::Desc,
        target: OrderByTarget::StarCountAggregate { path },
    }
}

fn rendered(order_by: &ndc_dynamodb::sql::ast::OrderBy) -> String {
    let mut sql = SQL::new();
    order_by.to_sql(&mut sql);
    sql.sql
}

fn sorted(mut groups: Vec<Vec<usize>>) -> Vec<Vec<usize>> {
    groups.sort();
    groups
}

#[test]
fn there_is_a_key_for_every_sort_key() {
    let elements = vec![
        column("a", OrderDirection::Asc),
        column_on("b", OrderDirection::Asc, related()),
        count(vec![]),
    ];
    let keys = path_keys(&elements);
    assert_eq!(keys.len(), 3);
    // Sort keys with the same path have the same key.
    assert_eq!(keys[0], keys[2]);
    assert_eq!(path_keys(&elements), keys);
    assert!(path_keys(&vec![]).is_empty());
}

#[test]
fn sort_keys_are_grouped_by_their_keys() {
    let elements = vec![
        column("a", OrderDirection::Asc),
        count(vec![]),
        column("b", OrderDirection::Desc),
        column("c", OrderDirection::Asc),
        count(related()),
    ];
    let groups = group_by_keys(&elements, &vec![7, 7, 9, 7, 7]);
    assert_eq!(sorted(groups.columns), vec![vec![0, 3], vec![2]]);
    assert_eq!(sorted(groups.aggregates), vec![vec![1, 4]]);
    let groups = group_by_keys(&elements, &vec![1, 2, 3, 4, 5]);
    assert_eq!(sorted(groups.columns), vec![vec![0], vec![2], vec![3]]);
    assert_eq!(sorted(groups.aggregates), vec![vec![1], vec![4]]);
    let groups = group_by_keys(&vec![], &vec![]);
    assert!(groups.columns.is_empty());
    assert!(groups.aggregates.is_empty());
}

#[test]
fn sort_keys_are_grouped_by_their_paths() {
    let elements = vec![
        column("a", OrderDirection::Asc),
        column_on("b", OrderDirection::Asc, related()),
        column("c", OrderDirection::Asc),
        count(vec![]),
    ];
    let groups = group_elements(&elements);
    assert_eq!(sorted(groups.columns), vec![vec![0, 2], vec![1]]);
    assert_eq!(groups.aggregates, vec![vec![3]]);
}

#[test]
fn groups_give_the_order_of_the_request() {
    let metadata = tracks();
    let env = Env::new(&metadata);
    let mut state = State::new();
    let elements = vec![
        column("c", OrderDirection::Asc),
        column("a", OrderDirection::Desc),
        column("b", OrderDirection::Asc),
    ];
    // However the sort keys are grouped, they come out in their order.
    for columns in [
        vec![vec![0, 1, 2]],
        vec![vec![2], vec![1], vec![0]],
        vec![vec![1, 2], vec![0]],
        vec![vec![2, 0], vec![1]],
    ] {
        let groups = OrderByElementGroups { columns, aggregates: vec![] };
        let (order_by, joins) =
            translate_order_by_groups(&env, &mut state, &tables("Tracks"), &elements, &groups)
                .unwrap();
        assert_eq!(rendered(&order_by), " ORDER BY \"C\" ASC , \"A\" DESC , \"B\" ASC ");
        assert!(joins.is_empty());
    }
    assert_eq!(state.global_table_index.0, 0);
}

#[test]
fn first_group_with_an_error_gives_the_error() {
    let metadata = tracks();
    let env = Env::new(&metadata);
    let mut state = State::new();
    let elements = vec![
        column("missing", OrderDirection::Asc),
        column_on("a", OrderDirection::Desc, related()),
        count(vec![]),
        column("gone", OrderDirection::Asc),
    ];
    let translate = |state: &mut State, columns: Vec<Vec<usize>>| {
        let groups = OrderByElementGroups { columns, aggregates: vec![vec![2]] };
        translate_order_by_groups(&env, state, &tables("Tracks"), &elements, &groups).unwrap_err()
    };
    assert!(matches!(
        translate(&mut state, vec![vec![0], vec![1], vec![3]]),
        Error::ColumnNotFoundInCollection(column, _) if column == "missing"
    ));
    assert!(matches!(
        translate(&mut state, vec![vec![1], vec![0], vec![3]]),
        Error::CapabilityNotSupported(UnsupportedCapabilities::Relationships)
    ));
    assert!(matches!(
        translate(&mut state, vec![vec![3, 0], vec![1]]),
        Error::ColumnNotFoundInCollection(column, _) if column == "gone"
    ));
    // A group stands for the path of its first member.
    assert!(matches!(
        translate(&mut state, vec![vec![1, 0, 3]]),
        Error::CapabilityNotSupported(UnsupportedCapabilities::Relationships)
    ));
    let elements = vec![column("a", OrderDirection::Asc), count(related()), count(vec![])];
    let groups = OrderByElementGroups { columns: vec![vec![0]], aggregates: vec![vec![1], vec![2]] };
    assert!(matches!(
        translate_order_by_groups(&env, &mut state, &tables("Tracks"), &elements, &groups),
        Err(Error::CapabilityNotSupported(UnsupportedCapabilities::Relationships))
    ));
    let groups = OrderByElementGroups { columns: vec![vec![0]], aggregates: vec![vec![2], vec![1]] };
    assert!(matches!(
        translate_order_by_groups(&env, &mut state, &tables("Tracks"), &elements, &groups),
        Err(Error::EmptyPathForOrderByAggregate)
    ));
}

#[test]
fn column_through_relationship_is_not_ordered_by() {
    let metadata = tracks();
    let env = Env::new(&metadata);
    let mut state = State::new();
    let order_by = Some(OrderBy {
        elements: vec![
            column("a", OrderDirection::Asc),
            column_on("b", OrderDirection::Asc, related()),
        ],
    });
    assert!(matches!(
        translate_order_by(&env, &mut state, &tables("Tracks"), &order_by),
        Err(Error::CapabilityNotSupported(UnsupportedCapabilities::Relationships))
    ));
}

#[test]
fn ordering_of_unknown_table_is_an_error() {
    let metadata = tracks();
    let env = Env::new(&metadata);
    let mut state = State::new();
    let order_by = Some(OrderBy { elements: vec![column("a", OrderDirection::Asc)] });
    assert!(matches!(
        translate_order_by(&env, &mut state, &tables("Nowhere"), &order_by),
        Err(Error::CollectionNotFound(name)) if name == "Nowhere"
    ));
    // Without a sort key the table is not looked up.
    let order_by = Some(OrderBy { elements: vec![] });
    let (order_by, _) =
        translate_order_by(&env, &mut state, &tables("Nowhere"), &order_by).unwrap();
    assert!(order_by.elements.is_empty());
}

#[test]
fn columns_are_ordered_by_under_their_own_names() {
    let metadata = tracks();
    let env = Env::new(&metadata);
    let mut state = State::new();
    let order_by = Some(OrderBy {
        elements: vec![
            column("b", OrderDirection::Desc),
            OrderByElement {
                order_direction: OrderDirection::Asc,
                target: OrderByTarget::Column {
                    name: "a".to_string(),
                    path: vec![],
                    field_path: Some(vec!["x".to_string(), "y".to_string()]),
                },
            },
        ],
    });
    let (order_by, joins) =
        translate_order_by(&env, &mut state, &tables("Tracks"), &order_by).unwrap();
    assert_eq!(rendered(&order_by), " ORDER BY \"B\" DESC , ((\"A\").\"x\").\"y\" ASC ");
    assert!(joins.is_empty());
}
