//! Translation of the ordering of a query.

use crate::metadata::entries::reversed;
use crate::metadata::MetadataView;
use crate::models;
use crate::models::{
    OrderByElement, OrderByElementView, OrderByTarget, OrderByTargetView, OrderDirection,
    PathElement,
};
use crate::sql::ast::{ColumnAlias, ColumnReference, Expression, Join, OrderByDirection};
use crate::sql::helpers::make_column_alias;
use crate::sql::model::{ColumnReferenceView, ExpressionView};
use crate::translation::error::{Error, ErrorView, UnsupportedCapabilities};
use crate::translation::helpers::{
    collection_of, column_of, copy_names, wrap_in_field_path,
    wrapped_in_field_path, CollectionInfo, Env, FieldPath, NamedTableView, RootAndCurrentTables,
    RootAndCurrentTablesView, State, TableNameAndReference, TableNameAndReferenceView,
};
use crate::translation::query::path_text::{path_text, write_path};
use multimap::MultiMap;
use std::collections::hash_map::DefaultHasher;
use std::hash::Hasher;
use vstd::std_specs::hash::DefaultHasherAdditionalSpecFns;
use vstd::prelude::*;

verus! {

/// `multimap::MultiMap`: a map from keys to lists of values. Nothing of its
/// inside is known here; what it holds is told by `groups_of`.
#[verifier::external_type_specification]
#[verifier::external_body]
#[verifier::reject_recursive_types(K)]
#[verifier::reject_recursive_types(V)]
#[verifier::reject_recursive_types(S)]
pub struct ExMultiMap<K, V, S>(MultiMap<K, V, S>);

/// What a multimap from keys to positions holds: under each key that it
/// has, the positions that were inserted under that key, in the order of
/// their insertion.
pub uninterp spec fn groups_of(multimap: MultiMap<u64, usize>) -> Map<u64, Seq<usize>>;

/// `MultiMap::new`: a multimap that holds nothing.
#[verifier::external_body]
fn new_groups() -> (multimap: MultiMap<u64, usize>)
    ensures
        forall|key: u64| !groups_of(multimap).dom().contains(key),
{
    MultiMap::new()
}

/// `MultiMap::insert`: the position is added at the end of the positions
/// under the key, which are the position alone where the key is new. The
/// other keys keep what they have.
#[verifier::external_body]
fn insert_into_groups(multimap: &mut MultiMap<u64, usize>, key: u64, position: usize)
    ensures
        groups_of(*final(multimap)) == groups_of(*old(multimap)).insert(
            key,
            if groups_of(*old(multimap)).dom().contains(key) {
                groups_of(*old(multimap))[key].push(position)
            } else {
                seq![position]
            },
        ),
{
    multimap.insert(key, position)
}

/// The groups are what a multimap hands out when it is walked: there are
/// keys, as many as groups and no key twice, that are the keys of the
/// multimap, and each group holds the positions under its key.
pub open spec fn handed_once(map: Map<u64, Seq<usize>>, groups: Seq<Vec<usize>>) -> bool {
    exists|walked: Seq<u64>| walked_by(map, groups, walked)
}

/// The groups are the positions under the keys in the order `walked`, which
/// holds every key of the multimap once.
pub open spec fn walked_by(
    map: Map<u64, Seq<usize>>,
    groups: Seq<Vec<usize>>,
    walked: Seq<u64>,
) -> bool {
    &&& walked.no_duplicates()
    &&& walked.len() == groups.len()
    &&& forall|p: int|
        0 <= p < groups.len() ==> map.dom().contains(#[trigger] walked[p]) && groups[p]@
            == map[walked[p]]
    &&& forall|key: u64| #[trigger] map.dom().contains(key) ==> walked.contains(key)
}

/// `MultiMap::into_iter`, without the keys: the multimap hands out the
/// entries of its hash map, each key once with the positions under it. The
/// order in which the keys are walked is not known.
#[verifier::external_body]
fn into_groups(multimap: MultiMap<u64, usize>) -> (groups: Vec<Vec<usize>>)
    ensures
        handed_once(groups_of(multimap), groups@),
{
    multimap.into_iter().map(|(_, positions)| positions).collect()
}

/// The hash of a text: what a `DefaultHasher` of the standard library gives
/// once the bytes of the text were written to it.
pub open spec fn text_hash(text: Seq<char>) -> u64 {
    DefaultHasher::spec_finish(seq![vstd::utf8::encode_utf8(text)])
}

/// Hashes a text.
fn hash_text(text: &String) -> (hash: u64)
    ensures
        hash == text_hash(text@),
{
    let mut hasher = DefaultHasher::new();
    hasher.write(text.as_str().as_bytes());
    assert(hasher@ =~= seq![vstd::utf8::encode_utf8(text@)]);
    hasher.finish()
}

/// The key under which a path is grouped: the hash of its text. Equal
/// paths have the same key.
pub open spec fn path_key(path: Seq<PathElement>) -> u64 {
    text_hash(path_text(path))
}

/// The path of the target of a sort key.
pub open spec fn target_path(target: OrderByTarget) -> Seq<PathElement> {
    match target {
        OrderByTarget::Column { name, path, field_path } => path@,
        OrderByTarget::SingleColumnAggregate { column, function, path, field_path } => path@,
        OrderByTarget::StarCountAggregate { path } => path@,
    }
}

/// The keys of the paths of a list of sort keys, in order.
pub open spec fn element_keys(elements: Seq<OrderByElement>) -> Seq<u64> {
    elements.map_values(|e: OrderByElement| path_key(target_path(e.target)))
}

/// The sort keys of a query in groups, each sort key by its position in the
/// ordering. Columns and aggregates are kept apart, since an aggregate
/// changes how many rows a joined subquery has. A group stands for the
/// path of its first member.
#[derive(Debug)]
pub struct OrderByElementGroups {
    pub columns: Vec<Vec<usize>>,
    pub aggregates: Vec<Vec<usize>>,
}

pub struct OrderByElementGroupsView {
    pub columns: Seq<Seq<usize>>,
    pub aggregates: Seq<Seq<usize>>,
}

/// The positions of a list of groups.
pub open spec fn groups_view(groups: Seq<Vec<usize>>) -> Seq<Seq<usize>> {
    groups.map_values(|g: Vec<usize>| g@)
}

impl View for OrderByElementGroups {
    type V = OrderByElementGroupsView;

    open spec fn view(&self) -> OrderByElementGroupsView {
        OrderByElementGroupsView {
            columns: groups_view(self.columns@),
            aggregates: groups_view(self.aggregates@),
        }
    }
}

/// Whether a sort key is a column.
pub open spec fn is_column(element: OrderByElementView) -> bool {
    element.target is Column
}

/// Groups of one kind hold only positions of sort keys of that kind, none
/// is empty, and every sort key of that kind is in one of them.
pub open spec fn groups_cover(
    elements: Seq<OrderByElementView>,
    groups: Seq<Seq<usize>>,
    columns: bool,
) -> bool {
    &&& forall|p: int| 0 <= p < groups.len() ==> (#[trigger] groups[p]).len() > 0
    &&& forall|p: int, q: int|
        0 <= p < groups.len() && 0 <= q < groups[p].len() ==> (#[trigger] groups[p][q])
            < elements.len() && is_column(elements[groups[p][q] as int]) == columns
    &&& forall|j: int|
        0 <= j < elements.len() && is_column(#[trigger] elements[j]) == columns ==> exists|
            p: int,
            q: int,
        |
            0 <= p < groups.len() && 0 <= q < groups[p].len() && groups[p][q] == j
}

/// The groups are groups of the sort keys: every sort key is in a group of
/// its kind.
pub open spec fn groups_wf(elements: Seq<OrderByElementView>, groups: OrderByElementGroupsView) -> bool {
    groups_cover(elements, groups.columns, true) && groups_cover(elements, groups.aggregates, false)
}

/// The positions among the first `count` sort keys that are of one kind
/// and stand under a key, in increasing order.
pub open spec fn positions_under(
    elements: Seq<OrderByElementView>,
    keys: Seq<u64>,
    key: u64,
    columns: bool,
    count: nat,
) -> Seq<usize>
    decreases count,
{
    if 0 < count <= elements.len() {
        let before = positions_under(elements, keys, key, columns, (count - 1) as nat);
        if keys[count - 1] == key && is_column(elements[count - 1]) == columns {
            before.push((count - 1) as usize)
        } else {
            before
        }
    } else {
        Seq::empty()
    }
}

/// What holds of a multimap into which the first `count` sort keys of one
/// kind were inserted under their keys: it has the keys under which one of
/// them stands, and under each key the positions that stand under it.
pub open spec fn filled(
    elements: Seq<OrderByElementView>,
    keys: Seq<u64>,
    map: Map<u64, Seq<usize>>,
    count: nat,
    columns: bool,
) -> bool {
    forall|key: u64|
        #![trigger map.dom().contains(key)]
        {
            &&& map.dom().contains(key) <==> positions_under(
                elements,
                keys,
                key,
                columns,
                count,
            ).len() > 0
            &&& map.dom().contains(key) ==> map[key] == positions_under(
                elements,
                keys,
                key,
                columns,
                count,
            )
        }
}

/// A group holds the sort keys of one kind that stand under some key, and
/// there is one.
pub open spec fn under_some_key(
    elements: Seq<OrderByElementView>,
    keys: Seq<u64>,
    group: Seq<usize>,
    columns: bool,
) -> bool {
    group.len() > 0 && exists|key: u64|
        group == #[trigger] positions_under(elements, keys, key, columns, elements.len())
}

/// Some group holds the given positions.
pub open spec fn has_group(groups: Seq<Seq<usize>>, positions: Seq<usize>) -> bool {
    exists|p: int| 0 <= p < groups.len() && #[trigger] groups[p] == positions
}

/// The groups of one kind are the groups by key: each group holds, in
/// increasing order, the positions of the sort keys of that kind under one
/// key, and every key under which such a sort key stands has its group.
pub open spec fn grouped_by_key(
    elements: Seq<OrderByElementView>,
    keys: Seq<u64>,
    groups: Seq<Seq<usize>>,
    columns: bool,
) -> bool {
    &&& forall|p: int|
        0 <= p < groups.len() ==> under_some_key(elements, keys, #[trigger] groups[p], columns)
    &&& forall|key: u64|
        (#[trigger] positions_under(elements, keys, key, columns, elements.len())).len() > 0
            ==> has_group(groups, positions_under(elements, keys, key, columns, elements.len()))
}

/// No position stands in two groups, nor twice in one.
pub open spec fn each_once(groups: Seq<Seq<usize>>) -> bool {
    forall|ga: int, ia: int, gb: int, ib: int|
        0 <= ga < groups.len() && 0 <= ia < groups[ga].len() && 0 <= gb < groups.len() && 0 <= ib
            < groups[gb].len() && #[trigger] groups[ga][ia] == #[trigger] groups[gb][ib] ==> ga
            == gb && ia == ib
}

/// All members of a group stand under one key, and the members of two
/// groups stand under different keys.
pub open spec fn keys_apart(keys: Seq<u64>, groups: Seq<Seq<usize>>) -> bool {
    forall|ga: int, ia: int, gb: int, ib: int|
        0 <= ga < groups.len() && 0 <= ia < groups[ga].len() && 0 <= gb < groups.len() && 0 <= ib
            < groups[gb].len() ==> (keys[#[trigger] groups[ga][ia] as int]
            == keys[#[trigger] groups[gb][ib] as int] <==> ga == gb)
}

/// The path of a sort key.
fn path_of(element: &OrderByElement) -> (path: &Vec<PathElement>)
    ensures
        path@ == target_path(element.target),
        path@.len() == element@.target.path_len(),
{
    match &element.target {
        OrderByTarget::Column { path, .. } => path,
        OrderByTarget::SingleColumnAggregate { path, .. } => path,
        OrderByTarget::StarCountAggregate { path } => path,
    }
}

/// The keys by which the sort keys are grouped: for each, the hash of the
/// text of its path.
pub fn path_keys(elements: &Vec<OrderByElement>) -> (keys: Vec<u64>)
    ensures
        keys@ == element_keys(elements@),
{
    let mut keys: Vec<u64> = Vec::new();
    let mut index: usize = 0;
    while index < elements.len()
        invariant
            index <= elements.len(),
            keys@ =~= element_keys(elements@).take(index as int),
        decreases elements.len() - index,
    {
        let text = write_path(path_of(&elements[index]));
        keys.push(hash_text(&text));
        index += 1;
    }
    assert(element_keys(elements@).take(elements@.len() as int) =~= element_keys(elements@));
    keys
}

/// Groups the sort keys by their keys, columns and aggregates apart.
pub fn group_by_keys(elements: &Vec<OrderByElement>, keys: &Vec<u64>) -> (groups:
    OrderByElementGroups)
    requires
        keys.len() == elements.len(),
    ensures
        grouped_by_key(elements_view(elements@), keys@, groups@.columns, true),
        grouped_by_key(elements_view(elements@), keys@, groups@.aggregates, false),
        each_once(groups@.columns),
        each_once(groups@.aggregates),
        keys_apart(keys@, groups@.columns),
        keys_apart(keys@, groups@.aggregates),
        groups_wf(elements_view(elements@), groups@),
{
    let ghost views = elements_view(elements@);
    let mut column_element_groups = new_groups();
    let mut aggregate_element_groups = new_groups();
    let mut index: usize = 0;
    // for each element, insert them to their respective group according to
    // their kind and path.
    while index < elements.len()
        invariant
            index <= elements.len(),
            keys.len() == elements.len(),
            views == elements_view(elements@),
            filled(views, keys@, groups_of(column_element_groups), index as nat, true),
            filled(views, keys@, groups_of(aggregate_element_groups), index as nat, false),
        decreases elements.len() - index,
    {
        let ghost columns_before = groups_of(column_element_groups);
        let ghost aggregates_before = groups_of(aggregate_element_groups);
        assert(views[index as int] == elements[index as int]@);
        match &elements[index].target {
            OrderByTarget::Column { .. } => {
                insert_into_groups(&mut column_element_groups, keys[index], index);
                proof {
                    lemma_filled_insert(views, keys@, columns_before, index as nat, true);
                    lemma_filled_skip(views, keys@, aggregates_before, index as nat, false);
                }
            },
            _ => {
                insert_into_groups(&mut aggregate_element_groups, keys[index], index);
                proof {
                    lemma_filled_insert(views, keys@, aggregates_before, index as nat, false);
                    lemma_filled_skip(views, keys@, columns_before, index as nat, true);
                }
            },
        }
        index += 1;
    }
    let ghost column_map = groups_of(column_element_groups);
    let ghost aggregate_map = groups_of(aggregate_element_groups);
    let columns = into_groups(column_element_groups);
    let aggregates = into_groups(aggregate_element_groups);
    proof {
        lemma_filled_grouped(views, keys@, column_map, columns@, true);
        lemma_filled_grouped(views, keys@, aggregate_map, aggregates@, false);
        lemma_grouped_covers(views, keys@, groups_view(columns@), true);
        lemma_grouped_covers(views, keys@, groups_view(aggregates@), false);
    }
    OrderByElementGroups { columns, aggregates }
}

/// What the positions under a key are: positions of sort keys of the kind
/// that stand under the key, all of them, in increasing order.
proof fn lemma_positions_under(
    elements: Seq<OrderByElementView>,
    keys: Seq<u64>,
    key: u64,
    columns: bool,
    count: nat,
)
    requires
        count <= elements.len() <= usize::MAX,
        keys.len() == elements.len(),
    ensures
        forall|q: int|
            0 <= q < positions_under(elements, keys, key, columns, count).len() ==> {
                let position = #[trigger] positions_under(elements, keys, key, columns, count)[q];
                position < count && keys[position as int] == key && is_column(
                    elements[position as int],
                ) == columns
            },
        forall|q: int, r: int|
            0 <= q < r < positions_under(elements, keys, key, columns, count).len()
                ==> positions_under(elements, keys, key, columns, count)[q] < positions_under(
                elements,
                keys,
                key,
                columns,
                count,
            )[r],
        forall|j: int|
            0 <= j < count && #[trigger] keys[j] == key && is_column(elements[j]) == columns
                ==> positions_under(elements, keys, key, columns, count).contains(j as usize),
    decreases count,
{
    if count > 0 {
        lemma_positions_under(elements, keys, key, columns, (count - 1) as nat);
        let before = positions_under(elements, keys, key, columns, (count - 1) as nat);
        let now = positions_under(elements, keys, key, columns, count);
        assert forall|j: int|
            0 <= j < count && #[trigger] keys[j] == key && is_column(elements[j])
                == columns implies now.contains(j as usize) by {
            if j < count - 1 {
                let q = choose|q: int| 0 <= q < before.len() && before[q] == j as usize;
                assert(now[q] == j as usize);
            } else {
                assert(now[now.len() - 1] == j as usize);
            }
        }
    }
}

/// Inserting the next sort key under its key keeps a multimap filled.
proof fn lemma_filled_insert(
    elements: Seq<OrderByElementView>,
    keys: Seq<u64>,
    map: Map<u64, Seq<usize>>,
    count: nat,
    columns: bool,
)
    requires
        count < elements.len(),
        count <= usize::MAX,
        keys.len() == elements.len(),
        is_column(elements[count as int]) == columns,
        filled(elements, keys, map, count, columns),
    ensures
        filled(
            elements,
            keys,
            map.insert(
                keys[count as int],
                if map.dom().contains(keys[count as int]) {
                    map[keys[count as int]].push(count as usize)
                } else {
                    seq![count as usize]
                },
            ),
            count + 1,
            columns,
        ),
{
    let key = keys[count as int];
    let positions = if map.dom().contains(key) {
        map[key].push(count as usize)
    } else {
        seq![count as usize]
    };
    let after = map.insert(key, positions);
    assert forall|other: u64|
        #![trigger after.dom().contains(other)]
        {
            &&& after.dom().contains(other) <==> positions_under(
                elements,
                keys,
                other,
                columns,
                count + 1,
            ).len() > 0
            &&& after.dom().contains(other) ==> after[other] == positions_under(
                elements,
                keys,
                other,
                columns,
                count + 1,
            )
        } by {
        assert(map.dom().contains(other) <==> positions_under(
            elements,
            keys,
            other,
            columns,
            count,
        ).len() > 0);
        if other == key {
            assert(positions =~= positions_under(elements, keys, key, columns, count + 1));
        }
    }
}

/// A sort key of the other kind leaves a multimap filled.
proof fn lemma_filled_skip(
    elements: Seq<OrderByElementView>,
    keys: Seq<u64>,
    map: Map<u64, Seq<usize>>,
    count: nat,
    columns: bool,
)
    requires
        count < elements.len(),
        is_column(elements[count as int]) != columns,
        filled(elements, keys, map, count, columns),
    ensures
        filled(elements, keys, map, count + 1, columns),
{
    assert forall|other: u64|
        #![trigger map.dom().contains(other)]
        {
            &&& map.dom().contains(other) <==> positions_under(
                elements,
                keys,
                other,
                columns,
                count + 1,
            ).len() > 0
            &&& map.dom().contains(other) ==> map[other] == positions_under(
                elements,
                keys,
                other,
                columns,
                count + 1,
            )
        } by {
        assert(map.dom().contains(other) <==> positions_under(
            elements,
            keys,
            other,
            columns,
            count,
        ).len() > 0);
    }
}

/// The groups that a filled multimap hands out are the groups by key, no
/// position stands in them twice, and two groups have different keys.
proof fn lemma_filled_grouped(
    elements: Seq<OrderByElementView>,
    keys: Seq<u64>,
    map: Map<u64, Seq<usize>>,
    handed: Seq<Vec<usize>>,
    columns: bool,
)
    requires
        keys.len() == elements.len(),
        elements.len() <= usize::MAX,
        filled(elements, keys, map, elements.len(), columns),
        handed_once(map, handed),
    ensures
        grouped_by_key(elements, keys, groups_view(handed), columns),
        each_once(groups_view(handed)),
        keys_apart(keys, groups_view(handed)),
{
    let groups = groups_view(handed);
    let walked = choose|walked: Seq<u64>| walked_by(map, handed, walked);
    assert forall|p: int| 0 <= p < groups.len() implies under_some_key(
        elements,
        keys,
        #[trigger] groups[p],
        columns,
    ) by {
        assert(map.dom().contains(walked[p]));
        assert(groups[p] == positions_under(elements, keys, walked[p], columns, elements.len()));
    }
    assert forall|key: u64|
        (#[trigger] positions_under(elements, keys, key, columns, elements.len())).len()
            > 0 implies has_group(
        groups,
        positions_under(elements, keys, key, columns, elements.len()),
    ) by {
        assert(map.dom().contains(key));
        assert(walked.contains(key));
        let p = choose|p: int| 0 <= p < walked.len() && walked[p] == key;
        assert(groups[p] == map[key]);
    }
    assert forall|ga: int, ia: int, gb: int, ib: int|
        0 <= ga < groups.len() && 0 <= ia < groups[ga].len() && 0 <= gb < groups.len() && 0 <= ib
            < groups[gb].len() implies (keys[#[trigger] groups[ga][ia] as int]
        == keys[#[trigger] groups[gb][ib] as int] <==> ga == gb) && (groups[ga][ia]
        == groups[gb][ib] ==> ga == gb && ia == ib) by {
        assert(map.dom().contains(walked[ga]));
        assert(map.dom().contains(walked[gb]));
        lemma_positions_under(elements, keys, walked[ga], columns, elements.len());
        lemma_positions_under(elements, keys, walked[gb], columns, elements.len());
        let first = positions_under(elements, keys, walked[ga], columns, elements.len());
        let second = positions_under(elements, keys, walked[gb], columns, elements.len());
        assert(groups[ga] == first);
        assert(groups[gb] == second);
        assert(keys[first[ia] as int] == walked[ga]);
        assert(keys[second[ib] as int] == walked[gb]);
        if ga == gb && ia != ib {
            if ia < ib {
                assert(first[ia] < first[ib]);
            } else {
                assert(first[ib] < first[ia]);
            }
        }
    }
}

/// The groups by key cover the sort keys of their kind.
pub proof fn lemma_grouped_covers(
    elements: Seq<OrderByElementView>,
    keys: Seq<u64>,
    groups: Seq<Seq<usize>>,
    columns: bool,
)
    requires
        keys.len() == elements.len(),
        elements.len() <= usize::MAX,
        grouped_by_key(elements, keys, groups, columns),
    ensures
        groups_cover(elements, groups, columns),
{
    assert forall|p: int| 0 <= p < groups.len() implies (#[trigger] groups[p]).len() > 0 by {
        assert(under_some_key(elements, keys, groups[p], columns));
    }
    assert forall|p: int, q: int| 0 <= p < groups.len() && 0 <= q < groups[p].len() implies (
    #[trigger] groups[p][q]) < elements.len() && is_column(elements[groups[p][q] as int])
        == columns by {
        assert(under_some_key(elements, keys, groups[p], columns));
        let key = choose|key: u64|
            groups[p] == #[trigger] positions_under(elements, keys, key, columns, elements.len());
        lemma_positions_under(elements, keys, key, columns, elements.len());
        let positions = positions_under(elements, keys, key, columns, elements.len());
        assert(positions[q] < elements.len());
    }
    assert forall|j: int|
        0 <= j < elements.len() && is_column(#[trigger] elements[j]) == columns implies exists|
        p: int,
        q: int,
    |
        0 <= p < groups.len() && 0 <= q < groups[p].len() && groups[p][q] == j by {
        let key = keys[j];
        lemma_positions_under(elements, keys, key, columns, elements.len());
        let positions = positions_under(elements, keys, key, columns, elements.len());
        assert(positions.contains(j as usize));
        assert(has_group(groups, positions));
        let p = choose|p: int| 0 <= p < groups.len() && #[trigger] groups[p] == positions;
        let q = choose|q: int| 0 <= q < positions.len() && positions[q] == j as usize;
        assert(0 <= p < groups.len() && 0 <= q < groups[p].len() && groups[p][q] == j);
    }
}

/// Sort keys with equal paths stand in one group, so two groups of one
/// kind never stand for the same path.
pub proof fn lemma_groups_tell_paths_apart(
    elements: Seq<OrderByElement>,
    groups: Seq<Seq<usize>>,
    ga: int,
    ia: int,
    gb: int,
    ib: int,
)
    requires
        keys_apart(element_keys(elements), groups),
        0 <= ga < groups.len() && 0 <= ia < groups[ga].len(),
        0 <= gb < groups.len() && 0 <= ib < groups[gb].len(),
        groups[ga][ia] < elements.len(),
        groups[gb][ib] < elements.len(),
        target_path(elements[groups[ga][ia] as int].target) == target_path(
            elements[groups[gb][ib] as int].target,
        ),
    ensures
        ga == gb,
{
    let keys = element_keys(elements);
    assert(keys[groups[ga][ia] as int] == keys[groups[gb][ib] as int]);
}

/// Groups the sort keys by their paths, columns and aggregates apart: the
/// groups of one kind hold, each in increasing order, the positions of the
/// sort keys of that kind whose paths have one key. Every position stands
/// in one group, once; sort keys with equal paths stand in one group, and
/// two groups of one kind never have the same path.
pub fn group_elements(elements: &Vec<OrderByElement>) -> (groups: OrderByElementGroups)
    ensures
        grouped_by_key(elements_view(elements@), element_keys(elements@), groups@.columns, true),
        grouped_by_key(
            elements_view(elements@),
            element_keys(elements@),
            groups@.aggregates,
            false,
        ),
        each_once(groups@.columns),
        each_once(groups@.aggregates),
        keys_apart(element_keys(elements@), groups@.columns),
        keys_apart(element_keys(elements@), groups@.aggregates),
        groups_wf(elements_view(elements@), groups@),
{
    let keys = path_keys(elements);
    group_by_keys(elements, &keys)
}

// What a group translates to

/// A sort key as it is selected from the table that is ordered.
#[derive(Debug)]
pub struct OrderBySelectExpression {
    pub index: usize,
    pub direction: OrderDirection,
    pub field_path: FieldPath,
    pub alias: ColumnAlias,
}

pub struct OrderBySelectExpressionView {
    pub index: usize,
    pub direction: OrderDirection,
    pub field_path: Seq<Seq<char>>,
    pub alias: Seq<char>,
}

impl View for OrderBySelectExpression {
    type V = OrderBySelectExpressionView;

    open spec fn view(&self) -> OrderBySelectExpressionView {
        OrderBySelectExpressionView {
            index: self.index,
            direction: self.direction,
            field_path: self.field_path@,
            alias: self.alias@,
        }
    }
}

/// The sort keys of a group whose path is empty, as references to columns
/// of the current table.
pub enum ColumnsOrSelect {
    Columns(Vec<(usize, OrderDirection, FieldPath, ColumnReference)>),
}

/// The direction of a sort key in a statement.
pub open spec fn direction_of(direction: OrderDirection) -> OrderByDirection {
    match direction {
        OrderDirection::Asc => OrderByDirection::Asc,
        OrderDirection::Desc => OrderByDirection::Desc,
    }
}

/// What is selected for a sort key at a position of the ordering: for a
/// column, the column under its own name, with its nested fields; for a
/// count of rows, `count`; for an aggregate of a column, the column. A sort
/// key that is reached through a relationship is not selected.
pub open spec fn target_selection(
    table: NamedTableView,
    element: OrderByElementView,
    index: usize,
) -> Result<OrderBySelectExpressionView, ErrorView> {
    if element.target.path_len() > 0 {
        Err(ErrorView::CapabilityNotSupported(UnsupportedCapabilities::Relationships))
    } else {
        match element.target {
            OrderByTargetView::Column { name, path_len, field_path } => match column_of(table, name) {
                Err(error) => Err(error),
                Ok(column) => Ok(
                    OrderBySelectExpressionView {
                        index,
                        direction: element.order_direction,
                        field_path,
                        alias: column.name,
                    },
                ),
            },
            OrderByTargetView::StarCountAggregate { path_len } => Ok(
                OrderBySelectExpressionView {
                    index,
                    direction: element.order_direction,
                    field_path: Seq::empty(),
                    alias: "count"@,
                },
            ),
            OrderByTargetView::SingleColumnAggregate { column, path_len } => match column_of(
                table,
                column,
            ) {
                Err(error) => Err(error),
                Ok(found) => Ok(
                    OrderBySelectExpressionView {
                        index,
                        direction: element.order_direction,
                        field_path: Seq::empty(),
                        alias: found.name,
                    },
                ),
            },
        }
    }
}

/// What is selected for the first `count` members of a group, or the error
/// of the first member that has one.
pub open spec fn group_selections(
    table: NamedTableView,
    elements: Seq<OrderByElementView>,
    members: Seq<usize>,
    count: nat,
) -> Result<Seq<OrderBySelectExpressionView>, ErrorView>
    decreases count,
{
    if 0 < count <= members.len() {
        match group_selections(table, elements, members, (count - 1) as nat) {
            Err(error) => Err(error),
            Ok(before) => match target_selection(
                table,
                elements[members[count - 1] as int],
                members[count - 1],
            ) {
                Err(error) => Err(error),
                Ok(selection) => Ok(before.push(selection)),
            },
        }
    } else {
        Ok(Seq::empty())
    }
}

/// The sort key of a statement for what is selected of the current table.
pub open spec fn sort_key(
    current_table: TableNameAndReferenceView,
    selection: OrderBySelectExpressionView,
) -> crate::sql::model::OrderByElementView {
    crate::sql::model::OrderByElementView {
        target: wrapped_in_field_path(
            selection.field_path,
            selection.field_path.len(),
            ExpressionView::ColumnReference(
                ColumnReferenceView::AliasedColumn {
                    table: current_table.reference,
                    column: selection.alias,
                },
            ),
        ),
        direction: direction_of(selection.direction),
    }
}

/// The sort keys of a group, each with its position in the ordering. The
/// group stands for the path of its first member. With an empty path, a
/// group of columns is read from the current table, and a group of
/// aggregates is an error, since there is nothing to aggregate over. With
/// another path the group is not translated.
pub open spec fn group_sort_keys(
    metadata: MetadataView,
    tables: RootAndCurrentTablesView,
    elements: Seq<OrderByElementView>,
    members: Seq<usize>,
    columns: bool,
) -> Result<Seq<(usize, crate::sql::model::OrderByElementView)>, ErrorView> {
    if elements[members[0] as int].target.path_len() > 0 {
        Err(ErrorView::CapabilityNotSupported(UnsupportedCapabilities::Relationships))
    } else if !columns {
        Err(ErrorView::EmptyPathForOrderByAggregate)
    } else {
        match collection_of(metadata, tables.current_table.name) {
            Err(error) => Err(error),
            Ok(table) => match group_selections(table, elements, members, members.len()) {
                Err(error) => Err(error),
                Ok(selections) => Ok(sort_keys(tables.current_table, selections)),
            },
        }
    }
}

/// The error of the first of the first `count` groups that has one.
pub open spec fn first_group_error(
    metadata: MetadataView,
    tables: RootAndCurrentTablesView,
    elements: Seq<OrderByElementView>,
    groups: Seq<Seq<usize>>,
    count: nat,
    columns: bool,
) -> Option<ErrorView>
    decreases count,
{
    if 0 < count <= groups.len() {
        match first_group_error(metadata, tables, elements, groups, (count - 1) as nat, columns) {
            Some(error) => Some(error),
            None => match group_sort_keys(metadata, tables, elements, groups[count - 1], columns) {
                Err(error) => Some(error),
                Ok(_) => None,
            },
        }
    } else {
        None
    }
}

/// The sort key of a statement for a sort key of the request that is read
/// from the current table.
pub open spec fn direct_sort_key(
    metadata: MetadataView,
    tables: RootAndCurrentTablesView,
    element: OrderByElementView,
) -> crate::sql::model::OrderByElementView {
    sort_key(
        tables.current_table,
        target_selection(collection_of(metadata, tables.current_table.name)->Ok_0, element, 0)->Ok_0,
    )
}

/// The ordering that the groups of the sort keys give: the groups of
/// columns are translated first, then those of aggregates, each kind in the
/// order of its groups, and the first group that has an error gives the
/// error of the whole. Where no group has one, the sort keys stand in the
/// order of the request.
pub open spec fn grouped_order_by(
    metadata: MetadataView,
    tables: RootAndCurrentTablesView,
    elements: Seq<OrderByElementView>,
    groups: OrderByElementGroupsView,
) -> Result<Seq<crate::sql::model::OrderByElementView>, ErrorView> {
    match first_group_error(
        metadata,
        tables,
        elements,
        groups.columns,
        groups.columns.len(),
        true,
    ) {
        Some(error) => Err(error),
        None => match first_group_error(
            metadata,
            tables,
            elements,
            groups.aggregates,
            groups.aggregates.len(),
            false,
        ) {
            Some(error) => Err(error),
            None => Ok(
                Seq::new(elements.len(), |i: int| direct_sort_key(metadata, tables, elements[i])),
            ),
        },
    }
}

/// Once a member of a group has an error, the group has that error however
/// many members are read.
proof fn lemma_group_selections_error(
    table: NamedTableView,
    elements: Seq<OrderByElementView>,
    members: Seq<usize>,
    count: nat,
    more: nat,
)
    requires
        group_selections(table, elements, members, count) is Err,
        count <= more <= members.len(),
    ensures
        group_selections(table, elements, members, more) == group_selections(
            table,
            elements,
            members,
            count,
        ),
    decreases more,
{
    if count < more {
        lemma_group_selections_error(table, elements, members, count, (more - 1) as nat);
    }
}

/// Once a group has an error, that group is the first with an error
/// however many groups are read.
proof fn lemma_first_group_error(
    metadata: MetadataView,
    tables: RootAndCurrentTablesView,
    elements: Seq<OrderByElementView>,
    groups: Seq<Seq<usize>>,
    count: nat,
    more: nat,
    columns: bool,
)
    requires
        first_group_error(metadata, tables, elements, groups, count, columns) is Some,
        count <= more <= groups.len(),
    ensures
        first_group_error(metadata, tables, elements, groups, more, columns) == first_group_error(
            metadata,
            tables,
            elements,
            groups,
            count,
            columns,
        ),
    decreases more,
{
    if count < more {
        lemma_first_group_error(metadata, tables, elements, groups, count, (more - 1) as nat, columns);
    }
}

/// The views of a list of sort keys of the request.
pub open spec fn elements_view(elements: Seq<OrderByElement>) -> Seq<OrderByElementView> {
    elements.map_values(|e: OrderByElement| e@)
}

/// All members of a group are positions of the ordering.
pub open spec fn members_in_range(members: Seq<usize>, len: nat) -> bool {
    forall|q: int| 0 <= q < members.len() ==> (#[trigger] members[q]) < len
}

/// Takes a group and says what is selected for each of its members, with
/// the member's direction and its position in the ordering.
fn translate_targets(
    target_collection: &CollectionInfo,
    _table: &TableNameAndReference,
    elements: &Vec<OrderByElement>,
    members: &Vec<usize>,
) -> (result: Result<Vec<OrderBySelectExpression>, Error>)
    requires
        members_in_range(members@, elements@.len()),
    ensures
        match result {
            Ok(selections) => Ok(selections@.map_values(|s: OrderBySelectExpression| s@)),
            Err(error) => Err(error@),
        } == group_selections(
            target_collection@,
            elements_view(elements@),
            members@,
            members@.len(),
        ),
{
    let ghost views = elements_view(elements@);
    let mut selections: Vec<OrderBySelectExpression> = Vec::new();
    let mut position: usize = 0;
    assert(selections@.map_values(|s: OrderBySelectExpression| s@) =~= Seq::empty());
    while position < members.len()
        invariant
            position <= members.len(),
            views == elements_view(elements@),
            members_in_range(members@, elements@.len()),
            group_selections(target_collection@, views, members@, position as nat) == Ok::<
                Seq<OrderBySelectExpressionView>,
                ErrorView,
            >(selections@.map_values(|s: OrderBySelectExpression| s@)),
        decreases members.len() - position,
    {
        let ghost before = selections@.map_values(|s: OrderBySelectExpression| s@);
        let index = members[position];
        let element = &elements[index];
        assert(views[index as int] == element@);
        let translated = if path_of(element).len() > 0 {
            Err(Error::CapabilityNotSupported(UnsupportedCapabilities::Relationships))
        } else {
            match &element.target {
            OrderByTarget::Column { name, path: _, field_path } => {
                match target_collection.lookup_column(name) {
                    // The column is selected under its own name and not
                    // under an alias of the request.
                    Ok(selected_column) => Ok(
                        OrderBySelectExpression {
                            index,
                            direction: element.order_direction,
                            alias: make_column_alias(selected_column.name.0),
                            field_path: FieldPath::from(field_path),
                        },
                    ),
                    Err(error) => Err(error),
                }
            },
            OrderByTarget::StarCountAggregate { path: _ } => Ok(
                OrderBySelectExpression {
                    index,
                    direction: element.order_direction,
                    alias: make_column_alias(String::from_str("count")),
                    // Aggregates do not have a field path.
                    field_path: FieldPath::from(&None),
                },
            ),
            OrderByTarget::SingleColumnAggregate { column, function: _, path: _, field_path: _ } => {
                match target_collection.lookup_column(column) {
                    Ok(selected_column) => Ok(
                        OrderBySelectExpression {
                            index,
                            direction: element.order_direction,
                            alias: make_column_alias(selected_column.name.0),
                            // Aggregates do not have a field path.
                            field_path: FieldPath::from(&None),
                        },
                    ),
                    Err(error) => Err(error),
                }
            },
        }
        };
        match translated {
            Ok(selection) => {
                selections.push(selection);
                assert(selections@.map_values(|s: OrderBySelectExpression| s@) =~= before.push(
                    selection@,
                ));
            },
            Err(error) => {
                proof {
                    lemma_group_selections_error(
                        target_collection@,
                        views,
                        members@,
                        (position + 1) as nat,
                        members@.len(),
                    );
                }
                return Err(error);
            },
        }
        position += 1;
    }
    Ok(selections)
}

/// The view of the references to the columns of a group.
pub open spec fn columns_view(
    columns: Seq<(usize, OrderDirection, FieldPath, ColumnReference)>,
) -> Seq<(usize, crate::sql::model::OrderByElementView)> {
    columns.map_values(
        |c: (usize, OrderDirection, FieldPath, ColumnReference)|
            (
                c.0,
                crate::sql::model::OrderByElementView {
                    target: wrapped_in_field_path(
                        c.2@,
                        c.2@.len(),
                        ExpressionView::ColumnReference(c.3@),
                    ),
                    direction: direction_of(c.1),
                },
            ),
    )
}

/// The sort keys of a statement for what is selected of the current table,
/// each with its position in the ordering.
pub open spec fn sort_keys(
    current_table: TableNameAndReferenceView,
    selections: Seq<OrderBySelectExpressionView>,
) -> Seq<(usize, crate::sql::model::OrderByElementView)> {
    selections.map_values(|s: OrderBySelectExpressionView| (s.index, sort_key(current_table, s)))
}

/// References to the columns of the current table that are selected.
fn references_of(
    selections: &Vec<OrderBySelectExpression>,
    current_table: &TableNameAndReference,
) -> (found: Vec<(usize, OrderDirection, FieldPath, ColumnReference)>)
    ensures
        columns_view(found@) == sort_keys(
            current_table@,
            selections@.map_values(|s: OrderBySelectExpression| s@),
        ),
{
    let ghost selected = selections@.map_values(|s: OrderBySelectExpression| s@);
    let ghost wanted = sort_keys(current_table@, selected);
    let mut found: Vec<(usize, OrderDirection, FieldPath, ColumnReference)> = Vec::new();
    let mut position: usize = 0;
    while position < selections.len()
        invariant
            position <= selections.len(),
            selected == selections@.map_values(|s: OrderBySelectExpression| s@),
            wanted == sort_keys(current_table@, selected),
            columns_view(found@) =~= wanted.take(position as int),
        decreases selections.len() - position,
    {
        let ghost before = columns_view(found@);
        let column = &selections[position];
        let reference = ColumnReference::AliasedColumn {
            table: current_table.reference.clone(),
            column: column.alias.clone(),
        };
        let path = FieldPath(copy_names(&column.field_path.0));
        let entry = (column.index, column.direction, path, reference);
        let ghost single = columns_view(seq![entry]);
        assert(single[0] == wanted[position as int]);
        found.push(entry);
        assert(columns_view(found@) =~= before.push(wanted[position as int]));
        position += 1;
    }
    assert(wanted.take(selections@.len() as int) =~= wanted);
    found
}

/// The view of what a group was found to be, or of an error.
pub open spec fn columns_or_select_view(result: Result<ColumnsOrSelect, Error>) -> Result<
    Seq<(usize, crate::sql::model::OrderByElementView)>,
    ErrorView,
> {
    match result {
        Ok(ColumnsOrSelect::Columns(found)) => Ok(columns_view(found@)),
        Err(error) => Err(error@),
    }
}

/// Says how the sort keys of a group are reached: directly, as columns of
/// the current table, where the path of the group is empty.
fn build_select_and_joins_for_order_by_group(
    env: &Env,
    _state: &mut State,
    root_and_current_tables: &RootAndCurrentTables,
    elements: &Vec<OrderByElement>,
    members: &Vec<usize>,
    columns: bool,
) -> (result: Result<ColumnsOrSelect, Error>)
    requires
        members@.len() > 0,
        members_in_range(members@, elements@.len()),
    ensures
        columns_or_select_view(result) == group_sort_keys(
            env@,
            root_and_current_tables@,
            elements_view(elements@),
            members@,
            columns,
        ),
        final(_state)@ == old(_state)@,
{
    let leader = members[0];
    assert(elements_view(elements@)[leader as int] == elements[leader as int]@);
    let path = path_of(&elements[leader]);
    if path.len() > 0 {
        // The sort keys of the group are reached through a relationship.
        return Err(Error::CapabilityNotSupported(UnsupportedCapabilities::Relationships));
    }
    if !columns {
        // Cannot do an aggregation over an empty path. Must be a relationship.
        return Err(Error::EmptyPathForOrderByAggregate);
    }
    // If the path is empty, we don't need to build a query, just return the columns.
    let table = match env.lookup_collection(&root_and_current_tables.current_table.name) {
        Ok(table) => table,
        Err(error) => {
            return Err(error);
        },
    };
    let selections = match translate_targets(
        &table,
        &root_and_current_tables.current_table,
        elements,
        members,
    ) {
        Ok(selections) => selections,
        Err(error) => {
            return Err(error);
        },
    };
    let found = references_of(&selections, &root_and_current_tables.current_table);
    Ok(ColumnsOrSelect::Columns(found))
}

/// The views of sort keys with their positions.
pub open spec fn parts_view(parts: Seq<(usize, crate::sql::ast::OrderByElement)>) -> Seq<
    (usize, crate::sql::model::OrderByElementView),
> {
    parts.map_values(|p: (usize, crate::sql::ast::OrderByElement)| (p.0, p.1@))
}

/// The view of the sort keys of a group, or of an error.
pub open spec fn group_result_view(
    result: Result<Vec<(usize, crate::sql::ast::OrderByElement)>, Error>,
) -> Result<Seq<(usize, crate::sql::model::OrderByElementView)>, ErrorView> {
    match result {
        Ok(parts) => Ok(parts_view(parts@)),
        Err(error) => Err(error@),
    }
}

/// Translates a group into the sort keys of the statement, each with its
/// position in the ordering. No group that is translated asks for a join.
fn translate_order_by_target_group(
    env: &Env,
    state: &mut State,
    root_and_current_tables: &RootAndCurrentTables,
    elements: &Vec<OrderByElement>,
    members: &Vec<usize>,
    columns: bool,
    _joins: &mut Vec<Join>,
) -> (result: Result<Vec<(usize, crate::sql::ast::OrderByElement)>, Error>)
    requires
        members@.len() > 0,
        members_in_range(members@, elements@.len()),
    ensures
        group_result_view(result) == group_sort_keys(
            env@,
            root_and_current_tables@,
            elements_view(elements@),
            members@,
            columns,
        ),
        final(state)@ == old(state)@,
        final(_joins)@.len() == old(_joins)@.len(),
{
    let column_or_relationship_select = match build_select_and_joins_for_order_by_group(
        env,
        state,
        root_and_current_tables,
        elements,
        members,
        columns,
    ) {
        Ok(found) => found,
        Err(error) => {
            return Err(error);
        },
    };
    match column_or_relationship_select {
        // The column is from the source table, we just need to query it directly.
        ColumnsOrSelect::Columns(found) => {
            let ghost wanted = columns_view(found@);
            let mut parts: Vec<(usize, crate::sql::ast::OrderByElement)> = Vec::new();
            let mut position: usize = 0;
            while position < found.len()
                invariant
                    position <= found.len(),
                    wanted == columns_view(found@),
                    parts_view(parts@) =~= wanted.take(position as int),
                decreases found.len() - position,
            {
                let ghost before = parts_view(parts@);
                let column = &found[position];
                let element = crate::sql::ast::OrderByElement {
                    target: wrap_in_field_path(
                        &column.2,
                        Expression::ColumnReference(column.3.clone()),
                    ),
                    direction: match column.1 {
                        OrderDirection::Asc => OrderByDirection::Asc,
                        OrderDirection::Desc => OrderByDirection::Desc,
                    },
                };
                assert(element@ == wanted[position as int].1);
                parts.push((column.0, element));
                assert(parts_view(parts@) =~= before.push(wanted[position as int]));
                position += 1;
            }
            assert(wanted.take(found@.len() as int) =~= wanted);
            Ok(parts)
        },
    }
}

/// A slot holds the sort key of the statement for the sort key of the
/// request at its position.
pub open spec fn slot_filled(
    metadata: MetadataView,
    tables: RootAndCurrentTablesView,
    elements: Seq<OrderByElementView>,
    slots: Seq<Option<crate::sql::ast::OrderByElement>>,
    j: int,
) -> bool {
    slots[j] is Some && slots[j]->0@ == direct_sort_key(metadata, tables, elements[j])
}

/// Where a group has its selections, each member has its own, and the
/// selections are as many as the members.
proof fn lemma_group_selections_members(
    table: NamedTableView,
    elements: Seq<OrderByElementView>,
    members: Seq<usize>,
    count: nat,
)
    requires
        count <= members.len(),
        group_selections(table, elements, members, count) is Ok,
    ensures
        group_selections(table, elements, members, count)->Ok_0.len() == count,
        forall|q: int|
            0 <= q < count ==> target_selection(
                table,
                elements[members[q] as int],
                members[q],
            ) == Ok::<OrderBySelectExpressionView, ErrorView>(
                #[trigger] group_selections(table, elements, members, count)->Ok_0[q],
            ),
    decreases count,
{
    if count > 0 {
        lemma_group_selections_members(table, elements, members, (count - 1) as nat);
    }
}

/// What is selected for a sort key does not depend on its position, but
/// for the position that is noted in it.
proof fn lemma_target_selection_position(
    table: NamedTableView,
    element: OrderByElementView,
    index: usize,
    other: usize,
)
    ensures
        target_selection(table, element, index) is Ok <==> target_selection(table, element, other) is Ok,
        target_selection(table, element, index) is Ok ==> target_selection(
            table,
            element,
            other,
        )->Ok_0 == (OrderBySelectExpressionView {
            index: other,
            ..target_selection(table, element, index)->Ok_0
        }),
        target_selection(table, element, index) is Err ==> target_selection(table, element, other)
            == target_selection(table, element, index),
{
}

/// The sort keys of a group that has no error are the sort keys of its
/// members, each at the member's position.
proof fn lemma_group_sort_keys(
    metadata: MetadataView,
    tables: RootAndCurrentTablesView,
    elements: Seq<OrderByElementView>,
    members: Seq<usize>,
    columns: bool,
)
    requires
        group_sort_keys(metadata, tables, elements, members, columns) is Ok,
    ensures
        columns,
        elements[members[0] as int].target.path_len() == 0,
        collection_of(metadata, tables.current_table.name) is Ok,
        group_sort_keys(metadata, tables, elements, members, columns)->Ok_0.len() == members.len(),
        forall|q: int|
            0 <= q < members.len() ==> (#[trigger] group_sort_keys(
                metadata,
                tables,
                elements,
                members,
                columns,
            )->Ok_0[q]) == (members[q], direct_sort_key(metadata, tables, elements[members[q] as int]))
                && target_selection(
                collection_of(metadata, tables.current_table.name)->Ok_0,
                elements[members[q] as int],
                0,
            ) is Ok,
{
    let table = collection_of(metadata, tables.current_table.name)->Ok_0;
    lemma_group_selections_members(table, elements, members, members.len());
    let selections = group_selections(table, elements, members, members.len())->Ok_0;
    assert forall|q: int| 0 <= q < members.len() implies (#[trigger] group_sort_keys(
        metadata,
        tables,
        elements,
        members,
        columns,
    )->Ok_0[q]) == (members[q], direct_sort_key(metadata, tables, elements[members[q] as int]))
        && target_selection(table, elements[members[q] as int], 0) is Ok by {
        lemma_target_selection_position(table, elements[members[q] as int], members[q], 0);
        assert(selections[q] == target_selection(
            table,
            elements[members[q] as int],
            members[q],
        )->Ok_0);
    }
}

/// Every slot that was filled before is filled after.
pub open spec fn slots_kept(
    metadata: MetadataView,
    tables: RootAndCurrentTablesView,
    elements: Seq<OrderByElementView>,
    before: Seq<Option<crate::sql::ast::OrderByElement>>,
    after: Seq<Option<crate::sql::ast::OrderByElement>>,
) -> bool {
    forall|j: int|
        0 <= j < elements.len() && slot_filled(metadata, tables, elements, before, j)
            ==> #[trigger] slot_filled(metadata, tables, elements, after, j)
}

/// The slots of the members from `from` on of one group are filled.
pub open spec fn members_filled(
    metadata: MetadataView,
    tables: RootAndCurrentTablesView,
    elements: Seq<OrderByElementView>,
    slots: Seq<Option<crate::sql::ast::OrderByElement>>,
    members: Seq<usize>,
    from: int,
) -> bool {
    forall|q: int|
        from <= q < members.len() ==> slot_filled(
            metadata,
            tables,
            elements,
            slots,
            (#[trigger] members[q]) as int,
        )
}

/// The slots of all members of the first `count` groups are filled.
pub open spec fn groups_filled(
    metadata: MetadataView,
    tables: RootAndCurrentTablesView,
    elements: Seq<OrderByElementView>,
    slots: Seq<Option<crate::sql::ast::OrderByElement>>,
    groups: Seq<Seq<usize>>,
    count: int,
) -> bool {
    forall|p: int|
        0 <= p < count ==> members_filled(metadata, tables, elements, slots, #[trigger] groups[p], 0)
}

/// All groups have members, and all members are positions of the ordering.
pub open spec fn groups_in_range(groups: Seq<Seq<usize>>, len: nat) -> bool {
    forall|p: int|
        0 <= p < groups.len() ==> (#[trigger] groups[p]).len() > 0 && members_in_range(
            groups[p],
            len,
        )
}

/// Filling one slot keeps the filled slots filled.
proof fn lemma_slot_set(
    metadata: MetadataView,
    tables: RootAndCurrentTablesView,
    elements: Seq<OrderByElementView>,
    before: Seq<Option<crate::sql::ast::OrderByElement>>,
    after: Seq<Option<crate::sql::ast::OrderByElement>>,
    position: int,
    start: Seq<Option<crate::sql::ast::OrderByElement>>,
    groups: Seq<Seq<usize>>,
    count: int,
    members: Seq<usize>,
    from: int,
)
    requires
        0 <= position < before.len(),
        before.len() == elements.len(),
        after == before.update(position, after[position]),
        slot_filled(metadata, tables, elements, after, position),
        0 < from <= members.len(),
        members[from - 1] == position,
        0 <= count <= groups.len(),
        groups_in_range(groups, elements.len()),
        members_in_range(members, elements.len()),
        slots_kept(metadata, tables, elements, start, before),
        groups_filled(metadata, tables, elements, before, groups, count),
        members_filled(metadata, tables, elements, before, members, from),
    ensures
        slots_kept(metadata, tables, elements, start, after),
        groups_filled(metadata, tables, elements, after, groups, count),
        members_filled(metadata, tables, elements, after, members, from - 1),
{
    assert forall|j: int|
        0 <= j < elements.len() && slot_filled(
            metadata,
            tables,
            elements,
            before,
            j,
        ) implies slot_filled(metadata, tables, elements, after, j) by {
        if j != position {
            assert(after[j] == before[j]);
        }
    }
    assert forall|p: int| 0 <= p < count implies members_filled(
        metadata,
        tables,
        elements,
        after,
        #[trigger] groups[p],
        0,
    ) by {
        assert(members_filled(metadata, tables, elements, before, groups[p], 0));
        assert forall|q: int| 0 <= q < groups[p].len() implies slot_filled(
            metadata,
            tables,
            elements,
            after,
            (#[trigger] groups[p][q]) as int,
        ) by {
            assert(groups[p][q] < elements.len());
            assert(slot_filled(metadata, tables, elements, before, groups[p][q] as int));
        }
    }
    assert forall|q: int| from - 1 <= q < members.len() implies slot_filled(
        metadata,
        tables,
        elements,
        after,
        (#[trigger] members[q]) as int,
    ) by {
        if q >= from {
            assert(members[q] < elements.len());
            assert(slot_filled(metadata, tables, elements, before, members[q] as int));
        }
    }
}

/// Puts the sort keys of one group into the slots of their positions.
fn place_parts(
    env: &Env,
    root_and_current_tables: &RootAndCurrentTables,
    elements: &Vec<OrderByElement>,
    parts: Vec<(usize, crate::sql::ast::OrderByElement)>,
    slots: &mut Vec<Option<crate::sql::ast::OrderByElement>>,
    Ghost(groups): Ghost<Seq<Seq<usize>>>,
    Ghost(count): Ghost<int>,
    Ghost(members): Ghost<Seq<usize>>,
    Ghost(start): Ghost<Seq<Option<crate::sql::ast::OrderByElement>>>,
)
    requires
        old(slots)@.len() == elements@.len(),
        parts@.len() == members.len(),
        members_in_range(members, elements@.len()),
        0 <= count <= groups.len(),
        groups_in_range(groups, elements@.len()),
        forall|q: int|
            0 <= q < members.len() ==> (#[trigger] parts_view(parts@)[q]) == (
                members[q],
                direct_sort_key(
                    env@,
                    root_and_current_tables@,
                    elements_view(elements@)[members[q] as int],
                ),
            ),
        slots_kept(env@, root_and_current_tables@, elements_view(elements@), start, old(slots)@),
        groups_filled(
            env@,
            root_and_current_tables@,
            elements_view(elements@),
            old(slots)@,
            groups,
            count,
        ),
    ensures
        final(slots)@.len() == elements@.len(),
        slots_kept(env@, root_and_current_tables@, elements_view(elements@), start, final(slots)@),
        groups_filled(
            env@,
            root_and_current_tables@,
            elements_view(elements@),
            final(slots)@,
            groups,
            count,
        ),
        members_filled(
            env@,
            root_and_current_tables@,
            elements_view(elements@),
            final(slots)@,
            members,
            0,
        ),
{
    let ghost views = elements_view(elements@);
    let ghost wanted = parts_view(parts@);
    let mut parts = parts;
    while parts.len() > 0
        invariant
            views == elements_view(elements@),
            slots@.len() == elements@.len(),
            wanted.len() == members.len(),
            members_in_range(members, elements@.len()),
            0 <= count <= groups.len(),
            groups_in_range(groups, elements@.len()),
            parts_view(parts@) =~= wanted.take(parts@.len() as int),
            parts@.len() <= wanted.len(),
            forall|q: int|
                0 <= q < members.len() ==> (#[trigger] wanted[q]) == (
                    members[q],
                    direct_sort_key(env@, root_and_current_tables@, views[members[q] as int]),
                ),
            slots_kept(env@, root_and_current_tables@, views, start, slots@),
            groups_filled(env@, root_and_current_tables@, views, slots@, groups, count),
            members_filled(
                env@,
                root_and_current_tables@,
                views,
                slots@,
                members,
                parts@.len() as int,
            ),
        decreases parts.len(),
    {
        let ghost before = parts_view(parts@);
        let ghost slots_before = slots@;
        let ghost from = parts@.len() as int;
        let (position, element) = parts.pop().unwrap();
        assert((position, element@) == before[from - 1]);
        assert(before[from - 1] == wanted[from - 1]);
        assert(position == members[from - 1]);
        slots[position] = Some(element);
        proof {
            assert(slots@ =~= slots_before.update(position as int, slots@[position as int]));
            lemma_slot_set(
                env@,
                root_and_current_tables@,
                views,
                slots_before,
                slots@,
                position as int,
                start,
                groups,
                count,
                members,
                from,
            );
        }
    }
}

/// Translates the groups of one kind, in order, and puts each sort key of
/// the statement into the slot of its position in the ordering.
fn place_groups(
    env: &Env,
    state: &mut State,
    root_and_current_tables: &RootAndCurrentTables,
    elements: &Vec<OrderByElement>,
    groups: &Vec<Vec<usize>>,
    columns: bool,
    slots: &mut Vec<Option<crate::sql::ast::OrderByElement>>,
    joins: &mut Vec<Join>,
) -> (result: Result<(), Error>)
    requires
        old(slots)@.len() == elements@.len(),
        groups_in_range(groups_view(groups@), elements@.len()),
    ensures
        final(slots)@.len() == elements@.len(),
        final(state)@ == old(state)@,
        final(joins)@.len() == old(joins)@.len(),
        match result {
            Err(error) => first_group_error(
                env@,
                root_and_current_tables@,
                elements_view(elements@),
                groups_view(groups@),
                groups@.len(),
                columns,
            ) == Some(error@),
            Ok(_) => {
                &&& first_group_error(
                    env@,
                    root_and_current_tables@,
                    elements_view(elements@),
                    groups_view(groups@),
                    groups@.len(),
                    columns,
                ) is None
                &&& slots_kept(
                    env@,
                    root_and_current_tables@,
                    elements_view(elements@),
                    old(slots)@,
                    final(slots)@,
                )
                &&& groups_filled(
                    env@,
                    root_and_current_tables@,
                    elements_view(elements@),
                    final(slots)@,
                    groups_view(groups@),
                    groups@.len() as int,
                )
            },
        },
{
    let ghost views = elements_view(elements@);
    let ghost all = groups_view(groups@);
    let mut index: usize = 0;
    while index < groups.len()
        invariant
            index <= groups.len(),
            views == elements_view(elements@),
            all == groups_view(groups@),
            slots@.len() == elements@.len(),
            state@ == old(state)@,
            joins@.len() == old(joins)@.len(),
            groups_in_range(all, elements@.len()),
            first_group_error(env@, root_and_current_tables@, views, all, index as nat, columns) is None,
            slots_kept(env@, root_and_current_tables@, views, old(slots)@, slots@),
            groups_filled(env@, root_and_current_tables@, views, slots@, all, index as int),
        decreases groups.len() - index,
    {
        let members = &groups[index];
        assert(all[index as int] == members@);
        let parts = match translate_order_by_target_group(
            env,
            state,
            root_and_current_tables,
            elements,
            members,
            columns,
            joins,
        ) {
            Ok(parts) => parts,
            Err(error) => {
                proof {
                    lemma_first_group_error(
                        env@,
                        root_and_current_tables@,
                        views,
                        all,
                        (index + 1) as nat,
                        all.len(),
                        columns,
                    );
                }
                return Err(error);
            },
        };
        proof {
            lemma_group_sort_keys(env@, root_and_current_tables@, views, members@, columns);
        }
        place_parts(
            env,
            root_and_current_tables,
            elements,
            parts,
            slots,
            Ghost(all),
            Ghost(index as int),
            Ghost(members@),
            Ghost(old(slots)@),
        );
        index += 1;
    }
    Ok(())
}

/// What the slots hold, where none is empty.
fn take_all(slots: Vec<Option<crate::sql::ast::OrderByElement>>) -> (taken: Vec<
    crate::sql::ast::OrderByElement,
>)
    requires
        forall|j: int| 0 <= j < slots@.len() ==> (#[trigger] slots@[j]) is Some,
    ensures
        taken@.len() == slots@.len(),
        forall|j: int| 0 <= j < slots@.len() ==> (#[trigger] taken@[j]) == slots@[j]->0,
{
    let mut slots = slots;
    let ghost all = slots@;
    let mut backwards: Vec<crate::sql::ast::OrderByElement> = Vec::new();
    while slots.len() > 0
        invariant
            slots@ =~= all.take(slots@.len() as int),
            slots@.len() + backwards@.len() == all.len(),
            forall|j: int| 0 <= j < all.len() ==> (#[trigger] all[j]) is Some,
            forall|k: int|
                0 <= k < backwards@.len() ==> (#[trigger] backwards@[k]) == all[all.len() - 1 - k]->0,
        decreases slots.len(),
    {
        let slot = slots.pop().unwrap();
        match slot {
            Some(element) => {
                backwards.push(element);
            },
            None => {},
        }
    }
    reversed(backwards)
}

/// The view of an ordering with its joins, or of an error.
pub open spec fn order_by_view(
    result: Result<(crate::sql::ast::OrderBy, Vec<Join>), Error>,
) -> Result<Seq<crate::sql::model::OrderByElementView>, ErrorView> {
    match result {
        Ok(pair) => Ok(pair.0@),
        Err(error) => Err(error@),
    }
}

/// Whether a translation of an ordering came back without joins.
pub open spec fn no_order_by_joins(
    result: Result<(crate::sql::ast::OrderBy, Vec<Join>), Error>,
) -> bool {
    match result {
        Ok(pair) => pair.1@.len() == 0,
        Err(error) => true,
    }
}

/// Translates the sort keys of a request, group by group, and puts the
/// sort keys of the statement back into the order of the request.
pub fn translate_order_by_groups(
    env: &Env,
    state: &mut State,
    root_and_current_tables: &RootAndCurrentTables,
    elements: &Vec<OrderByElement>,
    groups: &OrderByElementGroups,
) -> (result: Result<(crate::sql::ast::OrderBy, Vec<Join>), Error>)
    requires
        groups_wf(elements_view(elements@), groups@),
    ensures
        order_by_view(result) == grouped_order_by(
            env@,
            root_and_current_tables@,
            elements_view(elements@),
            groups@,
        ),
        no_order_by_joins(result),
        final(state)@ == old(state)@,
{
    let ghost views = elements_view(elements@);
    let mut joins: Vec<Join> = Vec::new();
    let mut slots: Vec<Option<crate::sql::ast::OrderByElement>> = Vec::new();
    let mut index: usize = 0;
    while index < elements.len()
        invariant
            index <= elements.len(),
            slots@.len() == index,
        decreases elements.len() - index,
    {
        slots.push(None);
        index += 1;
    }
    proof {
        lemma_groups_in_range(views, groups@.columns, true);
        lemma_groups_in_range(views, groups@.aggregates, false);
    }
    match place_groups(
        env,
        state,
        root_and_current_tables,
        elements,
        &groups.columns,
        true,
        &mut slots,
        &mut joins,
    ) {
        Ok(_) => {},
        Err(error) => {
            return Err(error);
        },
    }
    let ghost after_columns = slots@;
    match place_groups(
        env,
        state,
        root_and_current_tables,
        elements,
        &groups.aggregates,
        false,
        &mut slots,
        &mut joins,
    ) {
        Ok(_) => {},
        Err(error) => {
            return Err(error);
        },
    }
    proof {
        lemma_all_filled(env@, root_and_current_tables@, views, groups@, after_columns, slots@);
    }
    let ghost filled_slots = slots@;
    assert forall|j: int| 0 <= j < slots@.len() implies (#[trigger] slots@[j]) is Some by {
        assert(slot_filled(env@, root_and_current_tables@, views, slots@, j));
    }
    let order_by_columns = take_all(slots);
    let order_by = crate::sql::ast::OrderBy { elements: order_by_columns };
    assert(order_by@ =~= Seq::new(
        views.len(),
        |i: int| direct_sort_key(env@, root_and_current_tables@, views[i]),
    )) by {
        assert forall|i: int| 0 <= i < views.len() implies order_by@[i] == direct_sort_key(
            env@,
            root_and_current_tables@,
            views[i],
        ) by {
            assert(slot_filled(env@, root_and_current_tables@, views, filled_slots, i));
            assert(order_by.elements@[i] == filled_slots[i]->0);
        }
    }
    Ok((order_by, joins))
}

/// Where the slots of all members of all groups are filled, all slots are
/// filled.
proof fn lemma_all_filled(
    metadata: MetadataView,
    tables: RootAndCurrentTablesView,
    elements: Seq<OrderByElementView>,
    groups: OrderByElementGroupsView,
    between: Seq<Option<crate::sql::ast::OrderByElement>>,
    slots: Seq<Option<crate::sql::ast::OrderByElement>>,
)
    requires
        groups_wf(elements, groups),
        slots.len() == elements.len(),
        groups_filled(
            metadata,
            tables,
            elements,
            between,
            groups.columns,
            groups.columns.len() as int,
        ),
        slots_kept(metadata, tables, elements, between, slots),
        groups_filled(
            metadata,
            tables,
            elements,
            slots,
            groups.aggregates,
            groups.aggregates.len() as int,
        ),
    ensures
        forall|j: int|
            0 <= j < slots.len() ==> #[trigger] slot_filled(metadata, tables, elements, slots, j),
{
    assert forall|j: int| 0 <= j < slots.len() implies #[trigger] slot_filled(
        metadata,
        tables,
        elements,
        slots,
        j,
    ) by {
        if is_column(elements[j]) {
            let (p, q) = choose|p: int, q: int|
                0 <= p < groups.columns.len() && 0 <= q < groups.columns[p].len()
                    && groups.columns[p][q] == j;
            assert(members_filled(metadata, tables, elements, between, groups.columns[p], 0));
            assert(slot_filled(metadata, tables, elements, between, groups.columns[p][q] as int));
        } else {
            let (p, q) = choose|p: int, q: int|
                0 <= p < groups.aggregates.len() && 0 <= q < groups.aggregates[p].len()
                    && groups.aggregates[p][q] == j;
            assert(members_filled(metadata, tables, elements, slots, groups.aggregates[p], 0));
            assert(slot_filled(metadata, tables, elements, slots, groups.aggregates[p][q] as int));
        }
    }
}

/// Groups that cover the sort keys have members and hold positions of the
/// ordering.
proof fn lemma_groups_in_range(
    elements: Seq<OrderByElementView>,
    groups: Seq<Seq<usize>>,
    columns: bool,
)
    requires
        groups_cover(elements, groups, columns),
    ensures
        groups_in_range(groups, elements.len()),
{
    assert forall|p: int| 0 <= p < groups.len() implies (#[trigger] groups[p]).len() > 0
        && members_in_range(groups[p], elements.len()) by {
        assert forall|q: int| 0 <= q < groups[p].len() implies (#[trigger] groups[p][q])
            < elements.len() by {
            assert(groups[p][q] < elements.len());
        }
    }
}

// What holds of an ordering however its sort keys are grouped

/// The table that is ordered.
pub open spec fn ordered_table(metadata: MetadataView, tables: RootAndCurrentTablesView) -> Result<
    NamedTableView,
    ErrorView,
> {
    collection_of(metadata, tables.current_table.name)
}

/// A sort key is a column of the table that is ordered.
pub open spec fn column_found(
    metadata: MetadataView,
    tables: RootAndCurrentTablesView,
    element: OrderByElementView,
) -> bool {
    is_column(element) && target_selection(ordered_table(metadata, tables)->Ok_0, element, 0) is Ok
}

/// The table that is ordered is known, and every sort key is a column of it
/// that no relationship leads to.
pub open spec fn all_plain(
    metadata: MetadataView,
    tables: RootAndCurrentTablesView,
    elements: Seq<OrderByElementView>,
) -> bool {
    &&& ordered_table(metadata, tables) is Ok
    &&& forall|j: int|
        0 <= j < elements.len() ==> column_found(metadata, tables, #[trigger] elements[j])
            && elements[j].target.path_len() == 0
}

/// Every sort key is a column of the table that is ordered, which is known
/// where there is a sort key.
pub open spec fn all_found(
    metadata: MetadataView,
    tables: RootAndCurrentTablesView,
    elements: Seq<OrderByElementView>,
) -> bool {
    &&& elements.len() > 0 ==> ordered_table(metadata, tables) is Ok
    &&& forall|j: int|
        0 <= j < elements.len() ==> column_found(metadata, tables, #[trigger] elements[j])
}

/// Some sort key is reached through a relationship.
pub open spec fn through_relationship(elements: Seq<OrderByElementView>) -> bool {
    exists|j: int| 0 <= j < elements.len() && (#[trigger] elements[j]).target.path_len() > 0
}

/// An error that a sort key can give: that it is reached through a
/// relationship, that it is an aggregate over no relationship, or that its
/// column is not in the table that is ordered.
pub open spec fn element_error(
    metadata: MetadataView,
    tables: RootAndCurrentTablesView,
    element: OrderByElementView,
    error: ErrorView,
) -> bool {
    ||| element.target.path_len() > 0 && error == ErrorView::CapabilityNotSupported(
        UnsupportedCapabilities::Relationships,
    )
    ||| !is_column(element) && element.target.path_len() == 0 && error
        == ErrorView::EmptyPathForOrderByAggregate
    ||| ordered_table(metadata, tables) is Ok && target_selection(
        ordered_table(metadata, tables)->Ok_0,
        element,
        0,
    ) == Err::<OrderBySelectExpressionView, ErrorView>(error)
}

/// An error that an ordering can give: that the table that is ordered is
/// not known, or an error of one of its sort keys.
pub open spec fn possible_order_by_error(
    metadata: MetadataView,
    tables: RootAndCurrentTablesView,
    elements: Seq<OrderByElementView>,
    error: ErrorView,
) -> bool {
    ||| elements.len() > 0 && ordered_table(metadata, tables) == Err::<NamedTableView, ErrorView>(
        error,
    )
    ||| exists|j: int|
        0 <= j < elements.len() && element_error(metadata, tables, #[trigger] elements[j], error)
}

/// The sort keys of the statement for sort keys of the request that are all
/// read from the current table, in the order of the request.
pub open spec fn direct_order_by(
    metadata: MetadataView,
    tables: RootAndCurrentTablesView,
    elements: Seq<OrderByElementView>,
) -> Seq<crate::sql::model::OrderByElementView> {
    Seq::new(elements.len(), |i: int| direct_sort_key(metadata, tables, elements[i]))
}

/// What holds of the translation of an ordering, in whatever order the
/// groups of its sort keys are walked. No ordering gives no sort key. An
/// ordering is translated where all its sort keys are columns of the table
/// that is ordered, with no relationship on the way, and it is an error
/// where a relationship leads to one of them. Where it is
/// translated, the sort keys of the statement stand in the order of the
/// request. Where it is not, the error is one that the table or one of the
/// sort keys gives.
pub open spec fn order_by_outcome(
    metadata: MetadataView,
    tables: RootAndCurrentTablesView,
    order_by: Option<Seq<OrderByElementView>>,
    result: Result<Seq<crate::sql::model::OrderByElementView>, ErrorView>,
) -> bool {
    match order_by {
        None => result == Ok::<Seq<crate::sql::model::OrderByElementView>, ErrorView>(Seq::empty()),
        Some(elements) => {
            &&& all_plain(metadata, tables, elements) ==> result is Ok
            &&& through_relationship(elements) ==> result is Err
            &&& result is Ok ==> all_found(metadata, tables, elements) && result->Ok_0
                == direct_order_by(metadata, tables, elements)
            &&& result is Err ==> possible_order_by_error(
                metadata,
                tables,
                elements,
                result->Err_0,
            )
        },
    }
}

/// Where the first groups have no error, each of them has its sort keys.
proof fn lemma_no_group_error(
    metadata: MetadataView,
    tables: RootAndCurrentTablesView,
    elements: Seq<OrderByElementView>,
    groups: Seq<Seq<usize>>,
    count: nat,
    columns: bool,
)
    requires
        count <= groups.len(),
    ensures
        first_group_error(metadata, tables, elements, groups, count, columns) is None <==> forall|
            p: int,
        |
            0 <= p < count ==> (#[trigger] group_sort_keys(
                metadata,
                tables,
                elements,
                groups[p],
                columns,
            )) is Ok,
        first_group_error(metadata, tables, elements, groups, count, columns) is Some ==> exists|
            p: int,
        |
            0 <= p < count && (#[trigger] group_sort_keys(
                metadata,
                tables,
                elements,
                groups[p],
                columns,
            )) == Err::<Seq<(usize, crate::sql::model::OrderByElementView)>, ErrorView>(
                first_group_error(metadata, tables, elements, groups, count, columns)->0,
            ),
    decreases count,
{
    if count > 0 {
        lemma_no_group_error(metadata, tables, elements, groups, (count - 1) as nat, columns);
        let last = group_sort_keys(metadata, tables, elements, groups[count - 1], columns);
        if first_group_error(metadata, tables, elements, groups, count, columns) is Some {
            if first_group_error(
                metadata,
                tables,
                elements,
                groups,
                (count - 1) as nat,
                columns,
            ) is None {
                assert(last is Err);
            }
        }
    }
}

/// A group has its selections just where each member has its own, and an
/// error of the group is the error of one of its members.
proof fn lemma_group_selections(
    table: NamedTableView,
    elements: Seq<OrderByElementView>,
    members: Seq<usize>,
    count: nat,
)
    requires
        count <= members.len(),
    ensures
        group_selections(table, elements, members, count) is Ok <==> forall|q: int|
            0 <= q < count ==> target_selection(
                table,
                elements[(#[trigger] members[q]) as int],
                members[q],
            ) is Ok,
        group_selections(table, elements, members, count) is Err ==> exists|q: int|
            0 <= q < count && target_selection(
                table,
                elements[(#[trigger] members[q]) as int],
                members[q],
            ) == Err::<OrderBySelectExpressionView, ErrorView>(
                group_selections(table, elements, members, count)->Err_0,
            ),
    decreases count,
{
    if count > 0 {
        lemma_group_selections(table, elements, members, (count - 1) as nat);
        if group_selections(table, elements, members, count) is Err {
            if group_selections(table, elements, members, (count - 1) as nat) is Ok {
                assert(target_selection(
                    table,
                    elements[members[count - 1] as int],
                    members[count - 1],
                ) is Err);
            }
        }
    }
}

/// The error of a group is an error that the ordering can give.
proof fn lemma_group_error(
    metadata: MetadataView,
    tables: RootAndCurrentTablesView,
    elements: Seq<OrderByElementView>,
    members: Seq<usize>,
    columns: bool,
)
    requires
        members.len() > 0,
        members_in_range(members, elements.len()),
        forall|q: int|
            0 <= q < members.len() ==> is_column(elements[(#[trigger] members[q]) as int])
                == columns,
        group_sort_keys(metadata, tables, elements, members, columns) is Err,
    ensures
        possible_order_by_error(
            metadata,
            tables,
            elements,
            group_sort_keys(metadata, tables, elements, members, columns)->Err_0,
        ),
{
    let error = group_sort_keys(metadata, tables, elements, members, columns)->Err_0;
    let leader = members[0] as int;
    assert(members[0] < elements.len());
    if elements[leader].target.path_len() > 0 {
        assert(element_error(metadata, tables, elements[leader], error));
    } else if !columns {
        assert(element_error(metadata, tables, elements[leader], error));
    } else {
        match collection_of(metadata, tables.current_table.name) {
            Err(_) => {},
            Ok(table) => {
                lemma_group_selections(table, elements, members, members.len());
                let q = choose|q: int|
                    0 <= q < members.len() && target_selection(
                        table,
                        elements[(#[trigger] members[q]) as int],
                        members[q],
                    ) == Err::<OrderBySelectExpressionView, ErrorView>(error);
                lemma_target_selection_position(table, elements[members[q] as int], members[q], 0);
                assert(members[q] < elements.len());
                assert(element_error(metadata, tables, elements[members[q] as int], error));
            },
        }
    }
}

/// A group of columns of the table that is ordered, none of them reached
/// through a relationship, has its sort keys.
proof fn lemma_plain_group(
    metadata: MetadataView,
    tables: RootAndCurrentTablesView,
    elements: Seq<OrderByElementView>,
    members: Seq<usize>,
)
    requires
        members.len() > 0,
        members_in_range(members, elements.len()),
        all_plain(metadata, tables, elements),
    ensures
        group_sort_keys(metadata, tables, elements, members, true) is Ok,
{
    let table = collection_of(metadata, tables.current_table.name)->Ok_0;
    assert(members[0] < elements.len());
    assert(column_found(metadata, tables, elements[members[0] as int]));
    lemma_group_selections(table, elements, members, members.len());
    assert forall|q: int| 0 <= q < members.len() implies target_selection(
        table,
        elements[(#[trigger] members[q]) as int],
        members[q],
    ) is Ok by {
        assert(members[q] < elements.len());
        assert(column_found(metadata, tables, elements[members[q] as int]));
        lemma_target_selection_position(table, elements[members[q] as int], 0, members[q]);
    }
}

/// What the groups of the sort keys give is an outcome of the ordering,
/// whatever the groups are.
pub proof fn lemma_grouped_order_by(
    metadata: MetadataView,
    tables: RootAndCurrentTablesView,
    elements: Seq<OrderByElementView>,
    groups: OrderByElementGroupsView,
)
    requires
        groups_wf(elements, groups),
    ensures
        order_by_outcome(
            metadata,
            tables,
            Some(elements),
            grouped_order_by(metadata, tables, elements, groups),
        ),
{
    let result = grouped_order_by(metadata, tables, elements, groups);
    let columns = groups.columns;
    let aggregates = groups.aggregates;
    lemma_groups_in_range(elements, columns, true);
    lemma_groups_in_range(elements, aggregates, false);
    lemma_no_group_error(metadata, tables, elements, columns, columns.len(), true);
    lemma_no_group_error(metadata, tables, elements, aggregates, aggregates.len(), false);
    let column_error = first_group_error(metadata, tables, elements, columns, columns.len(), true);
    let aggregate_error = first_group_error(
        metadata,
        tables,
        elements,
        aggregates,
        aggregates.len(),
        false,
    );
    if result is Err {
        if column_error is Some {
            let p = choose|p: int|
                0 <= p < columns.len() && (#[trigger] group_sort_keys(
                    metadata,
                    tables,
                    elements,
                    columns[p],
                    true,
                )) == Err::<Seq<(usize, crate::sql::model::OrderByElementView)>, ErrorView>(
                    column_error->0,
                );
            assert(columns[p].len() > 0);
            lemma_group_error(metadata, tables, elements, columns[p], true);
        } else {
            let p = choose|p: int|
                0 <= p < aggregates.len() && (#[trigger] group_sort_keys(
                    metadata,
                    tables,
                    elements,
                    aggregates[p],
                    false,
                )) == Err::<Seq<(usize, crate::sql::model::OrderByElementView)>, ErrorView>(
                    aggregate_error->0,
                );
            assert(aggregates[p].len() > 0);
            lemma_group_error(metadata, tables, elements, aggregates[p], false);
        }
    } else {
        // No group has an error: there is no group of aggregates, and
        // every column is found.
        if aggregates.len() > 0 {
            assert(group_sort_keys(metadata, tables, elements, aggregates[0], false) is Ok);
            assert(false);
        }
        assert forall|j: int| 0 <= j < elements.len() implies column_found(
            metadata,
            tables,
            #[trigger] elements[j],
        ) && ordered_table(metadata, tables) is Ok by {
            if !is_column(elements[j]) {
                let (p, q) = choose|p: int, q: int|
                    0 <= p < aggregates.len() && 0 <= q < aggregates[p].len() && aggregates[p][q]
                        == j;
                assert(false);
            }
            let (p, q) = choose|p: int, q: int|
                0 <= p < columns.len() && 0 <= q < columns[p].len() && columns[p][q] == j;
            assert(group_sort_keys(metadata, tables, elements, columns[p], true) is Ok);
            lemma_group_sort_keys(metadata, tables, elements, columns[p], true);
            let sort_keys = group_sort_keys(metadata, tables, elements, columns[p], true)->Ok_0;
            assert(sort_keys[q].0 == columns[p][q]);
        }
        if elements.len() > 0 {
            assert(column_found(metadata, tables, elements[0]));
        }
    }
    if all_plain(metadata, tables, elements) {
        assert forall|p: int| 0 <= p < columns.len() implies (#[trigger] group_sort_keys(
            metadata,
            tables,
            elements,
            columns[p],
            true,
        )) is Ok by {
            assert(columns[p].len() > 0);
            lemma_plain_group(metadata, tables, elements, columns[p]);
        }
        if aggregates.len() > 0 {
            assert(aggregates[0].len() > 0);
            assert(aggregates[0][0] < elements.len());
            assert(column_found(metadata, tables, elements[aggregates[0][0] as int]));
            assert(false);
        }
    }
}

/// Translates the ordering of a request into an `ORDER BY` clause. The sort
/// keys are grouped by the paths that lead to them and translated group by
/// group; the sort keys of the statement stand in the order of the request.
/// Which error comes back where several sort keys have one depends on the
/// order in which the groups are walked, which is not known.
pub fn translate_order_by(
    env: &Env,
    state: &mut State,
    root_and_current_tables: &RootAndCurrentTables,
    order_by: &Option<models::OrderBy>,
) -> (result: Result<(crate::sql::ast::OrderBy, Vec<Join>), Error>)
    ensures
        order_by_outcome(
            env@,
            root_and_current_tables@,
            match order_by {
                Some(order_by) => Some(order_by@),
                None => None,
            },
            order_by_view(result),
        ),
        no_order_by_joins(result),
        final(state)@ == old(state)@,
{
    // skip if there's no order by clause.
    match order_by {
        None => {
            let empty = crate::sql::ast::OrderBy { elements: Vec::new() };
            assert(empty@ =~= Seq::empty());
            Ok((empty, Vec::new()))
        },
        Some(models::OrderBy { elements }) => {
            // Group order by elements by their paths, and translate each
            // group to order by columns with their places in the ordering.
            let element_groups = group_elements(elements);
            proof {
                lemma_grouped_order_by(
                    env@,
                    root_and_current_tables@,
                    elements_view(elements@),
                    element_groups@,
                );
            }
            translate_order_by_groups(
                env,
                state,
                root_and_current_tables,
                elements,
                &element_groups,
            )
        },
    }
}

} // verus!
