//! Named entries: a mapping from names to values, kept as a list of pairs in
//! which a name is looked up from the front. Where no name occurs twice the
//! order of the pairs is of no account.

use vstd::prelude::*;

verus! {

/// The position of the first entry under `key`, if there is one.
pub open spec fn position<V>(entries: Seq<(Seq<char>, V)>, key: Seq<char>) -> Option<int>
    decreases entries.len(),
{
    if entries.len() == 0 {
        None
    } else if entries.last().0 == key && position(entries.drop_last(), key) is None {
        Some(entries.len() - 1)
    } else {
        position(entries.drop_last(), key)
    }
}

/// The value of the first entry under `key`, if there is one.
pub open spec fn lookup<V>(entries: Seq<(Seq<char>, V)>, key: Seq<char>) -> Option<V> {
    match position(entries, key) {
        Some(i) => Some(entries[i].1),
        None => None,
    }
}

/// No name occurs twice.
pub open spec fn distinct_names<V>(entries: Seq<(Seq<char>, V)>) -> bool {
    forall|i: int, j: int|
        0 <= i < j < entries.len() ==> (#[trigger] entries[i]).0 != (#[trigger] entries[j]).0
}

/// The entries with `value` under `key`: in the place of the first entry
/// under that name, or at the end where there is none.
pub open spec fn inserted<V>(entries: Seq<(Seq<char>, V)>, key: Seq<char>, value: V) -> Seq<
    (Seq<char>, V),
> {
    match position(entries, key) {
        Some(i) => entries.update(i, (key, value)),
        None => entries.push((key, value)),
    }
}

/// The entries with each of the first `count` entries of `other` inserted, in
/// order.
pub open spec fn merged<V>(
    entries: Seq<(Seq<char>, V)>,
    other: Seq<(Seq<char>, V)>,
    count: nat,
) -> Seq<(Seq<char>, V)>
    decreases count,
{
    if 0 < count <= other.len() {
        inserted(
            merged(entries, other, (count - 1) as nat),
            other[count - 1].0,
            other[count - 1].1,
        )
    } else {
        entries
    }
}

/// What `position` says: the entry is under the key, and no earlier one is.
pub proof fn lemma_position<V>(entries: Seq<(Seq<char>, V)>, key: Seq<char>)
    ensures
        match position(entries, key) {
            Some(i) => 0 <= i < entries.len() && entries[i].0 == key && forall|j: int|
                0 <= j < i ==> (#[trigger] entries[j]).0 != key,
            None => forall|j: int| 0 <= j < entries.len() ==> (#[trigger] entries[j]).0 != key,
        },
    decreases entries.len(),
{
    if entries.len() > 0 {
        let front = entries.drop_last();
        lemma_position(front, key);
        assert(forall|j: int| 0 <= j < front.len() ==> front[j] == entries[j]);
    }
}

/// The first entry under a key is the one that `position` finds.
pub proof fn lemma_position_first<V>(entries: Seq<(Seq<char>, V)>, key: Seq<char>, i: int)
    requires
        0 <= i < entries.len(),
        entries[i].0 == key,
        forall|j: int| 0 <= j < i ==> (#[trigger] entries[j]).0 != key,
    ensures
        position(entries, key) == Some(i),
{
    lemma_position(entries, key);
}

/// Where no entry is under a key, `position` finds none.
pub proof fn lemma_position_none<V>(entries: Seq<(Seq<char>, V)>, key: Seq<char>)
    requires
        forall|j: int| 0 <= j < entries.len() ==> (#[trigger] entries[j]).0 != key,
    ensures
        position(entries, key) is None,
{
    lemma_position(entries, key);
}

/// After an insertion the key has the new value, every other key has what it
/// had before, and names stay distinct.
pub proof fn lemma_inserted<V>(
    entries: Seq<(Seq<char>, V)>,
    key: Seq<char>,
    value: V,
    other: Seq<char>,
)
    ensures
        lookup(inserted(entries, key, value), other) == if other == key {
            Some(value)
        } else {
            lookup(entries, other)
        },
        distinct_names(entries) ==> distinct_names(inserted(entries, key, value)),
{
    let after = inserted(entries, key, value);
    lemma_position(entries, key);
    lemma_position(entries, other);
    lemma_position(after, other);
    match position(entries, key) {
        Some(i) => {
            assert(forall|j: int| 0 <= j < after.len() ==> (#[trigger] after[j]).0 == entries[j].0);
            if other == key {
                lemma_position_first(after, other, i);
            } else {
                match position(entries, other) {
                    Some(k) => {
                        lemma_position_first(after, other, k);
                    },
                    None => {
                        lemma_position_none(after, other);
                    },
                }
            }
        },
        None => {
            assert(forall|j: int|
                0 <= j < entries.len() ==> (#[trigger] after[j]) == entries[j]);
            if other == key {
                lemma_position_first(after, other, entries.len() as int);
            } else {
                match position(entries, other) {
                    Some(k) => {
                        lemma_position_first(after, other, k);
                    },
                    None => {
                        lemma_position_none(after, other);
                    },
                }
            }
        },
    }
}

/// The position of the first entry under `key` in a list of named values.
pub fn find<V>(entries: &Vec<(String, V)>, key: &String) -> (found: Option<usize>)
    ensures
        match found {
            Some(i) => i < entries.len() && entries[i as int].0@ == key@ && forall|j: int|
                0 <= j < i ==> (#[trigger] entries[j]).0@ != key@,
            None => forall|j: int| 0 <= j < entries.len() ==> (#[trigger] entries[j]).0@ != key@,
        },
{
    let mut index: usize = 0;
    while index < entries.len()
        invariant
            index <= entries.len(),
            forall|j: int| 0 <= j < index ==> (#[trigger] entries[j]).0@ != key@,
        decreases entries.len() - index,
    {
        if entries[index].0 == *key {
            return Some(index);
        }
        index += 1;
    }
    None
}

/// A list with the same items in the opposite order.
pub fn reversed<T>(items: Vec<T>) -> (turned: Vec<T>)
    ensures
        turned@ == items@.reverse(),
{
    let mut items = items;
    let ghost all = items@;
    let mut turned: Vec<T> = Vec::new();
    while items.len() > 0
        invariant
            items@ =~= all.take(items@.len() as int),
            items@.len() + turned@.len() == all.len(),
            forall|k: int| 0 <= k < turned@.len() ==> turned@[k] == all[all.len() - 1 - k],
        decreases items.len(),
    {
        let item = items.pop().unwrap();
        turned.push(item);
    }
    assert(turned@ =~= all.reverse());
    turned
}

/// The names of a list of named values.
pub open spec fn names_of<V>(entries: Seq<(String, V)>) -> Seq<(Seq<char>, V)> {
    entries.map_values(|e: (String, V)| (e.0@, e.1))
}

/// The value of the last of the first `count` entries under `key`, if
/// there is one.
pub open spec fn last_under<V>(entries: Seq<(Seq<char>, V)>, key: Seq<char>, count: nat) -> Option<
    V,
>
    decreases count,
{
    if 0 < count <= entries.len() {
        if entries[count - 1].0 == key {
            Some(entries[count - 1].1)
        } else {
            last_under(entries, key, (count - 1) as nat)
        }
    } else {
        None
    }
}

/// After a merge a name has the value that the last entry of the other
/// list gives it, or the value it had where the other list does not name
/// it; and names that were distinct still are.
pub proof fn lemma_merged<V>(
    entries: Seq<(Seq<char>, V)>,
    other: Seq<(Seq<char>, V)>,
    count: nat,
    key: Seq<char>,
)
    requires
        count <= other.len(),
    ensures
        lookup(merged(entries, other, count), key) == match last_under(other, key, count) {
            Some(value) => Some(value),
            None => lookup(entries, key),
        },
        distinct_names(entries) ==> distinct_names(merged(entries, other, count)),
    decreases count,
{
    if count > 0 {
        lemma_merged(entries, other, (count - 1) as nat, key);
        lemma_inserted(
            merged(entries, other, (count - 1) as nat),
            other[count - 1].0,
            other[count - 1].1,
            key,
        );
    }
}

/// Where no name occurs twice, every entry is the one that is found under
/// its name: the order of the entries is of no account.
pub proof fn lemma_lookup_unique<V>(entries: Seq<(Seq<char>, V)>, i: int)
    requires
        distinct_names(entries),
        0 <= i < entries.len(),
    ensures
        lookup(entries, entries[i].0) == Some(entries[i].1),
{
    lemma_position(entries, entries[i].0);
    let found = position(entries, entries[i].0)->0;
    if found < i {
        assert(entries[found].0 != entries[i].0);
    }
}

/// What holds of every value before an insertion and of the value that is
/// inserted holds of every value after it.
pub proof fn lemma_inserted_values<V>(
    entries: Seq<(Seq<char>, V)>,
    key: Seq<char>,
    value: V,
    holds: spec_fn(V) -> bool,
)
    requires
        forall|i: int| 0 <= i < entries.len() ==> holds(#[trigger] entries[i].1),
        holds(value),
    ensures
        forall|i: int|
            0 <= i < inserted(entries, key, value).len() ==> holds(
                #[trigger] inserted(entries, key, value)[i].1,
            ),
{
    lemma_position(entries, key);
    let after = inserted(entries, key, value);
    assert forall|i: int| 0 <= i < after.len() implies holds(#[trigger] after[i].1) by {
        match position(entries, key) {
            Some(found) => {
                if i != found {
                    assert(after[i] == entries[i]);
                }
            },
            None => {
                if i < entries.len() {
                    assert(after[i] == entries[i]);
                }
            },
        }
    }
}

/// What holds of every value of two lists holds of every value of their
/// merge.
pub proof fn lemma_merged_values<V>(
    entries: Seq<(Seq<char>, V)>,
    other: Seq<(Seq<char>, V)>,
    count: nat,
    holds: spec_fn(V) -> bool,
)
    requires
        count <= other.len(),
        forall|i: int| 0 <= i < entries.len() ==> holds(#[trigger] entries[i].1),
        forall|i: int| 0 <= i < other.len() ==> holds(#[trigger] other[i].1),
    ensures
        forall|i: int|
            0 <= i < merged(entries, other, count).len() ==> holds(
                #[trigger] merged(entries, other, count)[i].1,
            ),
    decreases count,
{
    if count > 0 {
        lemma_merged_values(entries, other, (count - 1) as nat, holds);
        lemma_inserted_values(
            merged(entries, other, (count - 1) as nat),
            other[count - 1].0,
            other[count - 1].1,
            holds,
        );
    }
}

} // verus!
