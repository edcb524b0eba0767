//! Rows with a unique key, read as a map.

use vstd::prelude::*;

verus! {

/// Whether no two rows share a key.
pub open spec fn distinct<V, K>(rows: Seq<V>, key: spec_fn(V) -> K) -> bool {
    forall|i: int, j: int|
        #![trigger rows[i], rows[j]]
        0 <= i < rows.len() && 0 <= j < rows.len() && key(rows[i]) == key(rows[j]) ==> i == j
}

/// Whether some row has the key.
pub open spec fn holds<V, K>(rows: Seq<V>, key: spec_fn(V) -> K, wanted: K) -> bool {
    exists|i: int| 0 <= i < rows.len() && key(#[trigger] rows[i]) == wanted
}

/// The place of the row with the key.
pub open spec fn place<V, K>(rows: Seq<V>, key: spec_fn(V) -> K, wanted: K) -> int {
    choose|i: int| 0 <= i < rows.len() && key(#[trigger] rows[i]) == wanted
}

/// The rows as a map from their keys.
pub open spec fn keyed<V, K>(rows: Seq<V>, key: spec_fn(V) -> K) -> Map<K, V> {
    Map::new(
        |wanted: K| holds(rows, key, wanted),
        |wanted: K| rows[place(rows, key, wanted)],
    )
}

/// The value under a key, if there is one.
pub open spec fn lookup<V, K>(map: Map<K, V>, key: K) -> Option<V> {
    if map.contains_key(key) {
        Some(map[key])
    } else {
        None
    }
}

/// The map with a value for a key that had none; unchanged where the key is taken.
pub open spec fn with_new<V, K>(map: Map<K, V>, key: K, value: V) -> Map<K, V> {
    if map.contains_key(key) {
        map
    } else {
        map.insert(key, value)
    }
}

/// A row is found under its own key.
pub proof fn lemma_row<V, K>(rows: Seq<V>, key: spec_fn(V) -> K, index: int)
    requires
        distinct(rows, key),
        0 <= index < rows.len(),
    ensures
        lookup(keyed(rows, key), key(rows[index])) == Some(rows[index]),
{
    let found = place(rows, key, key(rows[index]));
    assert(holds(rows, key, key(rows[index])));
    assert(0 <= found < rows.len() && key(rows[found]) == key(rows[index]));
    assert(found == index);
}

/// A key that no row has is not in the map.
pub proof fn lemma_absent<V, K>(rows: Seq<V>, key: spec_fn(V) -> K, wanted: K)
    requires
        forall|i: int| 0 <= i < rows.len() ==> key(#[trigger] rows[i]) != wanted,
    ensures
        lookup(keyed(rows, key), wanted) == None::<V>,
{
}

/// A key in the map belongs to a row.
pub proof fn lemma_present<V, K>(rows: Seq<V>, key: spec_fn(V) -> K, wanted: K)
    requires
        keyed(rows, key).contains_key(wanted),
    ensures
        0 <= place(rows, key, wanted) < rows.len(),
        key(rows[place(rows, key, wanted)]) == wanted,
        keyed(rows, key)[wanted] == rows[place(rows, key, wanted)],
{
    assert(holds(rows, key, wanted));
}

/// A row with a fresh key extends the map.
pub proof fn lemma_push<V, K>(rows: Seq<V>, key: spec_fn(V) -> K, row: V)
    requires
        distinct(rows, key),
        !keyed(rows, key).contains_key(key(row)),
    ensures
        distinct(rows.push(row), key),
        keyed(rows.push(row), key) == keyed(rows, key).insert(key(row), row),
{
    let more = rows.push(row);
    assert forall|i: int| 0 <= i < rows.len() implies key(#[trigger] rows[i]) != key(row) by {
        assert(!holds(rows, key, key(row)));
    }
    assert(distinct(more, key)) by {
        assert forall|i: int, j: int|
            #![trigger more[i], more[j]]
            0 <= i < more.len() && 0 <= j < more.len() && key(more[i]) == key(more[j]) implies i
            == j by {
            if i < rows.len() {
                assert(more[i] == rows[i]);
            }
            if j < rows.len() {
                assert(more[j] == rows[j]);
            }
        }
    }
    lemma_same_map(
        more,
        key,
        keyed(rows, key).insert(key(row), row),
        |wanted: K| if wanted == key(row) {
            rows.len() as int
        } else {
            place(rows, key, wanted)
        },
    );
}

/// Replacing a row by one of the same key replaces the value in the map.
pub proof fn lemma_update<V, K>(rows: Seq<V>, key: spec_fn(V) -> K, index: int, row: V)
    requires
        distinct(rows, key),
        0 <= index < rows.len(),
        key(rows[index]) == key(row),
    ensures
        distinct(rows.update(index, row), key),
        keyed(rows.update(index, row), key) == keyed(rows, key).insert(key(row), row),
{
    let changed = rows.update(index, row);
    assert(distinct(changed, key)) by {
        assert forall|i: int, j: int|
            #![trigger changed[i], changed[j]]
            0 <= i < changed.len() && 0 <= j < changed.len() && key(changed[i]) == key(
                changed[j],
            ) implies i == j by {
            assert(key(changed[i]) == key(rows[i]));
            assert(key(changed[j]) == key(rows[j]));
        }
    }
    assert forall|i: int| 0 <= i < rows.len() implies key(#[trigger] changed[i]) == key(
        rows[i],
    ) by {}
    lemma_row(rows, key, index);
    lemma_same_map(
        changed,
        key,
        keyed(rows, key).insert(key(row), row),
        |wanted: K| place(rows, key, wanted),
    );
}

/// Removing a row removes its key from the map.
pub proof fn lemma_remove<V, K>(rows: Seq<V>, key: spec_fn(V) -> K, index: int)
    requires
        distinct(rows, key),
        0 <= index < rows.len(),
    ensures
        distinct(rows.remove(index), key),
        keyed(rows.remove(index), key) == keyed(rows, key).remove(key(rows[index])),
{
    let fewer = rows.remove(index);
    let gone = key(rows[index]);
    let former = |i: int| if i < index {
        i
    } else {
        i + 1
    };
    assert forall|i: int| 0 <= i < fewer.len() implies #[trigger] fewer[i] == rows[former(i)] by {}
    assert(distinct(fewer, key)) by {
        assert forall|i: int, j: int|
            #![trigger fewer[i], fewer[j]]
            0 <= i < fewer.len() && 0 <= j < fewer.len() && key(fewer[i]) == key(
                fewer[j],
            ) implies i == j by {
            assert(rows[former(i)] == fewer[i]);
            assert(rows[former(j)] == fewer[j]);
            assert(former(i) == former(j));
        }
    }
    assert forall|i: int| 0 <= i < fewer.len() implies key(#[trigger] fewer[i]) != gone by {
        assert(rows[former(i)] == fewer[i]);
        assert(former(i) != index);
    }
    lemma_same_map(
        fewer,
        key,
        keyed(rows, key).remove(gone),
        |wanted: K|
            {
                let i = place(rows, key, wanted);
                if i < index {
                    i
                } else {
                    i - 1
                }
            },
    );
}

/// The rows read as `map` where each key of the map has its value in the row that `at` names, and
/// each row's key is in the map.
proof fn lemma_same_map<V, K>(
    rows: Seq<V>,
    key: spec_fn(V) -> K,
    map: Map<K, V>,
    at: spec_fn(K) -> int,
)
    requires
        distinct(rows, key),
        forall|wanted: K| #[trigger]
            map.contains_key(wanted) ==> 0 <= at(wanted) < rows.len() && key(rows[at(wanted)])
                == wanted && rows[at(wanted)] == map[wanted],
        forall|i: int| 0 <= i < rows.len() ==> map.contains_key(key(#[trigger] rows[i])),
    ensures
        keyed(rows, key) == map,
{
    assert forall|wanted: K| #[trigger]
        keyed(rows, key).contains_key(wanted) == map.contains_key(wanted) by {
        if map.contains_key(wanted) {
            assert(key(rows[at(wanted)]) == wanted);
            assert(holds(rows, key, wanted));
        }
        if holds(rows, key, wanted) {
            let i = place(rows, key, wanted);
            assert(key(rows[i]) == wanted);
        }
    }
    assert forall|wanted: K| #[trigger] map.contains_key(wanted) implies keyed(rows, key)[wanted]
        == map[wanted] by {
        lemma_row(rows, key, at(wanted));
    }
    assert(keyed(rows, key) =~= map);
}

} // verus!
